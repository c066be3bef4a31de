# voxminutes

The core of a meeting recorder that works on the user's own computer. It decides what is
recorded, how speech is transcribed, translated and summed up, and which servers may be asked;
its behaviour is stated in contracts and proved with Verus.

- `src/` is the library. Work that only the outside can do (devices, files, network, speech
  engines) is asked for step by step: a run is handed what happened and answers what is to be
  done next. Calls of `serde_json`, `url`, `uuid`, `chrono` and `reqwest` stand behind small
  functions whose contracts are believed, each with a comment that says what it claims.
- `tests/` runs the library on concrete values.
- `app/` is the application around it: it does what the runs ask for. The desktop shell, the
  audio system and the speech engines come in through the traits of `app/host.rs`.

//! Transcribing a short clip at once, and measuring how fast a recognizer is.

use vstd::prelude::*;
#[allow(unused_imports)]
use vstd::string::StringExecFns;

use crate::text;
use crate::text::{concat2, is_text, same, starts_with, strip_prefix, trim};
use crate::transcription;
use crate::transcription::{
    EngineAction, EngineKind, EngineRun, Purpose, RemoteAsrConfig, TranscriptConfig,
};

verus! {

/// The clip that recognizers are measured with.
pub const TEST_AUDIO: &'static str = "example_audio.wav";

/// Whether a path lies in a folder, both as the names that they are made of.
pub open spec fn lies_in(path: Seq<Seq<char>>, folder: Seq<Seq<char>>) -> bool {
    folder.is_prefix_of(path)
}

/// Whether a path lies in a folder, both as the names that they are made of.
pub fn path_lies_in(path: &Vec<String>, folder: &Vec<String>) -> (r: bool)
    ensures
        r == lies_in(text::texts(path@), text::texts(folder@)),
{
    if folder.len() > path.len() {
        return false;
    }
    let ghost p = text::texts(path@);
    let ghost f = text::texts(folder@);
    let mut i: usize = 0;
    while i < folder.len()
        invariant
            0 <= i <= folder@.len() <= path@.len(),
            p == text::texts(path@),
            f == text::texts(folder@),
            forall|k: int| 0 <= k < i ==> #[trigger] f[k] == p[k],
        decreases folder@.len() - i,
    {
        if !same(path[i].as_str(), folder[i].as_str()) {
            assert(f[i as int] != p[i as int]);
            assert(p.subrange(0, f.len() as int)[i as int] == p[i as int]);
            return false;
        }
        i += 1;
    }
    assert(f =~= p.subrange(0, f.len() as int));
    true
}

/// What a clip's path is told. `path` are the names that the path is made of once links in it
/// are followed, where it leads somewhere; `exists_now` is whether there still is a file.
pub open spec fn clip_verdict(
    path: Option<Seq<Seq<char>>>,
    data_folder: Seq<Seq<char>>,
    exists_now: bool,
    shown: Seq<char>,
) -> Result<(), Seq<char>> {
    match path {
        None => Err("Audio file not found or inaccessible: "@ + shown),
        Some(p) => if !lies_in(p, data_folder) {
            Err("Audio file path is outside allowed directory: "@ + shown)
        } else if !exists_now {
            Err("Audio file not found: "@ + shown)
        } else {
            Ok(())
        },
    }
}

/// The view of a path that may lead nowhere.
pub open spec fn path_view(path: Option<Vec<String>>) -> Option<Seq<Seq<char>>> {
    match path {
        Some(p) => Some(text::texts(p@)),
        None => None,
    }
}

/// Decides whether a clip may be read: only files in the application's data folder are, wherever
/// the path that the caller gives seems to lead.
pub fn check_clip(
    path: &Option<Vec<String>>,
    data_folder: &Vec<String>,
    exists_now: bool,
    shown: &str,
) -> (r: Result<(), String>)
    ensures
        text::unit_result(r) == clip_verdict(
            path_view(*path),
            text::texts(data_folder@),
            exists_now,
            shown@,
        ),
{
    match path {
        None => Err(concat2("Audio file not found or inaccessible: ", shown)),
        Some(p) => {
            if !path_lies_in(p, data_folder) {
                return Err(concat2("Audio file path is outside allowed directory: ", shown));
            }
            if !exists_now {
                return Err(concat2("Audio file not found: ", shown));
            }
            Ok(())
        },
    }
}

/// A clip is read only where its path, once links in it are followed, lies in the data folder.
pub proof fn clips_stay_in_the_data_folder(
    path: Option<Seq<Seq<char>>>,
    data_folder: Seq<Seq<char>>,
    exists_now: bool,
    shown: Seq<char>,
)
    ensures
        clip_verdict(path, data_folder, exists_now, shown) is Ok <==> path is Some && exists_now
            && data_folder.len() <= path->0.len() && path->0.take(data_folder.len() as int)
            == data_folder,
{
}

/// The model to transcribe with: the one given, or the built-in one.
pub open spec fn model_or_default(model: Option<Seq<char>>) -> Seq<char> {
    match model {
        Some(m) => m,
        None => "sense-voice"@,
    }
}

/// Which recognizer a model belongs to, and what it is called there.
pub open spec fn quick_choice(model: Seq<char>) -> (EngineKind, Seq<char>) {
    if "x-asr-"@.is_prefix_of(model) {
        (EngineKind::XAsr, model)
    } else if "qwen3-asr-remote"@.is_prefix_of(model) {
        (EngineKind::Remote { streaming: false }, model)
    } else if "sense"@.is_prefix_of(model) {
        (EngineKind::Sherpa, "sense-voice"@)
    } else {
        (EngineKind::Sherpa, model)
    }
}

/// Which recognizer a model of a clip belongs to: a server that the user runs, where it is called
/// `custom:` and the identifier of a profile.
pub open spec fn clip_choice(model: Seq<char>) -> (EngineKind, Seq<char>) {
    if "custom:"@.is_prefix_of(model) {
        (EngineKind::CustomLocal, model.skip("custom:"@.len() as int))
    } else {
        quick_choice(model)
    }
}

fn choose_quick(model: &str) -> (r: (EngineKind, String))
    ensures
        (r.0, r.1@) == quick_choice(model@),
{
    if starts_with(model, "x-asr-") {
        (EngineKind::XAsr, model.to_owned())
    } else if starts_with(model, "qwen3-asr-remote") {
        (EngineKind::Remote { streaming: false }, model.to_owned())
    } else if starts_with(model, "sense") {
        (EngineKind::Sherpa, "sense-voice".to_owned())
    } else {
        (EngineKind::Sherpa, model.to_owned())
    }
}

/// The user's choice that a model stands for, where nothing else is chosen.
pub open spec fn quick_config(model: Seq<char>) -> transcription::ConfigView {
    transcription::ConfigView { provider: Seq::empty(), model }
}

fn begin_quick(kind: EngineKind, model: String, remote: &RemoteAsrConfig) -> (r: (
    EngineRun,
    EngineAction,
))
    ensures
        (r.0@, r.1@) == transcription::first_step(
            transcription::fresh_engine(
                Purpose::Quick,
                quick_config(model@),
                remote.endpoint@,
                remote.model@,
            ),
            kind,
        ),
{
    let provider: String = String::new();
    assert(provider@ =~= Seq::empty());
    EngineRun::begin(Purpose::Quick, TranscriptConfig { provider, model }, kind, remote)
}

/// Begins to get the recognizer ready that a clip is transcribed with.
pub fn quick_transcribe(model: Option<&str>, remote: &RemoteAsrConfig) -> (r: (
    EngineRun,
    EngineAction,
))
    ensures
        ({
            let (kind, name) = clip_choice(model_or_default(text::opt_str(model)));
            (r.0@, r.1@) == transcription::first_step(
                transcription::fresh_engine(
                    Purpose::Quick,
                    quick_config(name),
                    remote.endpoint@,
                    remote.model@,
                ),
                kind,
            )
        }),
{
    let name: &str = match model {
        Some(m) => m,
        None => "sense-voice",
    };
    match strip_prefix(name, "custom:") {
        Some(id) => begin_quick(EngineKind::CustomLocal, id, remote),
        None => {
            let (kind, chosen) = choose_quick(name);
            begin_quick(kind, chosen, remote)
        },
    }
}

/// The transcript of a clip without surrounding white space, or why there is none.
pub fn clip_result(result: Result<String, String>) -> (r: Result<String, String>)
    ensures
        text::result_text(r) == (match result {
            Ok(t) => Ok(text::trimmed(t@)),
            Err(e) => Err("Transcription failed: "@ + e@),
        }),
{
    match result {
        Ok(t) => Ok(trim(t.as_str())),
        Err(e) => Err(concat2("Transcription failed: ", e.as_str())),
    }
}

/// Whether a clip has anything to transcribe.
pub fn check_samples(count: usize) -> (r: Result<(), String>)
    ensures
        text::unit_result(r) == (if count == 0 {
            Err("No audio samples after preprocessing"@)
        } else {
            Ok(())
        }),
{
    if count == 0 {
        return Err("No audio samples after preprocessing".to_owned());
    }
    Ok(())
}

/// Whether a model transcribes a file by itself, rather than samples.
pub fn reads_files(model: &str) -> (r: bool)
    ensures
        r == "x-asr-"@.is_prefix_of(model@),
{
    starts_with(model, "x-asr-")
}

/// The model that a measurement is made with.
pub open spec fn measured_model(model: Option<Seq<char>>, provider: Option<Seq<char>>) -> Seq<char> {
    if provider == Some("remote"@) {
        "qwen3-asr-remote"@
    } else {
        model_or_default(model)
    }
}

/// The model that a measurement is made with.
pub fn benchmark_model(model: Option<&str>, provider: Option<&str>) -> (r: String)
    ensures
        r@ == measured_model(text::opt_str(model), text::opt_str(provider)),
{
    if is_text(provider, "remote") {
        return "qwen3-asr-remote".to_owned();
    }
    match model {
        Some(m) => m.to_owned(),
        None => "sense-voice".to_owned(),
    }
}

/// Begins to get the recognizer ready that is measured: the same that a recording would be
/// transcribed with.
pub fn benchmark_asr(model: Option<&str>, provider: Option<&str>, remote: &RemoteAsrConfig) -> (r: (
    EngineRun,
    EngineAction,
))
    ensures
        ({
            let (kind, name) = quick_choice(
                measured_model(text::opt_str(model), text::opt_str(provider)),
            );
            (r.0@, r.1@) == transcription::first_step(
                transcription::fresh_engine(
                    Purpose::Quick,
                    quick_config(name),
                    remote.endpoint@,
                    remote.model@,
                ),
                kind,
            )
        }),
{
    let name: String = benchmark_model(model, provider);
    let (kind, chosen) = choose_quick(name.as_str());
    begin_quick(kind, chosen, remote)
}

/// Where the clip for measurements is taken from.
#[derive(Clone, Copy, Debug, PartialEq, Eq, Structural)]
pub enum TestAudioSource {
    /// The resources that come with the application.
    Resources,
    /// The folder in which the application was started.
    WorkingFolder,
    /// The folder of the program.
    ProgramFolder,
}

/// Where the clip for measurements is taken from: the first place that has it.
pub fn prepare_auto_test_audio(
    in_resources: bool,
    in_working_folder: bool,
    in_program_folder: bool,
) -> (r: Result<TestAudioSource, String>)
    ensures
        match r {
            Ok(source) => source == (if in_resources {
                TestAudioSource::Resources
            } else if in_working_folder {
                TestAudioSource::WorkingFolder
            } else {
                TestAudioSource::ProgramFolder
            }) && (in_resources || in_working_folder || in_program_folder),
            Err(e) => !in_resources && !in_working_folder && !in_program_folder && e@
                == "example_audio.wav not found"@,
        },
{
    if in_resources {
        Ok(TestAudioSource::Resources)
    } else if in_working_folder {
        Ok(TestAudioSource::WorkingFolder)
    } else if in_program_folder {
        Ok(TestAudioSource::ProgramFolder)
    } else {
        Err("example_audio.wav not found".to_owned())
    }
}

/// A clip that is not read is refused for a reason that names it: its path leads nowhere, or
/// outside the data folder, or to a file that is gone.
pub proof fn refused_clips_are_named(
    path: Option<Seq<Seq<char>>>,
    data_folder: Seq<Seq<char>>,
    exists_now: bool,
    shown: Seq<char>,
)
    ensures
        ({
            let verdict = clip_verdict(path, data_folder, exists_now, shown);
            let inside = path is Some && data_folder.len() <= path->0.len() && path->0.take(
                data_folder.len() as int,
            ) == data_folder;
            &&& path is None ==> verdict == Err::<(), Seq<char>>(
                "Audio file not found or inaccessible: "@ + shown,
            )
            &&& path is Some && !inside ==> verdict == Err::<(), Seq<char>>(
                "Audio file path is outside allowed directory: "@ + shown,
            )
            &&& path is Some && inside && !exists_now ==> verdict == Err::<(), Seq<char>>(
                "Audio file not found: "@ + shown,
            )
        }),
{
    if path is Some && data_folder.len() <= path->0.len() {
        assert(path->0.take(data_folder.len() as int) =~= path->0.subrange(
            0,
            data_folder.len() as int,
        ));
    }
}

/// A clip gets the recognizer that its model belongs to: the server of a profile where it is named
/// `custom:` and the identifier, X-ASR and the remote server by the start of their models' names,
/// and the local engine for all others, where every name that starts with `sense` is the built-in
/// model. That one is used too where none is named.
pub proof fn clips_get_the_recognizer_of_their_model(model: Seq<char>, id: Seq<char>)
    ensures
        clip_choice("custom:"@ + id) == (EngineKind::CustomLocal, id),
        !"custom:"@.is_prefix_of(model) ==> clip_choice(model) == quick_choice(model),
        "x-asr-"@.is_prefix_of(model) ==> quick_choice(model) == (EngineKind::XAsr, model),
        "qwen3-asr-remote"@.is_prefix_of(model) ==> quick_choice(model) == (
            EngineKind::Remote { streaming: false },
            model,
        ),
        "sense"@.is_prefix_of(model) ==> quick_choice(model) == (
            EngineKind::Sherpa,
            "sense-voice"@,
        ),
        !"x-asr-"@.is_prefix_of(model) && !"qwen3-asr-remote"@.is_prefix_of(model)
            && !"sense"@.is_prefix_of(model) ==> quick_choice(model) == (EngineKind::Sherpa, model),
        model_or_default(None) == "sense-voice"@,
        model_or_default(Some(model)) == model,
        quick_config(model).model == model && quick_config(model).provider.len() == 0,
{
    reveal_strlit("custom:");
    reveal_strlit("x-asr-");
    reveal_strlit("qwen3-asr-remote");
    reveal_strlit("sense");
    let named = "custom:"@ + id;
    assert("custom:"@.is_prefix_of(named));
    assert(named.skip(7) =~= id);
    if "x-asr-"@.is_prefix_of(model) {
        assert(model[0] == "x-asr-"@[0]);
    }
    if "qwen3-asr-remote"@.is_prefix_of(model) {
        assert(model[0] == "qwen3-asr-remote"@[0]);
    }
    if "sense"@.is_prefix_of(model) {
        assert(model[0] == "sense"@[0]);
    }
}

/// The remote server is measured with its own model, whatever other is named; every other
/// measurement is made with the named model, or the built-in one.
pub proof fn the_named_model_is_measured(model: Option<Seq<char>>, provider: Option<Seq<char>>)
    ensures
        provider == Some("remote"@) ==> measured_model(model, provider) == "qwen3-asr-remote"@,
        provider != Some("remote"@) && model is Some ==> measured_model(model, provider) == model->0,
        provider != Some("remote"@) && model is None ==> measured_model(model, provider)
            == "sense-voice"@,
{
}

} // verus!

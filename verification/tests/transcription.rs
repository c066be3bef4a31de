use voxminutes::custom_local::LocalModelProfile;
use voxminutes::quick_transcribe::{
    benchmark_asr, benchmark_model, check_clip, check_samples, clip_result,
    prepare_auto_test_audio, quick_transcribe, reads_files, TestAudioSource,
};
use voxminutes::settings::{
    frontend_log, get_language_preference_internal, set_audio_processing_flags, AudioFlags,
    LanguagePreference, LogLevel,
};
use voxminutes::text::{
    concat3, contains, decimal, eq_ignore_ascii_case, starts_with, strip_prefix, take_chars, trim,
    trim_end_slashes,
};
use voxminutes::transcription::{
    engine_kind, format_timestamp_simple, get_or_init_transcription_engine,
    get_remote_asr_endpoint, get_remote_asr_model, is_remote_asr_configured,
    remote_model_or_default, set_remote_asr_config, transcript_config_or_default,
    validate_transcription_model_ready, CustomLocalAsrProvider, EngineAction, EngineEvent,
    EngineKind, EngineRun, ReadyEngine, RemoteAsrConfig, TranscriptConfig, TranscriptionEngine,
};

fn chosen(provider: &str, model: &str) -> TranscriptConfig {
    TranscriptConfig { provider: provider.to_string(), model: model.to_string() }
}

fn remote(endpoint: &str) -> RemoteAsrConfig {
    let mut config = RemoteAsrConfig::new();
    set_remote_asr_config(&mut config, endpoint, "m");
    config
}

fn local(endpoint: &str) -> LocalModelProfile {
    LocalModelProfile {
        id: "p".to_string(),
        name: "Whisper".to_string(),
        task: "asr".to_string(),
        endpoint: endpoint.to_string(),
        model: "w".to_string(),
        timeout_secs: 5,
    }
}

fn reason(action: EngineAction) -> String {
    match action {
        EngineAction::Fail(e) => e,
        other => panic!("{other:?}"),
    }
}

#[test]
fn the_remote_recognizer_is_set() {
    let config = RemoteAsrConfig::new();
    assert!(!is_remote_asr_configured(&config));
    let config = remote("http://h");
    assert!(is_remote_asr_configured(&config));
    assert_eq!(get_remote_asr_endpoint(&config), "http://h");
    assert_eq!(get_remote_asr_model(&config), "m");
    assert_eq!(remote_model_or_default(None), "Qwen/Qwen3-ASR-1.7B");
    assert_eq!(remote_model_or_default(Some("x".to_string())), "x");
}

#[test]
fn recognizers_are_told_apart() {
    let default = transcript_config_or_default(None);
    assert_eq!((default.provider.as_str(), default.model.as_str()), ("sherpaonnx", "sense-voice"));
    assert_eq!(engine_kind(&chosen("custom-local", "x-asr-1")), EngineKind::CustomLocal);
    assert_eq!(engine_kind(&chosen("other", "x-asr-1")), EngineKind::XAsr);
    assert_eq!(
        engine_kind(&chosen("a", "qwen3-asr-remote-streaming")),
        EngineKind::Remote { streaming: true }
    );
    assert_eq!(
        engine_kind(&chosen("remote-qwen3-asr", "m")),
        EngineKind::Remote { streaming: false }
    );
    assert_eq!(engine_kind(&chosen("sherpaonnx", "m")), EngineKind::Sherpa);
    assert_eq!(engine_kind(&chosen("other", "m")), EngineKind::Unsupported);
}

#[test]
fn custom_recognizers_are_tested_before_a_recording() {
    let begin = || validate_transcription_model_ready(Some(chosen("custom-local", "p")), &remote(""));
    let (mut run, first) = begin();
    assert!(matches!(first, EngineAction::FindProfile(id) if id == "p"));
    let next = run.advance(EngineEvent::Profile(Ok(local("http://localhost:1"))));
    assert!(matches!(next, EngineAction::TestConnection(p) if p.name == "Whisper"));
    let end = run.advance(EngineEvent::Tested(Ok(200)));
    assert!(matches!(end, EngineAction::Ready(ReadyEngine::CustomLocal(p)) if p.id == "p"));
    assert!(matches!(run.advance(EngineEvent::Loaded(true)), EngineAction::Nothing));

    let (mut run, _) = begin();
    run.advance(EngineEvent::Profile(Ok(local("http://localhost:1"))));
    assert_eq!(
        reason(run.advance(EngineEvent::Tested(Err("refused".to_string())))),
        "Custom local ASR is unavailable: refused"
    );
    for status in [404, 405] {
        let (mut run, _) = begin();
        run.advance(EngineEvent::Profile(Ok(local("http://localhost:1"))));
        let end = run.advance(EngineEvent::Tested(Ok(status)));
        assert!(matches!(end, EngineAction::Ready(ReadyEngine::CustomLocal(p)) if p.id == "p"));
    }
    let (mut run, _) = begin();
    run.advance(EngineEvent::Profile(Ok(local("http://localhost:1"))));
    assert_eq!(
        reason(run.advance(EngineEvent::Tested(Ok(500)))),
        "Custom local ASR is unavailable: GET /models returned HTTP 500 Internal Server Error"
    );
    let (mut run, _) = begin();
    let far = reason(run.advance(EngineEvent::Profile(Ok(local("http://10.0.0.1")))));
    assert!(far.starts_with("Custom model servers must be bound to loopback"));
    let (mut run, _) = begin();
    assert_eq!(
        reason(run.advance(EngineEvent::Profile(Err("No asr profile with ID p".to_string())))),
        "No asr profile with ID p"
    );

    let (mut run, _) = get_or_init_transcription_engine(Some(chosen("custom-local", "p")), &remote(""));
    let end = run.advance(EngineEvent::Profile(Ok(local("http://localhost:1"))));
    assert!(matches!(end, EngineAction::Ready(ReadyEngine::CustomLocal(_))));
}

fn after(mut start: (EngineRun, EngineAction), events: Vec<EngineEvent>) -> EngineAction {
    for event in events {
        start.1 = start.0.advance(event);
    }
    start.1
}

fn failed() -> Result<(), String> {
    Err("e".to_string())
}

#[test]
fn streaming_models_are_loaded() {
    let validate = || validate_transcription_model_ready(Some(chosen("a", "x-asr-1")), &remote(""));
    let build = || get_or_init_transcription_engine(Some(chosen("a", "x-asr-1")), &remote(""));
    assert!(matches!(validate().1, EngineAction::CheckXAsr));
    assert!(matches!(
        after(validate(), vec![EngineEvent::Loaded(true)]),
        EngineAction::Ready(ReadyEngine::XAsr(m)) if m == "x-asr-1"
    ));
    assert!(matches!(
        after(validate(), vec![EngineEvent::Loaded(false)]),
        EngineAction::LoadModel(m) if m == "x-asr-1"
    ));
    let load = vec![EngineEvent::Loaded(false), EngineEvent::ModelLoaded(failed())];
    assert_eq!(reason(after(validate(), load)), "X-ASR model loading failed: e");
    let load = vec![EngineEvent::Loaded(false), EngineEvent::ModelLoaded(failed())];
    assert_eq!(reason(after(build(), load)), "Failed to load X-ASR model: e");
    assert!(matches!(after(build(), vec![EngineEvent::Loaded(true)]), EngineAction::TakeXAsr));
    let take = vec![EngineEvent::Loaded(true), EngineEvent::EngineTaken(failed())];
    assert_eq!(reason(after(build(), take)), "X-ASR engine not ready: e");
    let take = vec![EngineEvent::Loaded(true), EngineEvent::EngineTaken(Ok(()))];
    assert!(matches!(after(build(), take), EngineAction::Ready(ReadyEngine::XAsr(_))));
}

#[test]
fn remote_recognizers_must_answer() {
    let config = || Some(chosen("remote-qwen3-asr", "m"));
    assert_eq!(
        reason(validate_transcription_model_ready(config(), &remote("")).1),
        "Remote ASR endpoint not configured. Please set the remote ASR URL in Settings."
    );
    let validate = || validate_transcription_model_ready(config(), &remote("http://h"));
    assert!(matches!(
        validate().1,
        EngineAction::CheckHealth { endpoint, streaming: false, .. } if endpoint == "http://h"
    ));
    assert_eq!(
        reason(after(validate(), vec![EngineEvent::Healthy(false)])),
        "Cannot connect to remote ASR at http://h. Please check the server is running."
    );
    assert!(matches!(
        after(validate(), vec![EngineEvent::Healthy(true)]),
        EngineAction::Ready(ReadyEngine::Remote { .. })
    ));
    let build = || get_or_init_transcription_engine(config(), &remote("http://h"));
    assert!(matches!(build().1, EngineAction::DetectModel { .. }));
    assert!(matches!(
        after(build(), vec![EngineEvent::Detected("found".to_string())]),
        EngineAction::Ready(ReadyEngine::Remote { model, .. }) if model == "found"
    ));
    assert!(matches!(
        after(build(), vec![EngineEvent::Detected(String::new())]),
        EngineAction::Ready(ReadyEngine::Remote { model, .. }) if model == "m"
    ));
}

#[test]
fn the_built_in_recognizer_is_set_up() {
    let validate = || validate_transcription_model_ready(None, &remote(""));
    assert!(matches!(validate().1, EngineAction::Initialise));
    assert_eq!(
        reason(after(validate(), vec![EngineEvent::Initialised(failed())])),
        "Failed to init Sherpa-ONNX: e"
    );
    let load = vec![
        EngineEvent::Initialised(Ok(())),
        EngineEvent::Loaded(false),
        EngineEvent::ModelLoaded(failed()),
    ];
    assert_eq!(
        reason(after(validate(), load)),
        "Failed to load Sherpa-ONNX model 'sense-voice': e"
    );
    let load = vec![EngineEvent::Initialised(Ok(())), EngineEvent::Loaded(true)];
    assert!(matches!(after(validate(), load), EngineAction::Ready(ReadyEngine::Sherpa)));
    let build = || get_or_init_transcription_engine(None, &remote(""));
    let load = vec![EngineEvent::Loaded(false), EngineEvent::ModelLoaded(failed())];
    assert_eq!(reason(after(build(), load)), "Failed to load Sherpa-ONNX model: e");
    let take = vec![EngineEvent::Loaded(true), EngineEvent::EngineTaken(failed())];
    assert_eq!(reason(after(build(), take)), "Sherpa-ONNX engine not ready: e");
    assert_eq!(
        reason(get_or_init_transcription_engine(Some(chosen("other", "m")), &remote("")).1),
        "Provider 'other' is not supported. Use 'sherpaonnx', 'x-asr', or 'remote-qwen3-asr'."
    );
}

#[test]
fn recognizers_tell_their_name() {
    let engine = TranscriptionEngine::Provider(CustomLocalAsrProvider::new(local("http://localhost")));
    assert_eq!(engine.provider_name(), "Custom local ASR");
    assert_eq!(engine.get_current_model().as_deref(), Some("Whisper"));
    assert!(engine.is_model_loaded());
}

#[test]
fn times_of_day_have_two_digits() {
    assert_eq!(format_timestamp_simple(0), "00:00:00");
    assert_eq!(format_timestamp_simple(86_399), "23:59:59");
    assert_eq!(format_timestamp_simple(90_061), "01:01:01");
}

fn names(path: &[&str]) -> Vec<String> {
    path.iter().map(|s| s.to_string()).collect()
}

#[test]
fn clips_stay_in_the_data_folder() {
    let data = names(&["/", "home", "app"]);
    let check = |path: &[&str], exists| check_clip(&Some(names(path)), &data, exists, "clip");
    assert_eq!(check(&["/", "home", "app", "a.wav"], true), Ok(()));
    let outside = Err("Audio file path is outside allowed directory: clip".to_string());
    assert_eq!(check(&["/", "home", "application"], true), outside);
    assert_eq!(check(&["/", "home"], true), outside);
    assert_eq!(
        check(&["/", "home", "app", "a.wav"], false),
        Err("Audio file not found: clip".to_string())
    );
    assert_eq!(
        check_clip(&None, &data, true, "clip"),
        Err("Audio file not found or inaccessible: clip".to_string())
    );
}

#[test]
fn clips_are_transcribed_at_once() {
    let first = |model| quick_transcribe(model, &remote("")).1;
    assert!(matches!(first(Some("custom:p")), EngineAction::FindProfile(id) if id == "p"));
    assert!(matches!(first(Some("x-asr-1")), EngineAction::CheckXAsr));
    assert!(matches!(first(None), EngineAction::CheckSherpa));
    assert_eq!(
        reason(first(Some("qwen3-asr-remote"))),
        "Remote ASR endpoint not configured. Please set the remote ASR URL in Settings."
    );
    let connect = quick_transcribe(Some("qwen3-asr-remote"), &remote("http://h"));
    assert_eq!(
        reason(after(connect, vec![EngineEvent::Connected(failed())])),
        "Failed to initialize remote ASR: e"
    );
    let load = vec![EngineEvent::Loaded(false)];
    assert!(matches!(
        after(quick_transcribe(Some("sense-voice-int8"), &remote("")), load),
        EngineAction::LoadModel(m) if m == "sense-voice"
    ));
    assert_eq!(clip_result(Ok(" hi ".to_string())), Ok("hi".to_string()));
    assert_eq!(clip_result(Err("e".to_string())), Err("Transcription failed: e".to_string()));
    assert_eq!(check_samples(0), Err("No audio samples after preprocessing".to_string()));
    assert_eq!(check_samples(1), Ok(()));
    assert!(reads_files("x-asr-1") && !reads_files("sense-voice"));
}

#[test]
fn measurements_use_the_chosen_recognizer() {
    assert_eq!(benchmark_model(Some("m"), Some("remote")), "qwen3-asr-remote");
    assert_eq!(benchmark_model(None, Some("local")), "sense-voice");
    assert_eq!(benchmark_model(Some("m"), None), "m");
    assert!(matches!(
        benchmark_asr(None, Some("remote"), &remote("http://h")).1,
        EngineAction::Connect { endpoint, model } if endpoint == "http://h" && model == "m"
    ));
    assert_eq!(prepare_auto_test_audio(true, true, true), Ok(TestAudioSource::Resources));
    assert_eq!(prepare_auto_test_audio(false, true, true), Ok(TestAudioSource::WorkingFolder));
    assert_eq!(prepare_auto_test_audio(false, false, true), Ok(TestAudioSource::ProgramFolder));
    assert_eq!(
        prepare_auto_test_audio(false, false, false),
        Err("example_audio.wav not found".to_string())
    );
}

#[test]
fn messages_of_the_interface_go_into_the_log() {
    let (level, text) = frontend_log("WARN", "m", Some("a.ts".to_string()), Some(3));
    assert_eq!((level, text.as_str()), (LogLevel::Warn, "[a.ts:3] m"));
    let (level, text) = frontend_log("Error", "m", Some("a.ts".to_string()), None);
    assert_eq!((level, text.as_str()), (LogLevel::Error, "[a.ts] m"));
    let (level, text) = frontend_log("other", "m", None, Some(3));
    assert_eq!((level, text.as_str()), (LogLevel::Info, "m"));
    assert_eq!(frontend_log("trace", "", None, None).0, LogLevel::Trace);
    assert_eq!(frontend_log("DEBUG", "", None, None).0, LogLevel::Debug);
}

#[test]
fn small_settings_are_kept() {
    let mut preference = LanguagePreference::new();
    assert_eq!(get_language_preference_internal(Some(&preference)).as_deref(), Some("auto"));
    preference.set_language_preference("zh".to_string());
    assert_eq!(get_language_preference_internal(Some(&preference)).as_deref(), Some("zh"));
    assert_eq!(get_language_preference_internal(None), None);
    let mut flags = AudioFlags { agc: true, rnnoise: false, ebu: true };
    set_audio_processing_flags(&mut flags, Some(false), None, Some(true));
    assert_eq!(flags, AudioFlags { agc: false, rnnoise: false, ebu: true });
}

#[test]
fn texts_are_taken_apart() {
    assert_eq!(trim("\u{3000} a b\t\n"), "a b");
    assert_eq!(trim_end_slashes("a//b///"), "a//b");
    assert_eq!(strip_prefix("custom:x", "custom:").as_deref(), Some("x"));
    assert_eq!(strip_prefix("custo", "custom:"), None);
    assert!(starts_with("abc", "ab") && !starts_with("a", "ab"));
    assert!(contains("gemma-3", "mma") && contains("x", "") && !contains("gem", "gemma"));
    assert!(eq_ignore_ascii_case("LOCALhost", "localhost"));
    assert!(!eq_ignore_ascii_case("É", "é"));
    assert_eq!(decimal(0), "0");
    assert_eq!(decimal(u64::MAX), "18446744073709551615");
    assert_eq!(take_chars("语言", 1), "语");
    assert_eq!(concat3("a", "b", "c"), "abc");
}

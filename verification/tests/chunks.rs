use voxminutes::chunk_audio::{assemble, padded};
use voxminutes::chunk_plan::{Chunk, ChunkEnd};
use voxminutes::progress::{progress_note, Moment};
use voxminutes::retranscription::{begin_engine, choose_engine};
use voxminutes::transcription::{
    set_remote_asr_config, EngineAction, EngineEvent, ReadyEngine, RemoteAsrConfig,
};

#[test]
fn chunks_are_put_together() {
    let segments = vec![vec![1, 2, 3], vec![4], vec![5, 6]];
    let merged = Chunk::Merged { members: vec![0, 2], end: ChunkEnd::EndOf(2) };
    let audio = assemble(&segments, &merged, 0);
    assert_eq!(audio.len(), 3 + 800 + 2);
    assert_eq!(&audio[..4], &[1, 2, 3, 0]);
    assert_eq!(&audio[802..], &[0, 5, 6]);
    assert_eq!(assemble(&segments, &Chunk::Whole { segment: 1 }, 0), vec![4]);
    let part = Chunk::Part { segment: 0, from: 1, to: 3 };
    assert_eq!(assemble(&segments, &part, 0), vec![2, 3]);
}

#[test]
fn streams_are_padded_with_silence() {
    let audio = padded(&vec![7]);
    assert_eq!(audio.len(), 16001);
    assert_eq!((audio[7999], audio[8000], audio[8001]), (0, 7, 0));
}

#[test]
fn progress_is_told() {
    let note = progress_note(Moment::Decoding);
    assert_eq!((note.stage.as_str(), note.percent, note.message.as_str()), ("decoding", 0, "解码音频文件..."));
    assert_eq!(progress_note(Moment::Decoded).percent, 100);
    assert_eq!(progress_note(Moment::DetectingSpeech).stage, "vad");
    let note = progress_note(Moment::SpeechFound { percent: 40, segments: 3 });
    assert_eq!((note.percent, note.message.as_str()), (40, "Detecting speech segments... 40% (3 found)"));
    let note = progress_note(Moment::LoadingEngine { streaming: false, chunks: 2 });
    assert_eq!(note.message, "加载识别引擎... (2 个大段)");
    assert_eq!((note.chunks_total, note.chunks_processed), (Some(2), Some(0)));
    let note = progress_note(Moment::LoadingEngine { streaming: true, chunks: 2 });
    assert_eq!(note.message, "X-ASR: 2 个大段, 准备发送...");
    assert_eq!(progress_note(Moment::Saving).message, "保存转录结果到数据库...");
    let note = progress_note(Moment::WritingFiles);
    assert_eq!((note.stage.as_str(), note.percent), ("saving", 50));
}

#[test]
fn chunk_lengths_are_rounded_to_even() {
    for samples in [0usize, 7999, 8000, 8001, 24000, 24001, 40000, 1_920_000] {
        let note = progress_note(Moment::Transcribed { streaming: false, done: 1, chunks: 9, samples });
        let expected = format!("转写中 1/9 ({:.0}s 音频)...", samples as f64 / 16000.0);
        assert_eq!(note.message, expected);
        assert_eq!(note.chunks_processed, Some(1));
    }
    let note = progress_note(Moment::Transcribed { streaming: true, done: 1, chunks: 9, samples: 16000 });
    assert_eq!(note.message, "X-ASR 转写中 1/9 (1s 音频)...");
}

#[test]
fn stored_recordings_get_their_recognizer() {
    let mut remote = RemoteAsrConfig::new();
    set_remote_asr_config(&mut remote, "http://h", "m");
    let begin = |model: Option<&str>, provider: Option<&str>| {
        begin_engine(choose_engine(model, provider, "http://h").unwrap(), &remote)
    };
    let (mut run, first) = begin(None, Some("remote"));
    assert!(matches!(first, EngineAction::Connect { .. }));
    match run.advance(EngineEvent::Connected(Err("e".to_string()))) {
        EngineAction::Fail(e) => {
            assert_eq!(e, "Failed to initialize remote ASR for retranscription: e");
        }
        other => panic!("{other:?}"),
    }
    let (mut run, first) = begin(Some("m1"), None);
    assert!(matches!(first, EngineAction::CheckSherpa));
    run.advance(EngineEvent::Loaded(false));
    match run.advance(EngineEvent::ModelLoaded(Err("e".to_string()))) {
        EngineAction::Fail(e) => assert_eq!(e, "Failed to load Sherpa-ONNX model: e"),
        other => panic!("{other:?}"),
    }
    let (mut run, first) = begin(Some("x-asr-480ms"), None);
    assert!(matches!(first, EngineAction::CheckXAsr));
    run.advance(EngineEvent::Loaded(true));
    assert!(matches!(
        run.advance(EngineEvent::EngineTaken(Ok(()))),
        EngineAction::Ready(ReadyEngine::XAsr(m)) if m == "x-asr-480ms"
    ));
    let (_, first) = begin(Some("p"), Some("custom-local"));
    assert!(matches!(first, EngineAction::FindProfile(id) if id == "p"));
}

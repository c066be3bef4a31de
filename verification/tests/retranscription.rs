use voxminutes::chunk_plan::{merge_segments, separate_segments, Chunk, ChunkEnd};
use voxminutes::metadata::{
    create_transcript_segments, fresh_metadata, fresh_metadata_at, updated_metadata,
    write_retranscription_metadata, TimedText,
};
use voxminutes::retranscription::{
    asr_route, audio_candidates, cancel_retranscription, cancel_retranscription_command,
    choose_engine, chunk_samples, default_rtf, find_audio_file, is_retranscription_in_progress,
    plan_chunks, start_retranscription_command, vad_settings, AudioFile, EngineChoice,
    RetranscriptionFlags, RetranscriptionRun, RunEvent, RunStage,
};
use voxminutes::wav::{wav16, wav_file};

fn seconds(ms: Option<i128>) -> Option<f64> {
    ms.map(|m| m as f64 / 1000.0)
}

#[test]
fn test_create_transcript_segments_empty() {
    let transcripts: Vec<TimedText> = vec![];
    let segments = create_transcript_segments(&transcripts);
    assert!(segments.is_empty());
}

#[test]
fn test_create_transcript_segments_single() {
    let transcripts = vec![TimedText { text: "Hello world".to_string(), start_ms: 0, end_ms: 1500 }];
    let segments = create_transcript_segments(&transcripts);

    assert_eq!(segments.len(), 1);
    assert_eq!(segments[0].text, "Hello world");
    assert_eq!(seconds(segments[0].audio_start_ms.map(i128::from)), Some(0.0));
    assert_eq!(seconds(segments[0].audio_end_ms.map(i128::from)), Some(1.5));
    assert_eq!(seconds(segments[0].duration_ms), Some(1.5));
    assert_eq!(segments[0].sequence_id, 0);
}

#[test]
fn test_cancellation_flag() {
    let mut flags = RetranscriptionFlags::new();
    assert!(!is_retranscription_in_progress(&flags));
    cancel_retranscription(&mut flags);
    assert!(flags.cancelled);
}

#[test]
fn only_one_run_at_a_time() {
    let mut flags = RetranscriptionFlags::new();
    assert_eq!(
        cancel_retranscription_command(&mut flags),
        Err("No retranscription in progress".to_string())
    );
    cancel_retranscription(&mut flags);
    assert_eq!(start_retranscription_command(&flags, "m1").unwrap().message, "Retranscription started");
    assert_eq!(flags.begin(), Ok(()));
    assert!(!flags.cancelled);
    assert_eq!(flags.begin(), Err("Retranscription already in progress".to_string()));
    assert_eq!(
        start_retranscription_command(&flags, "m1").unwrap_err(),
        "Retranscription already in progress"
    );
    assert_eq!(cancel_retranscription_command(&mut flags), Ok(()));
    assert!(flags.cancelled);
    flags.release();
    assert!(!is_retranscription_in_progress(&flags));
    assert_eq!(flags.acquire(), Ok(()));
}

#[test]
fn recognizers_are_chosen_by_model_and_provider() {
    assert!(matches!(choose_engine(Some("x-asr-960"), None, ""), Ok(EngineChoice::XAsr(m)) if m == "x-asr-960"));
    assert!(matches!(
        choose_engine(Some("p1"), Some("custom-local"), ""),
        Ok(EngineChoice::CustomLocal(m)) if m == "p1"
    ));
    assert_eq!(
        choose_engine(None, Some("custom-local"), "").unwrap_err(),
        "Missing custom ASR profile ID"
    );
    assert!(matches!(choose_engine(None, Some("remote"), "http://h"), Ok(EngineChoice::Remote)));
    assert_eq!(
        choose_engine(Some("qwen3-asr-remote"), None, "").unwrap_err(),
        "Remote ASR endpoint not configured. Please set the remote ASR URL in Settings."
    );
    assert!(matches!(choose_engine(None, None, ""), Ok(EngineChoice::Sherpa(m)) if m == "sense-voice"));
    assert_eq!(default_rtf(None, Some("remote")), 80);
    assert_eq!(default_rtf(Some("x-asr-960"), None), 30);
    assert_eq!(default_rtf(None, None), 350);
    assert_eq!(chunk_samples(asr_route(None, None)), 1_920_000);
    assert_eq!(chunk_samples(asr_route(None, Some("remote"))), 9_600_000);
    assert_eq!(vad_settings(asr_route(None, None)).redemption_ms, 800);
    assert_eq!(vad_settings(asr_route(Some("x-asr-1"), None)).redemption_ms, 1500);
}

fn shape(chunk: &Chunk) -> (Vec<usize>, Option<(usize, usize)>) {
    match chunk {
        Chunk::Merged { members, .. } => (members.clone(), None),
        Chunk::Part { segment, from, to } => (vec![*segment], Some((*from, *to))),
        Chunk::Whole { segment } => (vec![*segment], None),
    }
}

#[test]
fn segments_are_merged_up_to_a_limit() {
    let lens = vec![4000, 1000, 3000, 12000, 5000];
    let ranges = vec![vec![], vec![], vec![], vec![(0, 6000), (6000, 12000)], vec![]];
    let chunks = merge_segments(&lens, &ranges, 8000);
    let shapes: Vec<_> = chunks.iter().map(shape).collect();
    assert_eq!(
        shapes,
        vec![
            (vec![0, 2], None),
            (vec![3], Some((0, 6000))),
            (vec![3], Some((6000, 12000))),
            (vec![4], None),
        ]
    );
    assert!(matches!(&chunks[0], Chunk::Merged { end: ChunkEnd::StartOf(3), .. }));
    assert!(matches!(&chunks[3], Chunk::Merged { end: ChunkEnd::EndOf(4), .. }));
    // 4000 + 800 + 3300 is over the limit, so the third segment opens a chunk of its own.
    let apart = merge_segments(&vec![4000, 3300], &vec![vec![], vec![]], 8000);
    assert_eq!(apart.len(), 2);
    assert!(matches!(&apart[0], Chunk::Merged { end: ChunkEnd::StartOf(1), .. }));
}

#[test]
fn segments_are_kept_apart_for_the_local_engine() {
    let lens = vec![4000, 1000, 12000];
    let ranges = vec![vec![], vec![], vec![(0, 7000), (7000, 12000)]];
    let shapes: Vec<_> = separate_segments(&lens, &ranges, 8000).iter().map(shape).collect();
    assert_eq!(
        shapes,
        vec![(vec![0], None), (vec![2], Some((0, 7000))), (vec![2], Some((7000, 12000)))]
    );
    let planned = plan_chunks(asr_route(None, None), &vec![2000], &vec![vec![]]);
    assert!(matches!(planned[0], Chunk::Whole { segment: 0 }));
}

fn run_to_speech(run: &mut RetranscriptionRun) {
    for _ in 0..4 {
        run.advance(RunEvent::Done, false);
    }
    assert_eq!(run.stage, RunStage::DetectSpeech);
}

#[test]
fn a_run_goes_through_its_stages() {
    let mut run = RetranscriptionRun::new(None, None, "");
    run_to_speech(&mut run);
    run.advance(RunEvent::Speech { lens: vec![2000, 3000, 100], ranges: vec![vec![], vec![], vec![]] }, false);
    assert_eq!(run.stage, RunStage::LoadEngine);
    assert_eq!(run.chunks.len(), 2);
    run.advance(RunEvent::Done, false);
    run.advance(RunEvent::Text(Ok("  ".to_string())), false);
    run.advance(RunEvent::Text(Ok(" second ".to_string())), false);
    assert_eq!(run.stage, RunStage::Save);
    assert_eq!(run.transcripts.len(), 1);
    assert_eq!((run.transcripts[0].chunk, run.transcripts[0].text.as_str()), (1, "second"));
    run.advance(RunEvent::Done, true);
    run.advance(RunEvent::Failed("disk full".to_string()), true);
    assert_eq!(run.stage, RunStage::Finished);
    assert!(run.error.is_none());
}

#[test]
fn runs_end_with_their_reason() {
    let mut run = RetranscriptionRun::new(None, Some("remote"), "");
    run.advance(RunEvent::Done, false);
    assert_eq!(
        run.error.as_deref(),
        Some("Remote ASR endpoint not configured. Please set the remote ASR URL in Settings.")
    );

    let mut run = RetranscriptionRun::new(None, None, "");
    run_to_speech(&mut run);
    run.advance(RunEvent::Failed("bad".to_string()), false);
    assert_eq!(run.error.as_deref(), Some("VAD processing failed: bad"));
    run.advance(RunEvent::Done, false);
    assert_eq!(run.stage, RunStage::Failed);

    let mut run = RetranscriptionRun::new(None, None, "");
    run_to_speech(&mut run);
    run.advance(RunEvent::Panicked("bad".to_string()), false);
    assert_eq!(run.error.as_deref(), Some("VAD task panicked: bad"));

    let mut run = RetranscriptionRun::new(None, None, "");
    run_to_speech(&mut run);
    run.advance(RunEvent::Speech { lens: vec![], ranges: vec![] }, false);
    assert_eq!(run.error.as_deref(), Some("No speech detected in audio file"));

    let mut run = RetranscriptionRun::new(None, None, "");
    run_to_speech(&mut run);
    run.advance(RunEvent::Speech { lens: vec![10], ranges: vec![vec![]] }, false);
    assert_eq!(run.error.as_deref(), Some("No speech detected after VAD"));

    let mut run = RetranscriptionRun::new(None, None, "");
    run.advance(RunEvent::Done, false);
    run.advance(RunEvent::Done, true);
    assert_eq!(run.error.as_deref(), Some("Retranscription cancelled"));
}

#[test]
fn audio_is_found_under_known_names_first() {
    assert_eq!(audio_candidates()[6], "recording.mp4");
    let known = vec!["mp3".to_string(), "wav".to_string()];
    let found = find_audio_file(&vec![false, true], &vec![Some("MP3".to_string())], &known, "/f");
    assert_eq!(found, Ok(AudioFile::Candidate(1)));
    let entries = vec![None, Some("txt".to_string()), Some("MP3".to_string())];
    assert_eq!(find_audio_file(&vec![false], &entries, &known, "/f"), Ok(AudioFile::Entry(2)));
    assert_eq!(
        find_audio_file(&vec![false], &vec![None], &known, "/f"),
        Err("No audio file found in: /f".to_string())
    );
}

/// Samples between -1 and 1 as 16 bit values.
fn quantized(audio: &[f32]) -> Vec<i16> {
    audio.iter().map(|s| (s.clamp(-1.0, 1.0) * 32767.0).round() as i16).collect()
}

#[test]
fn wav_header_contains_actual_length() {
    let wav = wav16(&quantized(&[0.0, 1.0, -1.0])).unwrap();
    assert_eq!(&wav[..4], b"RIFF");
    assert_eq!(u32::from_le_bytes(wav[40..44].try_into().unwrap()), 6);
    assert_eq!(wav.len(), 50);
}

#[test]
fn wav_files_hold_their_format_and_samples() {
    let wav = wav_file(&[1, -2], 48000, 2);
    assert_eq!(&wav[8..16], b"WAVEfmt ");
    assert_eq!(u32::from_le_bytes(wav[4..8].try_into().unwrap()), 40);
    assert_eq!(u16::from_le_bytes(wav[22..24].try_into().unwrap()), 2);
    assert_eq!(u32::from_le_bytes(wav[24..28].try_into().unwrap()), 48000);
    assert_eq!(u32::from_le_bytes(wav[28..32].try_into().unwrap()), 192000);
    assert_eq!(u16::from_le_bytes(wav[32..34].try_into().unwrap()), 4);
    assert_eq!(&wav[44..], &[1, 0, 254, 255]);
}

fn member(document: &str, name: &str) -> Option<String> {
    let value: serde_json::Value = serde_json::from_str(document).unwrap();
    value.get(name).and_then(|v| v.as_str()).map(str::to_string)
}

#[test]
fn metadata_is_updated_in_place() {
    let existing = "{\"meeting_id\":\"m1\",\"status\":\"recording\",\"n\":3}";
    let (text, is_object) = updated_metadata(existing, "2026-01-02T03:04:05+00:00").unwrap();
    assert!(is_object);
    assert_eq!(member(&text, "retranscribed_at").as_deref(), Some("2026-01-02T03:04:05+00:00"));
    assert_eq!(member(&text, "status").as_deref(), Some("completed"));
    assert_eq!(member(&text, "transcript_file").as_deref(), Some("transcripts_offline.json"));
    assert_eq!(member(&text, "source").as_deref(), Some("offline_asr"));
    assert_eq!(member(&text, "meeting_id").as_deref(), Some("m1"));
    assert!(text.contains("\n  \"n\": 3"));
    let (text, is_object) = updated_metadata("[1]", "now").unwrap();
    assert!(!is_object);
    assert_eq!(text, "[\n  1\n]");
    assert!(updated_metadata("{", "now").is_err());
}

#[test]
fn metadata_carries_the_present_time() {
    let (text, _) = write_retranscription_metadata("{}").unwrap();
    let stamp = member(&text, "retranscribed_at").unwrap();
    assert!(stamp.len() >= 25 && stamp.starts_with("20") && stamp.ends_with("+00:00"));
    assert_eq!((&stamp[10..11], &stamp[13..14], &stamp[16..17]), ("T", ":", ":"));
    assert!(write_retranscription_metadata("no json").is_err());
}

#[test]
fn fresh_metadata_describes_the_recording() {
    let members = fresh_metadata_at("m1", "audio.wav", "t");
    assert_eq!(members.len(), 9);
    assert!(members.contains(&("source".to_string(), "retranscription".to_string())));
    assert!(members.contains(&("audio_file".to_string(), "audio.wav".to_string())));
    assert!(members.contains(&("created_at".to_string(), "t".to_string())));
    let members = fresh_metadata("m1", None);
    assert!(members.contains(&("audio_file".to_string(), "audio.mp4".to_string())));
}

fn refused(run: &mut RetranscriptionRun) {
    run_to_speech(run);
    let found = RunEvent::Speech { lens: vec![2000, 3000], ranges: vec![vec![], vec![]] };
    run.advance(found, false);
    run.advance(RunEvent::Done, false);
    run.advance(RunEvent::Text(Err("ASR request failed".to_string())), false);
    assert_eq!(run.stage, RunStage::Transcribe);
}

#[test]
fn refused_recordings_are_reported_and_not_saved() {
    let mut run = RetranscriptionRun::new(Some("p"), Some("custom-local"), "");
    refused(&mut run);
    run.advance(RunEvent::Text(Err("HTTP 500".to_string())), false);
    assert_eq!(run.stage, RunStage::Failed);
    assert_eq!(run.error.as_deref(), Some("HTTP 500"));

    let mut run = RetranscriptionRun::new(Some("p"), Some("custom-local"), "");
    refused(&mut run);
    run.advance(RunEvent::Text(Ok(String::new())), false);
    assert_eq!(run.stage, RunStage::Save);

    let mut run = RetranscriptionRun::new(None, None, "");
    refused(&mut run);
    run.advance(RunEvent::Text(Err("HTTP 500".to_string())), false);
    assert_eq!(run.stage, RunStage::Save);
    run.advance(RunEvent::Done, false);
    run.advance(RunEvent::Panicked("bad".to_string()), false);
    assert_eq!(run.stage, RunStage::Finished);
}

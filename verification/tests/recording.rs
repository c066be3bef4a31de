use voxminutes::device_follower::{
    after_rebuild, follower_gate, DeviceReading, DeviceWatch, Follower, FollowerAction,
    FollowerGate, FollowerNotice,
};
use voxminutes::recording::{
    attempt_device_reconnect, committed_segment_texts, device_response, get_meeting_folder_path,
    get_mic_mute, get_reconnection_status, get_recording_meeting_name, get_recording_state,
    get_transcription_status, is_recording_paused, monitored_names, pause_recording,
    poll_audio_device_events, resume_recording, segment_id, set_mic_mute, toggle_mic_mute,
    CommittedSegment, DeviceEvent, DeviceEventResponse, DeviceMonitorType, DisconnectedDeviceInfo,
    RecordingArgs, RecordingSession,
};
use voxminutes::recording_start::{
    bypasses_vad, default_preferences, effective_meeting_name, meeting_name_or,
    model_missing_message, resolve_device, start_kind, RecordingPreferences, StartAction,
    StartEvent, StartKind, StartRun, StartStage,
};
use voxminutes::recording_stop::{StopEvent, StopRun, StopStage, StopStep, StopTask};

fn name(s: &str) -> Option<String> {
    Some(s.to_string())
}

fn session() -> RecordingSession {
    RecordingSession {
        meeting_folder: name("/f"),
        meeting_name: name("Standup"),
        is_paused: true,
        is_active: false,
        is_waiting_for_device: true,
        is_mic_muted: false,
        is_reconnecting: true,
        disconnected_device: Some(DisconnectedDeviceInfo {
            name: "Buds".to_string(),
            device_type: "Microphone".to_string(),
        }),
    }
}

#[test]
fn recordings_can_be_paused_and_resumed() {
    let args = RecordingArgs { save_path: "/f".to_string() };
    assert_eq!(args.save_path, "/f");
    assert_eq!(pause_recording(false, true).unwrap_err(), "No recording is currently active");
    assert_eq!(pause_recording(true, false).unwrap_err(), "No recording manager found");
    assert_eq!(pause_recording(true, true).unwrap().event, "recording-paused");
    assert_eq!(resume_recording(false, false).unwrap_err(), "No recording is currently active");
    assert_eq!(resume_recording(true, false).unwrap_err(), "No recording manager found");
    assert_eq!(resume_recording(true, true).unwrap().message, "Recording resumed");
}

#[test]
fn the_state_of_a_recording_is_reported() {
    let s = session();
    assert!(is_recording_paused(Some(&s)));
    assert!(!is_recording_paused(None));
    let report = get_recording_state(true, Some(&s));
    assert!(report.is_recording && report.is_paused && !report.is_active);
    assert_eq!(report.is_waiting_for_device, Some(true));
    let report = get_recording_state(false, None);
    assert!(!report.is_paused && report.is_waiting_for_device.is_none());
    assert_eq!(get_meeting_folder_path(Some(&s)).as_deref(), Some("/f"));
    assert_eq!(get_meeting_folder_path(None), None);
    assert_eq!(get_recording_meeting_name(Some(&s)).as_deref(), Some("Standup"));
    assert_eq!(get_recording_meeting_name(None), None);
    let status = get_transcription_status(true);
    assert!(status.is_processing);
    assert_eq!((status.chunks_in_queue, status.last_activity_ms), (0, 0));
    let reconnection = get_reconnection_status(Some(&s));
    assert!(reconnection.is_reconnecting);
    assert_eq!(reconnection.disconnected_device.unwrap().name, "Buds");
    assert!(!get_reconnection_status(None).is_reconnecting);
}

#[test]
fn committed_segments_keep_their_order() {
    let list = vec![
        CommittedSegment { sequence_id: 3, text: "c".to_string() },
        CommittedSegment { sequence_id: 1, text: "a".to_string() },
    ];
    assert_eq!(
        committed_segment_texts(Some(&list)),
        vec![(3, "c".to_string()), (1, "a".to_string())]
    );
    assert!(committed_segment_texts(None).is_empty());
    assert_eq!(segment_id(12), "seg_12");
}

#[test]
fn the_microphone_can_be_muted() {
    let mut s = Some(session());
    assert_eq!(set_mic_mute(&mut s, true), Ok(true));
    assert_eq!(get_mic_mute(s.as_ref()), Ok(true));
    assert_eq!(toggle_mic_mute(&mut s), Ok(false));
    assert_eq!(get_mic_mute(s.as_ref()), Ok(false));
    let none = Err("No active recording".to_string());
    assert_eq!(set_mic_mute(&mut None, true), none);
    assert_eq!(toggle_mic_mute(&mut None), none);
    assert_eq!(get_mic_mute(None), none);
}

#[test]
fn device_events_are_told() {
    let told = device_response(DeviceEvent::DeviceDisconnected {
        device_name: "Buds".to_string(),
        device_type: DeviceMonitorType::SystemAudio,
    });
    match told {
        DeviceEventResponse::DeviceDisconnected { device_name, device_type } => {
            assert_eq!((device_name.as_str(), device_type.as_str()), ("Buds", "SystemAudio"));
        }
        other => panic!("{other:?}"),
    }
    assert!(matches!(
        poll_audio_device_events(Some(DeviceEvent::DeviceListChanged)),
        Some(DeviceEventResponse::DeviceListChanged)
    ));
    assert!(poll_audio_device_events(None).is_none());
    assert_eq!(attempt_device_reconnect("Microphone", true), Ok(DeviceMonitorType::Microphone));
    assert_eq!(
        attempt_device_reconnect("Speaker", false),
        Err("Invalid device type: Speaker".to_string())
    );
    assert_eq!(
        attempt_device_reconnect("SystemAudio", false),
        Err("Recording not active".to_string())
    );
    assert_eq!(monitored_names(Some("m"), None), vec!["m".to_string()]);
    assert_eq!(monitored_names(Some("m"), Some("s")).len(), 2);
}

#[test]
fn meetings_are_named() {
    assert_eq!(meeting_name_or(Some("Standup"), "t"), "Standup");
    assert_eq!(meeting_name_or(None, "2025-10-03_08-25-23"), "Meeting 2025-10-03_08-25-23");
    assert_eq!(effective_meeting_name(Some("Standup")), "Standup");
    let made = effective_meeting_name(None);
    let stamp = made.strip_prefix("Meeting ").unwrap();
    assert_eq!(stamp.len(), 19);
    for (i, c) in stamp.chars().enumerate() {
        match i {
            4 | 7 | 13 | 16 => assert_eq!(c, '-'),
            10 => assert_eq!(c, '_'),
            _ => assert!(c.is_ascii_digit()),
        }
    }
    assert!(bypasses_vad(Some("x-asr-960ms")));
    assert!(!bypasses_vad(Some("sense-voice")) && !bypasses_vad(None));
    assert!(model_missing_message().starts_with("Recording cannot start"));
}

#[test]
fn preferred_devices_come_first() {
    assert_eq!(resolve_device(Some(Ok(1)), Some(2)), Some(1));
    assert_eq!(resolve_device(Some(Err("gone".to_string())), Some(2)), Some(2));
    assert_eq!(resolve_device::<u32>(Some(Err("gone".to_string())), None), None);
    assert_eq!(resolve_device(None, Some(2)), Some(2));
}

fn preferences(mic: Option<String>) -> RecordingPreferences {
    RecordingPreferences {
        auto_save: false,
        preferred_mic: mic,
        preferred_system: None,
        save_folder: "/rec".to_string(),
    }
}

fn failure(action: StartAction) -> (String, bool) {
    match action {
        StartAction::Fail { error, model_missing } => (error, model_missing),
        other => panic!("{other:?}"),
    }
}

#[test]
fn a_recording_starts_with_default_devices() {
    let mut run = StartRun::new(start_kind(None, None));
    assert!(matches!(run.advance(StartEvent::Checked { is_recording: false }), StartAction::Validate));
    assert!(matches!(run.advance(StartEvent::Validated(Ok(()))), StartAction::LoadPreferences));
    match run.advance(StartEvent::Preferences(preferences(name("USB")))) {
        StartAction::FindDevices { mic, system } => {
            assert_eq!((mic, system), (name("USB"), None));
        }
        other => panic!("{other:?}"),
    }
    let next = run.advance(StartEvent::Devices { mic: name("Built-in"), system: None });
    assert!(matches!(next, StartAction::LoadConfig));
    let configured = StartEvent::Configured {
        model: name("x-asr-960ms"),
        meeting_name: "Standup".to_string(),
    };
    match run.advance(configured) {
        StartAction::StartStreams(plan) => {
            assert_eq!((plan.mic, plan.system), (name("Built-in"), None));
            assert!(!plan.auto_save && !plan.follow_mic && plan.follow_system && plan.bypass_vad);
            assert_eq!((plan.save_folder.as_str(), plan.meeting_name.as_str()), ("/rec", "Standup"));
        }
        other => panic!("{other:?}"),
    }
    match run.advance(StartEvent::Started(Ok(()))) {
        StartAction::Finish(report) => {
            assert_eq!(report.message, "Recording started successfully with parallel processing");
            assert_eq!(report.devices, vec!["Default Microphone", "Default System Audio"]);
            assert_eq!(report.workers, 3);
            assert!(report.spawn_follower);
            assert_eq!(report.monitored, vec!["Built-in"]);
        }
        other => panic!("{other:?}"),
    }
    assert_eq!(run.stage, StartStage::Running);
    let after = run.advance(StartEvent::Checked { is_recording: false });
    assert!(matches!(after, StartAction::Nothing));
}

#[test]
fn a_recording_starts_with_named_devices() {
    let mut run = StartRun::new(start_kind(name("USB"), None));
    run.advance(StartEvent::Checked { is_recording: false });
    let next = run.advance(StartEvent::Validated(Ok(())));
    assert!(matches!(next, StartAction::FindMic(n) if n == "USB"));
    assert!(matches!(run.advance(StartEvent::MicFound(Ok(()))), StartAction::LoadPreferences));
    let next = run.advance(StartEvent::Preferences(default_preferences("/default")));
    assert!(matches!(next, StartAction::LoadConfig));
    let configured = StartEvent::Configured { model: None, meeting_name: "M".to_string() };
    match run.advance(configured) {
        StartAction::StartStreams(plan) => {
            assert_eq!((plan.mic, plan.system), (name("USB"), None));
            assert!(plan.auto_save && !plan.follow_mic && plan.follow_system && !plan.bypass_vad);
            assert_eq!(plan.save_folder, "/default");
        }
        other => panic!("{other:?}"),
    }
    match run.advance(StartEvent::Started(Ok(()))) {
        StartAction::Finish(report) => {
            assert_eq!(
                report.message,
                "Recording started with custom devices and parallel processing"
            );
            assert_eq!(report.devices, vec!["USB", "Default System Audio"]);
            assert_eq!(report.monitored, vec!["USB"]);
        }
        other => panic!("{other:?}"),
    }
}

#[test]
fn starts_fail_with_their_reason() {
    let mut run = StartRun::new(StartKind::Defaults);
    assert_eq!(
        failure(run.advance(StartEvent::Checked { is_recording: true })),
        ("Recording already in progress".to_string(), false)
    );

    let checked = |kind: StartKind| {
        let mut run = StartRun::new(kind);
        run.advance(StartEvent::Checked { is_recording: false });
        run
    };
    let mut run = checked(StartKind::Defaults);
    assert_eq!(
        failure(run.advance(StartEvent::Validated(Err("not ready".to_string())))),
        ("not ready".to_string(), true)
    );

    let mut run = checked(start_kind(name("USB"), name("HDMI")));
    run.advance(StartEvent::Validated(Ok(())));
    assert_eq!(
        failure(run.advance(StartEvent::MicFound(Err("gone".to_string())))).0,
        "Invalid microphone device 'USB': gone"
    );

    let mut run = checked(start_kind(name("USB"), name("HDMI")));
    run.advance(StartEvent::Validated(Ok(())));
    let next = run.advance(StartEvent::MicFound(Ok(())));
    assert!(matches!(next, StartAction::FindSystem(n) if n == "HDMI"));
    assert_eq!(
        failure(run.advance(StartEvent::SystemFound(Err("gone".to_string())))).0,
        "Invalid system device 'HDMI': gone"
    );

    let mut run = checked(StartKind::Defaults);
    run.advance(StartEvent::Validated(Ok(())));
    run.advance(StartEvent::Preferences(preferences(None)));
    assert_eq!(
        failure(run.advance(StartEvent::Devices { mic: None, system: None })).0,
        "No audio devices available: neither a microphone nor a system audio device was found"
    );

    let mut run = checked(StartKind::Defaults);
    run.advance(StartEvent::Validated(Ok(())));
    run.advance(StartEvent::Preferences(preferences(None)));
    run.advance(StartEvent::Devices { mic: None, system: name("HDMI") });
    run.advance(StartEvent::Configured { model: None, meeting_name: "M".to_string() });
    assert_eq!(
        failure(run.advance(StartEvent::Started(Err("busy".to_string())))).0,
        "Failed to start recording: busy"
    );
}

fn progress(step: &StopStep) -> Option<(String, u32)> {
    step.notice.as_ref().map(|n| (n.stage.clone(), n.progress))
}

#[test]
fn stopping_waits_for_transcripts() {
    let mut run = StopRun::new();
    let step = run.advance(StopEvent::Checked { is_recording: true });
    assert_eq!(progress(&step), Some(("stopping_audio".to_string(), 20)));
    assert!(matches!(step.task, StopTask::StopStreams));
    let step = run.advance(StopEvent::StreamsStopped { has_recording: true });
    assert_eq!(progress(&step), Some(("processing_transcripts".to_string(), 40)));
    assert!(matches!(step.task, StopTask::AwaitTranscripts));
    let step = run.advance(StopEvent::StillWaiting { elapsed_secs: 86400 });
    assert!(matches!(step.task, StopTask::Wait));
    let step = run.advance(StopEvent::StillWaiting { elapsed_secs: 7 });
    let notice = step.notice.unwrap();
    assert_eq!(notice.message, "Processing transcripts... (7s elapsed)");
    assert_eq!(notice.elapsed_secs, Some(7));
    let step = run.advance(StopEvent::TranscriptsDone);
    assert_eq!(progress(&step), Some(("unloading_model".to_string(), 70)));
    assert!(matches!(step.task, StopTask::ReadConfig { limit_secs: 30 }));
    let step = run.advance(StopEvent::ConfigRead);
    assert_eq!(progress(&step), Some(("finalizing".to_string(), 90)));
    assert!(matches!(step.task, StopTask::Save { has_recording: true, limit_secs: 300 }));
    let step = run.advance(StopEvent::Saved { folder: name("/f"), name: name("M") });
    assert!(step.notice.is_none() && matches!(step.task, StopTask::ClearFlag));
    assert_ne!(run.stage, StopStage::Stopped);
    let step = run.advance(StopEvent::Cleared);
    assert_eq!(progress(&step), Some(("complete".to_string(), 100)));
    match step.task {
        StopTask::Finish { folder, name: n } => assert_eq!((folder, n), (name("/f"), name("M"))),
        other => panic!("{other:?}"),
    }
    assert_eq!(run.stage, StopStage::Stopped);
}

#[test]
fn stops_can_be_idle_or_fail() {
    let mut run = StopRun::new();
    let step = run.advance(StopEvent::Checked { is_recording: false });
    assert!(step.notice.is_none() && matches!(step.task, StopTask::Done));

    let mut run = StopRun::new();
    run.advance(StopEvent::Checked { is_recording: true });
    let step = run.advance(StopEvent::StreamsFailed("busy".to_string()));
    assert!(matches!(step.task, StopTask::Fail(e) if e == "Failed to stop audio streams: busy"));

    let mut run = StopRun::new();
    run.advance(StopEvent::Checked { is_recording: true });
    run.advance(StopEvent::StreamsStopped { has_recording: false });
    run.advance(StopEvent::TranscriptionCrashed);
    run.advance(StopEvent::ConfigRead);
    run.advance(StopEvent::Saved { folder: name("/f"), name: None });
    let step = run.advance(StopEvent::Cleared);
    assert!(matches!(step.task, StopTask::Finish { folder: None, name: None }));
}

#[test]
fn devices_are_looked_at_while_recording() {
    assert_eq!(follower_gate(false, false, false, true), FollowerGate::Skip);
    assert_eq!(follower_gate(true, true, false, false), FollowerGate::Skip);
    assert_eq!(follower_gate(true, false, true, false), FollowerGate::Skip);
    assert_eq!(
        follower_gate(true, false, true, true),
        FollowerGate::Look { clear_pending: true }
    );
    assert_eq!(
        follower_gate(true, false, false, false),
        FollowerGate::Look { clear_pending: false }
    );
}

#[test]
fn devices_settle_before_they_count() {
    let mut watch = DeviceWatch::new();
    assert!(!watch.look(&name("a"), &name("a"), 0, false));
    assert!(!watch.look(&name("a"), &name("b"), 1000, false));
    assert!(!watch.look(&name("a"), &name("b"), 2999, false));
    assert!(watch.look(&name("a"), &name("b"), 3000, false));
    // A flicker starts the wait anew.
    assert!(!watch.look(&name("a"), &name("c"), 4000, false));
    assert!(!watch.look(&name("a"), &name("b"), 5000, false));
    assert!(!watch.look(&name("a"), &name("b"), 6000, true));
    assert!(watch.look(&name("a"), &name("b"), 7000, false));
    assert!(!watch.look(&name("b"), &name("b"), 8000, false));
}

fn reading(now: u64) -> DeviceReading {
    DeviceReading {
        now,
        paused: false,
        pending: false,
        mic_in_use: name("a"),
        system_in_use: name("s"),
        default_mic: name("a"),
        default_system: name("s"),
        mic_failed: false,
        system_failed: false,
        waiting: false,
    }
}

#[test]
fn the_follower_rebuilds_when_it_must() {
    let mut follower = Follower::new(true, true);
    assert_eq!(follower.step(&reading(0)), FollowerAction::Nothing);
    let mut moved = reading(1000);
    moved.default_mic = name("b");
    assert_eq!(follower.step(&moved), FollowerAction::Nothing);
    moved.now = 3000;
    assert_eq!(follower.step(&moved), FollowerAction::Rebuild);

    let mut gone = reading(0);
    gone.default_mic = None;
    gone.pending = true;
    assert_eq!(Follower::new(true, true).step(&gone), FollowerAction::WaitForMicrophone);
    gone.waiting = true;
    assert_eq!(Follower::new(true, true).step(&gone), FollowerAction::Nothing);
    let mut back = reading(0);
    back.waiting = true;
    back.mic_failed = true;
    assert_eq!(Follower::new(true, true).step(&back), FollowerAction::ResumeRecording);
    let mut failed = reading(0);
    failed.system_failed = true;
    assert_eq!(Follower::new(true, true).step(&failed), FollowerAction::Rebuild);
    failed.default_mic = None;
    failed.pending = true;
    assert_eq!(Follower::new(false, false).step(&failed), FollowerAction::Nothing);

    assert_eq!(after_rebuild(FollowerAction::WaitForMicrophone, true), FollowerNotice::Waiting);
    assert_eq!(after_rebuild(FollowerAction::WaitForMicrophone, false), FollowerNotice::Nothing);
    assert_eq!(
        after_rebuild(FollowerAction::ResumeRecording, false),
        FollowerNotice::DevicesChanged
    );
    assert_eq!(after_rebuild(FollowerAction::Rebuild, false), FollowerNotice::Nothing);
}

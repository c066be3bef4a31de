//! Recordings: what callers are told about the one that runs, and what they may ask of it.

use vstd::prelude::*;
#[allow(unused_imports)]
use vstd::string::StringExecFns;

use crate::text;
use crate::text::{concat2, decimal, same};

verus! {

/// Where a recording is to be saved.
#[derive(Clone, Debug)]
pub struct RecordingArgs {
    pub save_path: String,
}

/// How far transcription is.
#[derive(Clone, Copy, Debug, PartialEq, Eq, Structural)]
pub struct TranscriptionStatus {
    pub chunks_in_queue: usize,
    pub is_processing: bool,
    pub last_activity_ms: u64,
}

/// How far transcription is, as far as it is known: it goes on while a recording does.
pub fn get_transcription_status(is_recording: bool) -> (r: TranscriptionStatus)
    ensures
        r == (TranscriptionStatus {
            chunks_in_queue: 0,
            is_processing: is_recording,
            last_activity_ms: 0,
        }),
{
    TranscriptionStatus { chunks_in_queue: 0, is_processing: is_recording, last_activity_ms: 0 }
}

/// Something that callers are told, under a name.
#[derive(Debug)]
pub struct RecordingNotice {
    pub event: String,
    pub message: String,
}

/// Why a recording cannot be paused or resumed, or `None` where it can.
pub open spec fn pause_refusal(is_recording: bool, has_manager: bool) -> Option<Seq<char>> {
    if !is_recording {
        Some("No recording is currently active"@)
    } else if !has_manager {
        Some("No recording manager found"@)
    } else {
        None
    }
}

/// Whether the recording can be paused: gives what callers are told once it is.
pub fn pause_recording(is_recording: bool, has_manager: bool) -> (r: Result<
    RecordingNotice,
    String,
>)
    ensures
        match r {
            Ok(n) => pause_refusal(is_recording, has_manager) is None && n.event@
                == "recording-paused"@ && n.message@ == "Recording paused"@,
            Err(e) => pause_refusal(is_recording, has_manager) == Some(e@),
        },
        r is Ok <==> is_recording && has_manager,
        !is_recording ==> (r matches Err(e) && e@ == "No recording is currently active"@),
        is_recording && !has_manager ==> (r matches Err(e) && e@ == "No recording manager found"@),
{
    if !is_recording {
        return Err("No recording is currently active".to_owned());
    }
    if !has_manager {
        return Err("No recording manager found".to_owned());
    }
    Ok(
        RecordingNotice {
            event: "recording-paused".to_owned(),
            message: "Recording paused".to_owned(),
        },
    )
}

/// Whether the recording can be resumed: gives what callers are told once it is. The devices are
/// looked at then, as the defaults may have changed during the pause.
pub fn resume_recording(is_recording: bool, has_manager: bool) -> (r: Result<
    RecordingNotice,
    String,
>)
    ensures
        match r {
            Ok(n) => pause_refusal(is_recording, has_manager) is None && n.event@
                == "recording-resumed"@ && n.message@ == "Recording resumed"@,
            Err(e) => pause_refusal(is_recording, has_manager) == Some(e@),
        },
        r is Ok <==> is_recording && has_manager,
        !is_recording ==> (r matches Err(e) && e@ == "No recording is currently active"@),
        is_recording && !has_manager ==> (r matches Err(e) && e@ == "No recording manager found"@),
{
    if !is_recording {
        return Err("No recording is currently active".to_owned());
    }
    if !has_manager {
        return Err("No recording manager found".to_owned());
    }
    Ok(
        RecordingNotice {
            event: "recording-resumed".to_owned(),
            message: "Recording resumed".to_owned(),
        },
    )
}

/// A running recording, as far as callers can see and change it.
#[derive(Debug)]
pub struct RecordingSession {
    pub meeting_folder: Option<String>,
    pub meeting_name: Option<String>,
    pub is_paused: bool,
    pub is_active: bool,
    pub is_waiting_for_device: bool,
    pub is_mic_muted: bool,
    pub is_reconnecting: bool,
    pub disconnected_device: Option<DisconnectedDeviceInfo>,
}

/// Whether the recording is paused; no recording is not paused.
pub fn is_recording_paused(session: Option<&RecordingSession>) -> (r: bool)
    ensures
        r == (session matches Some(s) && s.is_paused),
{
    match session {
        Some(s) => s.is_paused,
        None => false,
    }
}

/// The state of the recording. Only a running one can wait for a device.
#[derive(Clone, Copy, Debug, PartialEq, Eq)]
pub struct RecordingStateReport {
    pub is_recording: bool,
    pub is_paused: bool,
    pub is_active: bool,
    pub is_waiting_for_device: Option<bool>,
}

/// The state of the recording.
pub fn get_recording_state(is_recording: bool, session: Option<&RecordingSession>) -> (r:
    RecordingStateReport)
    ensures
        r.is_recording == is_recording,
        match session {
            Some(s) => r.is_paused == s.is_paused && r.is_active == s.is_active
                && r.is_waiting_for_device == Some(s.is_waiting_for_device),
            None => !r.is_paused && !r.is_active && r.is_waiting_for_device is None,
        },
{
    match session {
        Some(s) => RecordingStateReport {
            is_recording,
            is_paused: s.is_paused,
            is_active: s.is_active,
            is_waiting_for_device: Some(s.is_waiting_for_device),
        },
        None => RecordingStateReport {
            is_recording,
            is_paused: false,
            is_active: false,
            is_waiting_for_device: None,
        },
    }
}

fn copied(s: &Option<String>) -> (r: Option<String>)
    ensures
        text::opt_text(r) == text::opt_text(*s),
{
    match s {
        Some(t) => Some(t.clone()),
        None => None,
    }
}

/// The folder of the recording, where it has one.
pub fn get_meeting_folder_path(session: Option<&RecordingSession>) -> (r: Option<String>)
    ensures
        text::opt_text(r) == (match session {
            Some(s) => text::opt_text(s.meeting_folder),
            None => None,
        }),
{
    match session {
        Some(s) => copied(&s.meeting_folder),
        None => None,
    }
}

/// The name of the recording, where it has one.
pub fn get_recording_meeting_name(session: Option<&RecordingSession>) -> (r: Option<String>)
    ensures
        text::opt_text(r) == (match session {
            Some(s) => text::opt_text(s.meeting_name),
            None => None,
        }),
{
    match session {
        Some(s) => copied(&s.meeting_name),
        None => None,
    }
}

/// A segment of the transcript that is settled.
#[derive(Debug)]
pub struct CommittedSegment {
    pub sequence_id: u64,
    pub text: String,
}

/// The number and text of each settled segment, in order. Without a recording there is none.
pub fn committed_segment_texts(segments: Option<&Vec<CommittedSegment>>) -> (r: Vec<(u64, String)>)
    ensures
        match segments {
            Some(list) => {
                &&& r@.len() == list@.len()
                &&& forall|i: int|
                    0 <= i < r@.len() ==> (#[trigger] r@[i]).0 == list@[i].sequence_id && r@[i].1@
                        == list@[i].text@
            },
            None => r@.len() == 0,
        },
{
    let mut out: Vec<(u64, String)> = Vec::new();
    match segments {
        Some(list) => {
            let mut i: usize = 0;
            while i < list.len()
                invariant
                    0 <= i <= list@.len(),
                    out@.len() == i,
                    forall|k: int|
                        0 <= k < i ==> (#[trigger] out@[k]).0 == list@[k].sequence_id && out@[k].1@
                            == list@[k].text@,
                decreases list@.len() - i,
            {
                out.push((list[i].sequence_id, list[i].text.clone()));
                i += 1;
            }
        },
        None => {},
    }
    out
}

/// The identifier of a segment in the saved transcript.
pub fn segment_id(sequence_id: u64) -> (r: String)
    ensures
        r@ == "seg_"@ + text::numeral(sequence_id as nat),
{
    concat2("seg_", decimal(sequence_id).as_str())
}

/// Mutes the microphone or not; gives whether it is muted now. Without a recording this is an
/// error.
pub fn set_mic_mute(session: &mut Option<RecordingSession>, enabled: bool) -> (r: Result<
    bool,
    String,
>)
    ensures
        match *old(session) {
            Some(s) => r == Ok::<bool, String>(enabled) && *final(session) == Some(
                (RecordingSession { is_mic_muted: enabled, ..s }),
            ),
            None => (r matches Err(e) && e@ == "No active recording"@) && *final(session) is None,
        },
{
    match session {
        Some(s) => {
            s.is_mic_muted = enabled;
            Ok(enabled)
        },
        None => Err("No active recording".to_owned()),
    }
}

/// Whether the microphone is muted. Without a recording this is an error.
pub fn get_mic_mute(session: Option<&RecordingSession>) -> (r: Result<bool, String>)
    ensures
        match session {
            Some(s) => r == Ok::<bool, String>(s.is_mic_muted),
            None => r matches Err(e) && e@ == "No active recording"@,
        },
{
    match session {
        Some(s) => Ok(s.is_mic_muted),
        None => Err("No active recording".to_owned()),
    }
}

/// Mutes the microphone where it was not muted, and the other way round; gives whether it is
/// muted now. Without a recording this is an error.
pub fn toggle_mic_mute(session: &mut Option<RecordingSession>) -> (r: Result<bool, String>)
    ensures
        match *old(session) {
            Some(s) => r == Ok::<bool, String>(!s.is_mic_muted) && *final(session) == Some(
                (RecordingSession { is_mic_muted: !s.is_mic_muted, ..s }),
            ),
            None => (r matches Err(e) && e@ == "No active recording"@) && *final(session) is None,
        },
{
    match session {
        Some(s) => {
            let muted: bool = !s.is_mic_muted;
            s.is_mic_muted = muted;
            Ok(muted)
        },
        None => Err("No active recording".to_owned()),
    }
}

/// The kind of an audio device.
#[derive(Clone, Copy, Debug, PartialEq, Eq, Structural)]
pub enum DeviceMonitorType {
    Microphone,
    SystemAudio,
}

/// The name of a kind of audio device.
pub open spec fn kind_text(kind: DeviceMonitorType) -> Seq<char> {
    match kind {
        DeviceMonitorType::Microphone => "Microphone"@,
        DeviceMonitorType::SystemAudio => "SystemAudio"@,
    }
}

/// The name of a kind of audio device.
pub fn device_type_name(kind: DeviceMonitorType) -> (r: String)
    ensures
        r@ == kind_text(kind),
        kind == DeviceMonitorType::Microphone ==> r@ == "Microphone"@,
        kind == DeviceMonitorType::SystemAudio ==> r@ == "SystemAudio"@,
{
    match kind {
        DeviceMonitorType::Microphone => "Microphone".to_owned(),
        DeviceMonitorType::SystemAudio => "SystemAudio".to_owned(),
    }
}

/// The kind of audio device that a name stands for.
pub fn parse_device_type(name: &str) -> (r: Option<DeviceMonitorType>)
    ensures
        r matches Some(kind) ==> name@ == kind_text(kind),
        r is None ==> forall|kind: DeviceMonitorType| name@ != #[trigger] kind_text(kind),
{
    if same(name, "Microphone") {
        Some(DeviceMonitorType::Microphone)
    } else if same(name, "SystemAudio") {
        Some(DeviceMonitorType::SystemAudio)
    } else {
        None
    }
}

/// Something that happened to the audio devices.
#[derive(Debug)]
pub enum DeviceEvent {
    DeviceDisconnected { device_name: String, device_type: DeviceMonitorType },
    DeviceReconnected { device_name: String, device_type: DeviceMonitorType },
    DeviceListChanged,
}

/// Something that happened to the audio devices, as callers are told it.
#[derive(Clone, Debug)]
pub enum DeviceEventResponse {
    DeviceDisconnected { device_name: String, device_type: String },
    DeviceReconnected { device_name: String, device_type: String },
    DeviceListChanged,
}

/// Whether callers are told what happened.
pub open spec fn tells(response: DeviceEventResponse, event: DeviceEvent) -> bool {
    match (event, response) {
        (
            DeviceEvent::DeviceDisconnected { device_name: n, device_type: t },
            DeviceEventResponse::DeviceDisconnected { device_name, device_type },
        ) => device_name@ == n@ && device_type@ == kind_text(t),
        (
            DeviceEvent::DeviceReconnected { device_name: n, device_type: t },
            DeviceEventResponse::DeviceReconnected { device_name, device_type },
        ) => device_name@ == n@ && device_type@ == kind_text(t),
        (DeviceEvent::DeviceListChanged, DeviceEventResponse::DeviceListChanged) => true,
        _ => false,
    }
}

/// What callers are told of something that happened to the audio devices.
pub fn device_response(event: DeviceEvent) -> (r: DeviceEventResponse)
    ensures
        tells(r, event),
{
    match event {
        DeviceEvent::DeviceDisconnected { device_name, device_type } => {
            DeviceEventResponse::DeviceDisconnected {
                device_name,
                device_type: device_type_name(device_type),
            }
        },
        DeviceEvent::DeviceReconnected { device_name, device_type } => {
            DeviceEventResponse::DeviceReconnected {
                device_name,
                device_type: device_type_name(device_type),
            }
        },
        DeviceEvent::DeviceListChanged => DeviceEventResponse::DeviceListChanged,
    }
}

/// What callers are told where something happened to the audio devices; without a recording
/// nothing does.
pub fn poll_audio_device_events(event: Option<DeviceEvent>) -> (r: Option<DeviceEventResponse>)
    ensures
        match event {
            Some(e) => r matches Some(told) && tells(told, e),
            None => r is None,
        },
{
    match event {
        Some(e) => Some(device_response(e)),
        None => None,
    }
}

/// Whether a device is being reconnected, and which was lost.
#[derive(Clone, Debug)]
pub struct ReconnectionStatus {
    pub is_reconnecting: bool,
    pub disconnected_device: Option<DisconnectedDeviceInfo>,
}

/// A device that was lost.
#[derive(Clone, Debug)]
pub struct DisconnectedDeviceInfo {
    pub name: String,
    pub device_type: String,
}

/// The view of a device that was lost.
pub open spec fn lost_device(d: Option<DisconnectedDeviceInfo>) -> Option<(Seq<char>, Seq<char>)> {
    match d {
        Some(i) => Some((i.name@, i.device_type@)),
        None => None,
    }
}

/// Whether a device is being reconnected, and which was lost; without a recording none is.
pub fn get_reconnection_status(session: Option<&RecordingSession>) -> (r: ReconnectionStatus)
    ensures
        match session {
            Some(s) => r.is_reconnecting == s.is_reconnecting && lost_device(r.disconnected_device)
                == lost_device(s.disconnected_device),
            None => !r.is_reconnecting && r.disconnected_device is None,
        },
        session matches Some(s) ==> match s.disconnected_device {
            Some(lost) => r.disconnected_device matches Some(d) && d.name@ == lost.name@
                && d.device_type@ == lost.device_type@,
            None => r.disconnected_device is None,
        },
{
    match session {
        Some(s) => {
            let lost: Option<DisconnectedDeviceInfo> = match &s.disconnected_device {
                Some(d) => Some(
                    DisconnectedDeviceInfo {
                        name: d.name.clone(),
                        device_type: d.device_type.clone(),
                    },
                ),
                None => None,
            };
            ReconnectionStatus { is_reconnecting: s.is_reconnecting, disconnected_device: lost }
        },
        None => ReconnectionStatus { is_reconnecting: false, disconnected_device: None },
    }
}

/// The kind of device to reconnect. An unknown kind is an error, and so is having no recording.
pub fn attempt_device_reconnect(device_type: &str, has_session: bool) -> (r: Result<
    DeviceMonitorType,
    String,
>)
    ensures
        match r {
            Ok(kind) => has_session && device_type@ == kind_text(kind),
            Err(e) => if exists|kind: DeviceMonitorType| device_type@ == #[trigger] kind_text(kind) {
                !has_session && e@ == "Recording not active"@
            } else {
                e@ == "Invalid device type: "@ + device_type@
            },
        },
{
    match parse_device_type(device_type) {
        None => Err(concat2("Invalid device type: ", device_type)),
        Some(kind) => {
            if !has_session {
                return Err("Recording not active".to_owned());
            }
            Ok(kind)
        },
    }
}

/// The names that level meters are shown for.
pub fn monitored_names(mic: Option<&str>, system: Option<&str>) -> (r: Vec<String>)
    ensures
        text::texts(r@) == name_list(mic, system),
{
    let mut names: Vec<String> = Vec::new();
    match mic {
        Some(n) => {
            names.push(n.to_owned());
        },
        None => {},
    }
    match system {
        Some(n) => {
            names.push(n.to_owned());
        },
        None => {},
    }
    assert(text::texts(names@) =~= name_list(mic, system));
    names
}

/// The names among two that may be missing.
pub open spec fn name_list(mic: Option<&str>, system: Option<&str>) -> Seq<Seq<char>> {
    (match mic {
        Some(n) => seq![n@],
        None => Seq::empty(),
    }) + (match system {
        Some(n) => seq![n@],
        None => Seq::empty(),
    })
}

/// Callers are told what happened to the audio devices, and of which device: what is lost is told
/// as lost and what is back as back, with its name and kind.
pub proof fn device_events_are_told_as_they_are(response: DeviceEventResponse, event: DeviceEvent)
    requires
        tells(response, event),
    ensures
        ({
            let shown = |kind: DeviceMonitorType|
                if kind == DeviceMonitorType::Microphone {
                    "Microphone"@
                } else {
                    "SystemAudio"@
                };
            match event {
                DeviceEvent::DeviceDisconnected {
                    device_name: n,
                    device_type: t,
                } => response matches DeviceEventResponse::DeviceDisconnected {
                    device_name,
                    device_type,
                } && device_name@ == n@ && device_type@ == shown(t),
                DeviceEvent::DeviceReconnected {
                    device_name: n,
                    device_type: t,
                } => response matches DeviceEventResponse::DeviceReconnected {
                    device_name,
                    device_type,
                } && device_name@ == n@ && device_type@ == shown(t),
                DeviceEvent::DeviceListChanged => response is DeviceListChanged,
            }
        }),
{
}

/// Level meters are shown for the devices that there are, the microphone first.
pub proof fn meters_are_shown_for_both_devices(mic: &str, system: &str)
    ensures
        name_list(None, None).len() == 0,
        name_list(Some(mic), None) == seq![mic@],
        name_list(None, Some(system)) == seq![system@],
        name_list(Some(mic), Some(system)) == seq![mic@, system@],
{
    assert(name_list(Some(mic), None) =~= seq![mic@]);
    assert(name_list(None, Some(system)) =~= seq![system@]);
    assert(name_list(Some(mic), Some(system)) =~= seq![mic@, system@]);
}

/// A recording can be paused and resumed exactly while it runs and is managed; otherwise callers
/// are told which of the two is missing.
pub proof fn only_running_recordings_are_paused(is_recording: bool, has_manager: bool)
    ensures
        pause_refusal(is_recording, has_manager) is None <==> is_recording && has_manager,
        !is_recording ==> pause_refusal(is_recording, has_manager) == Some(
            "No recording is currently active"@,
        ),
        is_recording && !has_manager ==> pause_refusal(is_recording, has_manager) == Some(
            "No recording manager found"@,
        ),
{
}

} // verus!

//! Starting a recording, step by step: the caller does what is asked and reports what came of it.

use vstd::prelude::*;
#[allow(unused_imports)]
use vstd::string::StringExecFns;

use crate::clock;
use crate::clock::local_stamp;
use crate::recording;
use crate::text;
use crate::text::{concat2, concat3, starts_with};

verus! {

/// How a recording is to be made, by what the user has set.
#[derive(Debug)]
pub struct RecordingPreferences {
    pub auto_save: bool,
    pub preferred_mic: Option<String>,
    pub preferred_system: Option<String>,
    pub save_folder: String,
}

/// The user's settings as a mathematical value.
pub struct PreferencesView {
    pub auto_save: bool,
    pub preferred_mic: Option<Seq<char>>,
    pub preferred_system: Option<Seq<char>>,
    pub save_folder: Seq<char>,
}

impl View for RecordingPreferences {
    type V = PreferencesView;

    open spec fn view(&self) -> PreferencesView {
        PreferencesView {
            auto_save: self.auto_save,
            preferred_mic: text::opt_text(self.preferred_mic),
            preferred_system: text::opt_text(self.preferred_system),
            save_folder: self.save_folder@,
        }
    }
}

/// How a recording is made where the settings cannot be read: it is saved as it goes, with
/// the default devices, into the default folder.
pub fn default_preferences(default_folder: &str) -> (r: RecordingPreferences)
    ensures
        r@ == (PreferencesView {
            auto_save: true,
            preferred_mic: None,
            preferred_system: None,
            save_folder: default_folder@,
        }),
{
    RecordingPreferences {
        auto_save: true,
        preferred_mic: None,
        preferred_system: None,
        save_folder: default_folder.to_owned(),
    }
}

/// The device to use: the preferred one where it is there, else the default one where there is
/// one. `preferred` is what came of looking for the preferred device, where there is a preference.
pub fn resolve_device<D>(preferred: Option<Result<D, String>>, fallback: Option<D>) -> (r: Option<D>)
    ensures
        r == resolved(preferred, fallback),
{
    match preferred {
        Some(Ok(device)) => Some(device),
        _ => fallback,
    }
}

/// The device to use.
pub open spec fn resolved<D>(preferred: Option<Result<D, String>>, fallback: Option<D>) -> Option<
    D,
> {
    match preferred {
        Some(Ok(device)) => Some(device),
        _ => fallback,
    }
}

/// The name of a meeting: the one given, or one made of a time stamp.
pub open spec fn meeting_name_of(given: Option<Seq<char>>, stamp: Seq<char>) -> Seq<char> {
    match given {
        Some(name) => name,
        None => "Meeting "@ + stamp,
    }
}

/// The name of a meeting: the one given, or one made of a time stamp.
pub fn meeting_name_or(given: Option<&str>, stamp: &str) -> (r: String)
    ensures
        r@ == meeting_name_of(text::opt_str(given), stamp@),
{
    match given {
        Some(name) => name.to_owned(),
        None => concat2("Meeting ", stamp),
    }
}

/// The name of a meeting: the one given, or one made of the present time, such as
/// `Meeting 2025-10-03_08-25-23`.
pub fn effective_meeting_name(given: Option<&str>) -> (r: String)
    ensures
        given matches Some(name) ==> r@ == name@,
        given is None ==> exists|stamp: Seq<char>| #[trigger]
            clock::is_local_stamp(stamp) && r@ == "Meeting "@ + stamp,
{
    let stamp: String = local_stamp();
    assert(clock::is_local_stamp(stamp@));
    meeting_name_or(given, stamp.as_str())
}

/// Whether audio goes to the speech recognizer as it comes, without looking for pauses first:
/// where a streaming model is chosen.
pub fn bypasses_vad(model: Option<&str>) -> (r: bool)
    ensures
        r == is_streaming_model(text::opt_str(model)),
{
    match model {
        Some(m) => starts_with(m, "x-asr-"),
        None => false,
    }
}

/// Whether a model recognizes speech as it comes.
pub open spec fn is_streaming_model(model: Option<Seq<char>>) -> bool {
    match model {
        Some(m) => "x-asr-"@.is_prefix_of(m),
        None => false,
    }
}

/// Which devices are asked for.
#[derive(Debug)]
pub enum StartKind {
    /// The preferred ones, or the system's defaults.
    Defaults,
    /// Those with these names; where a name is missing, the system's default.
    Named { mic: Option<String>, system: Option<String> },
}

/// Which devices are asked for, as a mathematical value.
pub enum StartKindView {
    Defaults,
    Named { mic: Option<Seq<char>>, system: Option<Seq<char>> },
}

impl View for StartKind {
    type V = StartKindView;

    open spec fn view(&self) -> StartKindView {
        match *self {
            StartKind::Defaults => StartKindView::Defaults,
            StartKind::Named { mic, system } => StartKindView::Named {
                mic: text::opt_text(mic),
                system: text::opt_text(system),
            },
        }
    }
}

/// Which devices a caller asks for: where no name is given, the defaults.
pub fn start_kind(mic: Option<String>, system: Option<String>) -> (r: StartKind)
    ensures
        r@ == (if mic is None && system is None {
            StartKindView::Defaults
        } else {
            StartKindView::Named { mic: text::opt_text(mic), system: text::opt_text(system) }
        }),
{
    if mic.is_none() && system.is_none() {
        StartKind::Defaults
    } else {
        StartKind::Named { mic, system }
    }
}

/// How the streams are to be started.
#[derive(Debug)]
pub struct StartPlan {
    pub mic: Option<String>,
    pub system: Option<String>,
    pub auto_save: bool,
    pub save_folder: String,
    pub follow_mic: bool,
    pub follow_system: bool,
    pub meeting_name: String,
    pub bypass_vad: bool,
}

/// How the streams are to be started, as a mathematical value.
pub struct PlanView {
    pub mic: Option<Seq<char>>,
    pub system: Option<Seq<char>>,
    pub auto_save: bool,
    pub save_folder: Seq<char>,
    pub follow_mic: bool,
    pub follow_system: bool,
    pub meeting_name: Seq<char>,
    pub bypass_vad: bool,
}

impl View for StartPlan {
    type V = PlanView;

    open spec fn view(&self) -> PlanView {
        PlanView {
            mic: text::opt_text(self.mic),
            system: text::opt_text(self.system),
            auto_save: self.auto_save,
            save_folder: self.save_folder@,
            follow_mic: self.follow_mic,
            follow_system: self.follow_system,
            meeting_name: self.meeting_name@,
            bypass_vad: self.bypass_vad,
        }
    }
}

/// What callers are told once a recording runs, and what is still to be started.
#[derive(Debug)]
pub struct StartedReport {
    pub message: String,
    pub devices: Vec<String>,
    pub workers: u32,
    /// Whether the system's default devices are to be followed.
    pub spawn_follower: bool,
    /// The devices that level meters are shown for.
    pub monitored: Vec<String>,
}

/// What callers are told once a recording runs, as a mathematical value.
pub struct ReportView {
    pub message: Seq<char>,
    pub devices: Seq<Seq<char>>,
    pub workers: u32,
    pub spawn_follower: bool,
    pub monitored: Seq<Seq<char>>,
}

impl View for StartedReport {
    type V = ReportView;

    open spec fn view(&self) -> ReportView {
        ReportView {
            message: self.message@,
            devices: text::texts(self.devices@),
            workers: self.workers,
            spawn_follower: self.spawn_follower,
            monitored: text::texts(self.monitored@),
        }
    }
}

/// What happens in the course of a start.
#[derive(Debug)]
pub enum StartEvent {
    /// Whether a recording runs already.
    Checked { is_recording: bool },
    /// What came of checking that the speech model is ready.
    Validated(Result<(), String>),
    /// What came of looking for the named microphone.
    MicFound(Result<(), String>),
    /// What came of looking for the named system device.
    SystemFound(Result<(), String>),
    /// The user's settings.
    Preferences(RecordingPreferences),
    /// The devices that were found for the user's settings.
    Devices { mic: Option<String>, system: Option<String> },
    /// The speech model that is chosen, and the name of the meeting.
    Configured { model: Option<String>, meeting_name: String },
    /// What came of starting the streams.
    Started(Result<(), String>),
}

/// What happens in the course of a start, as a mathematical value.
pub enum StartEventView {
    Checked { is_recording: bool },
    Validated(Result<(), Seq<char>>),
    MicFound(Result<(), Seq<char>>),
    SystemFound(Result<(), Seq<char>>),
    Preferences(PreferencesView),
    Devices { mic: Option<Seq<char>>, system: Option<Seq<char>> },
    Configured { model: Option<Seq<char>>, meeting_name: Seq<char> },
    Started(Result<(), Seq<char>>),
}

impl View for StartEvent {
    type V = StartEventView;

    open spec fn view(&self) -> StartEventView {
        match *self {
            StartEvent::Checked { is_recording } => StartEventView::Checked { is_recording },
            StartEvent::Validated(r) => StartEventView::Validated(text::unit_result(r)),
            StartEvent::MicFound(r) => StartEventView::MicFound(text::unit_result(r)),
            StartEvent::SystemFound(r) => StartEventView::SystemFound(text::unit_result(r)),
            StartEvent::Preferences(p) => StartEventView::Preferences(p@),
            StartEvent::Devices { mic, system } => StartEventView::Devices {
                mic: text::opt_text(mic),
                system: text::opt_text(system),
            },
            StartEvent::Configured { model, meeting_name } => StartEventView::Configured {
                model: text::opt_text(model),
                meeting_name: meeting_name@,
            },
            StartEvent::Started(r) => StartEventView::Started(text::unit_result(r)),
        }
    }
}

/// What is to be done next.
#[derive(Debug)]
pub enum StartAction {
    /// Check that the speech model is ready.
    Validate,
    /// Look for the microphone with this name.
    FindMic(String),
    /// Look for the system device with this name.
    FindSystem(String),
    /// Read the user's settings.
    LoadPreferences,
    /// Find the devices for these preferences, falling back on the defaults.
    FindDevices { mic: Option<String>, system: Option<String> },
    /// Read which speech model is chosen.
    LoadConfig,
    /// Start the streams.
    StartStreams(StartPlan),
    /// The recording runs: set its flag, and tell callers.
    Finish(StartedReport),
    /// The recording cannot be started, for this reason; where the speech model is not ready,
    /// callers are told that besides.
    Fail { error: String, model_missing: bool },
    /// Nothing.
    Nothing,
}

/// What is to be done next, as a mathematical value.
pub enum StartActionView {
    Validate,
    FindMic(Seq<char>),
    FindSystem(Seq<char>),
    LoadPreferences,
    FindDevices { mic: Option<Seq<char>>, system: Option<Seq<char>> },
    LoadConfig,
    StartStreams(PlanView),
    Finish(ReportView),
    Fail { error: Seq<char>, model_missing: bool },
    Nothing,
}

impl View for StartAction {
    type V = StartActionView;

    open spec fn view(&self) -> StartActionView {
        match *self {
            StartAction::Validate => StartActionView::Validate,
            StartAction::FindMic(n) => StartActionView::FindMic(n@),
            StartAction::FindSystem(n) => StartActionView::FindSystem(n@),
            StartAction::LoadPreferences => StartActionView::LoadPreferences,
            StartAction::FindDevices { mic, system } => StartActionView::FindDevices {
                mic: text::opt_text(mic),
                system: text::opt_text(system),
            },
            StartAction::LoadConfig => StartActionView::LoadConfig,
            StartAction::StartStreams(plan) => StartActionView::StartStreams(plan@),
            StartAction::Finish(report) => StartActionView::Finish(report@),
            StartAction::Fail { error, model_missing } => StartActionView::Fail {
                error: error@,
                model_missing,
            },
            StartAction::Nothing => StartActionView::Nothing,
        }
    }
}

/// How far a start is.
#[derive(Clone, Copy, Debug, PartialEq, Eq, Structural)]
pub enum StartStage {
    Checking,
    Validating,
    FindingMic,
    FindingSystem,
    LoadingPreferences,
    FindingDevices,
    LoadingConfig,
    Starting,
    Running,
    Failed,
}

/// A recording that is being started.
#[derive(Debug)]
pub struct StartRun {
    pub kind: StartKind,
    pub stage: StartStage,
    pub mic: Option<String>,
    pub system: Option<String>,
    pub auto_save: bool,
    pub save_folder: String,
    pub follow_mic: bool,
    pub follow_system: bool,
}

/// A recording that is being started, as a mathematical value.
pub struct StartView {
    pub kind: StartKindView,
    pub stage: StartStage,
    pub mic: Option<Seq<char>>,
    pub system: Option<Seq<char>>,
    pub auto_save: bool,
    pub save_folder: Seq<char>,
    pub follow_mic: bool,
    pub follow_system: bool,
}

impl View for StartRun {
    type V = StartView;

    open spec fn view(&self) -> StartView {
        StartView {
            kind: self.kind@,
            stage: self.stage,
            mic: text::opt_text(self.mic),
            system: text::opt_text(self.system),
            auto_save: self.auto_save,
            save_folder: self.save_folder@,
            follow_mic: self.follow_mic,
            follow_system: self.follow_system,
        }
    }
}

/// The start at another stage.
pub open spec fn moved(run: StartView, stage: StartStage) -> StartView {
    StartView { stage, ..run }
}

/// The start given up.
pub open spec fn given_up(run: StartView, error: Seq<char>, model_missing: bool) -> (
    StartView,
    StartActionView,
) {
    (moved(run, StartStage::Failed), StartActionView::Fail { error, model_missing })
}

/// What comes once the microphone is settled: the named system device is looked for, where there
/// is one.
pub open spec fn after_mic(run: StartView) -> (StartView, StartActionView) {
    match run.system {
        Some(name) => (
            moved(run, StartStage::FindingSystem),
            StartActionView::FindSystem(name),
        ),
        None => (moved(run, StartStage::LoadingPreferences), StartActionView::LoadPreferences),
    }
}

/// What comes once the speech model is ready.
pub open spec fn after_validation(run: StartView) -> (StartView, StartActionView) {
    match run.kind {
        StartKindView::Defaults => (
            moved(run, StartStage::LoadingPreferences),
            StartActionView::LoadPreferences,
        ),
        StartKindView::Named { .. } => match run.mic {
            Some(name) => (moved(run, StartStage::FindingMic), StartActionView::FindMic(name)),
            None => after_mic(run),
        },
    }
}

/// What comes once the user's settings are known. A device that the user prefers is not
/// exchanged for another one later.
pub open spec fn after_preferences(run: StartView, p: PreferencesView) -> (
    StartView,
    StartActionView,
) {
    let kept = StartView { auto_save: p.auto_save, save_folder: p.save_folder, ..run };
    match run.kind {
        StartKindView::Defaults => (
            StartView {
                stage: StartStage::FindingDevices,
                follow_mic: p.preferred_mic is None,
                follow_system: p.preferred_system is None,
                ..kept
            },
            StartActionView::FindDevices { mic: p.preferred_mic, system: p.preferred_system },
        ),
        StartKindView::Named { .. } => (
            moved(kept, StartStage::LoadingConfig),
            StartActionView::LoadConfig,
        ),
    }
}

/// How the streams are to be started.
pub open spec fn plan_for(run: StartView, model: Option<Seq<char>>, meeting_name: Seq<char>) -> PlanView {
    PlanView {
        mic: run.mic,
        system: run.system,
        auto_save: run.auto_save,
        save_folder: run.save_folder,
        follow_mic: run.follow_mic,
        follow_system: run.follow_system,
        meeting_name,
        bypass_vad: is_streaming_model(model),
    }
}

/// The name to show for a device.
pub open spec fn shown_name(name: Option<Seq<char>>, default_name: Seq<char>) -> Seq<char> {
    match name {
        Some(n) => n,
        None => default_name,
    }
}

/// The names among two that may be missing.
pub open spec fn both_names(mic: Option<Seq<char>>, system: Option<Seq<char>>) -> Seq<Seq<char>> {
    (match mic {
        Some(n) => seq![n],
        None => Seq::empty(),
    }) + (match system {
        Some(n) => seq![n],
        None => Seq::empty(),
    })
}

/// What callers are told once a recording runs.
pub open spec fn report_for(run: StartView) -> ReportView {
    ReportView {
        message: match run.kind {
            StartKindView::Defaults => "Recording started successfully with parallel processing"@,
            StartKindView::Named { .. } => {
                "Recording started with custom devices and parallel processing"@
            },
        },
        devices: match run.kind {
            StartKindView::Defaults => seq!["Default Microphone"@, "Default System Audio"@],
            StartKindView::Named { mic, system } => seq![
                shown_name(mic, "Default Microphone"@),
                shown_name(system, "Default System Audio"@),
            ],
        },
        workers: 3,
        spawn_follower: run.follow_mic || run.follow_system,
        monitored: both_names(run.mic, run.system),
    }
}

/// The start after an event, and what is to be done next.
pub open spec fn start_step(run: StartView, event: StartEventView) -> (
    StartView,
    StartActionView,
) {
    match (run.stage, event) {
        (StartStage::Checking, StartEventView::Checked { is_recording }) => if is_recording {
            given_up(run, "Recording already in progress"@, false)
        } else {
            (moved(run, StartStage::Validating), StartActionView::Validate)
        },
        (StartStage::Validating, StartEventView::Validated(r)) => match r {
            Err(e) => given_up(run, e, true),
            Ok(_) => after_validation(run),
        },
        (StartStage::FindingMic, StartEventView::MicFound(r)) => match r {
            Err(e) => given_up(
                run,
                "Invalid microphone device '"@ + shown_name(run.mic, Seq::empty()) + ("': "@ + e),
                false,
            ),
            Ok(_) => after_mic(run),
        },
        (StartStage::FindingSystem, StartEventView::SystemFound(r)) => match r {
            Err(e) => given_up(
                run,
                "Invalid system device '"@ + shown_name(run.system, Seq::empty()) + ("': "@ + e),
                false,
            ),
            Ok(_) => (moved(run, StartStage::LoadingPreferences), StartActionView::LoadPreferences),
        },
        (StartStage::LoadingPreferences, StartEventView::Preferences(p)) => after_preferences(
            run,
            p,
        ),
        (StartStage::FindingDevices, StartEventView::Devices { mic, system }) => if mic is None
            && system is None {
            given_up(
                run,
                "No audio devices available: neither a microphone nor a system audio device was found"@,
                false,
            )
        } else {
            (
                StartView { stage: StartStage::LoadingConfig, mic, system, ..run },
                StartActionView::LoadConfig,
            )
        },
        (StartStage::LoadingConfig, StartEventView::Configured { model, meeting_name }) => (
            moved(run, StartStage::Starting),
            StartActionView::StartStreams(plan_for(run, model, meeting_name)),
        ),
        (StartStage::Starting, StartEventView::Started(r)) => match r {
            Err(e) => given_up(run, "Failed to start recording: "@ + e, false),
            Ok(_) => (moved(run, StartStage::Running), StartActionView::Finish(report_for(run))),
        },
        _ => (run, StartActionView::Nothing),
    }
}

/// What is known of the devices at the start.
pub open spec fn fresh_start(kind: StartKindView) -> StartView {
    StartView {
        kind,
        stage: StartStage::Checking,
        mic: match kind {
            StartKindView::Named { mic, .. } => mic,
            StartKindView::Defaults => None,
        },
        system: match kind {
            StartKindView::Named { system, .. } => system,
            StartKindView::Defaults => None,
        },
        auto_save: true,
        save_folder: Seq::empty(),
        follow_mic: match kind {
            StartKindView::Named { mic, .. } => mic is None,
            StartKindView::Defaults => true,
        },
        follow_system: match kind {
            StartKindView::Named { system, .. } => system is None,
            StartKindView::Defaults => true,
        },
    }
}

fn copied(s: &Option<String>) -> (r: Option<String>)
    ensures
        text::opt_text(r) == text::opt_text(*s),
{
    match s {
        Some(t) => Some(t.clone()),
        None => None,
    }
}

fn name_or(name: &Option<String>, default_name: &str) -> (r: String)
    ensures
        r@ == shown_name(text::opt_text(*name), default_name@),
{
    match name {
        Some(n) => n.clone(),
        None => default_name.to_owned(),
    }
}

fn pair(a: String, b: String) -> (r: Vec<String>)
    ensures
        text::texts(r@) == seq![a@, b@],
{
    let mut out: Vec<String> = Vec::new();
    let ghost shown = seq![a@, b@];
    out.push(a);
    out.push(b);
    assert(text::texts(out@) =~= shown);
    out
}

impl StartRun {
    /// A start of which nothing has been done yet; the first thing is to check whether a
    /// recording runs already.
    pub fn new(kind: StartKind) -> (r: Self)
        ensures
            r@ == fresh_start(kind@),
    {
        let (mic, system) = match &kind {
            StartKind::Defaults => (None, None),
            StartKind::Named { mic, system } => (copied(mic), copied(system)),
        };
        let follow_mic: bool = mic.is_none();
        let follow_system: bool = system.is_none();
        let save_folder: String = String::new();
        assert(save_folder@ =~= Seq::empty());
        StartRun {
            kind,
            stage: StartStage::Checking,
            mic,
            system,
            auto_save: true,
            save_folder,
            follow_mic,
            follow_system,
        }
    }

    fn give_up(&mut self, error: String, model_missing: bool) -> (r: StartAction)
        ensures
            (final(self)@, r@) == given_up(old(self)@, error@, model_missing),
    {
        self.stage = StartStage::Failed;
        StartAction::Fail { error, model_missing }
    }

    fn settle_mic(&mut self) -> (r: StartAction)
        ensures
            (final(self)@, r@) == after_mic(old(self)@),
    {
        match copied(&self.system) {
            Some(name) => {
                self.stage = StartStage::FindingSystem;
                StartAction::FindSystem(name)
            },
            None => {
                self.stage = StartStage::LoadingPreferences;
                StartAction::LoadPreferences
            },
        }
    }

    fn settle_validation(&mut self) -> (r: StartAction)
        ensures
            (final(self)@, r@) == after_validation(old(self)@),
    {
        let named: bool = match &self.kind {
            StartKind::Defaults => false,
            StartKind::Named { .. } => true,
        };
        if !named {
            self.stage = StartStage::LoadingPreferences;
            return StartAction::LoadPreferences;
        }
        match copied(&self.mic) {
            Some(name) => {
                self.stage = StartStage::FindingMic;
                StartAction::FindMic(name)
            },
            None => self.settle_mic(),
        }
    }

    fn settle_preferences(&mut self, p: RecordingPreferences) -> (r: StartAction)
        ensures
            (final(self)@, r@) == after_preferences(old(self)@, p@),
    {
        self.auto_save = p.auto_save;
        self.save_folder = p.save_folder;
        let named: bool = match &self.kind {
            StartKind::Defaults => false,
            StartKind::Named { .. } => true,
        };
        if named {
            self.stage = StartStage::LoadingConfig;
            return StartAction::LoadConfig;
        }
        self.follow_mic = p.preferred_mic.is_none();
        self.follow_system = p.preferred_system.is_none();
        self.stage = StartStage::FindingDevices;
        StartAction::FindDevices { mic: p.preferred_mic, system: p.preferred_system }
    }

    fn plan(&self, model: &Option<String>, meeting_name: String) -> (r: StartPlan)
        ensures
            r@ == plan_for(self@, text::opt_text(*model), meeting_name@),
    {
        let streaming: bool = match model {
            Some(m) => bypasses_vad(Some(m.as_str())),
            None => false,
        };
        StartPlan {
            mic: copied(&self.mic),
            system: copied(&self.system),
            auto_save: self.auto_save,
            save_folder: self.save_folder.clone(),
            follow_mic: self.follow_mic,
            follow_system: self.follow_system,
            meeting_name,
            bypass_vad: streaming,
        }
    }

    fn report(&self) -> (r: StartedReport)
        ensures
            r@ == report_for(self@),
    {
        let (message, devices): (String, Vec<String>) = match &self.kind {
            StartKind::Defaults => (
                "Recording started successfully with parallel processing".to_owned(),
                pair("Default Microphone".to_owned(), "Default System Audio".to_owned()),
            ),
            StartKind::Named { mic, system } => (
                "Recording started with custom devices and parallel processing".to_owned(),
                pair(name_or(mic, "Default Microphone"), name_or(system, "Default System Audio")),
            ),
        };
        let mic: Option<&str> = match &self.mic {
            Some(n) => Some(n.as_str()),
            None => None,
        };
        let system: Option<&str> = match &self.system {
            Some(n) => Some(n.as_str()),
            None => None,
        };
        let monitored: Vec<String> = recording::monitored_names(mic, system);
        assert(text::texts(monitored@) =~= both_names(self@.mic, self@.system));
        StartedReport {
            message,
            devices,
            workers: 3,
            spawn_follower: self.follow_mic || self.follow_system,
            monitored,
        }
    }

    /// Takes in what happened and says what is to be done next. An event that does not belong
    /// where the start is changes nothing.
    pub fn advance(&mut self, event: StartEvent) -> (r: StartAction)
        ensures
            (final(self)@, r@) == start_step(old(self)@, event@),
    {
        match (self.stage, event) {
            (StartStage::Checking, StartEvent::Checked { is_recording }) => {
                if is_recording {
                    self.give_up("Recording already in progress".to_owned(), false)
                } else {
                    self.stage = StartStage::Validating;
                    StartAction::Validate
                }
            },
            (StartStage::Validating, StartEvent::Validated(r)) => match r {
                Err(e) => self.give_up(e, true),
                Ok(_) => self.settle_validation(),
            },
            (StartStage::FindingMic, StartEvent::MicFound(r)) => match r {
                Err(e) => {
                    let name: String = name_or(&self.mic, "");
                    assert(""@ =~= Seq::<char>::empty()) by {
                        reveal_strlit("");
                    }
                    let error: String = concat3(
                        "Invalid microphone device '",
                        name.as_str(),
                        concat2("': ", e.as_str()).as_str(),
                    );
                    self.give_up(error, false)
                },
                Ok(_) => self.settle_mic(),
            },
            (StartStage::FindingSystem, StartEvent::SystemFound(r)) => match r {
                Err(e) => {
                    let name: String = name_or(&self.system, "");
                    assert(""@ =~= Seq::<char>::empty()) by {
                        reveal_strlit("");
                    }
                    let error: String = concat3(
                        "Invalid system device '",
                        name.as_str(),
                        concat2("': ", e.as_str()).as_str(),
                    );
                    self.give_up(error, false)
                },
                Ok(_) => {
                    self.stage = StartStage::LoadingPreferences;
                    StartAction::LoadPreferences
                },
            },
            (StartStage::LoadingPreferences, StartEvent::Preferences(p)) => {
                self.settle_preferences(p)
            },
            (StartStage::FindingDevices, StartEvent::Devices { mic, system }) => {
                if mic.is_none() && system.is_none() {
                    self.give_up(
                        "No audio devices available: neither a microphone nor a system audio device was found".to_owned(),
                        false,
                    )
                } else {
                    self.mic = mic;
                    self.system = system;
                    self.stage = StartStage::LoadingConfig;
                    StartAction::LoadConfig
                }
            },
            (StartStage::LoadingConfig, StartEvent::Configured { model, meeting_name }) => {
                let plan: StartPlan = self.plan(&model, meeting_name);
                self.stage = StartStage::Starting;
                StartAction::StartStreams(plan)
            },
            (StartStage::Starting, StartEvent::Started(r)) => match r {
                Err(e) => self.give_up(concat2("Failed to start recording: ", e.as_str()), false),
                Ok(_) => {
                    let report: StartedReport = self.report();
                    self.stage = StartStage::Running;
                    StartAction::Finish(report)
                },
            },
            _ => StartAction::Nothing,
        }
    }
}

/// What callers are told where the speech model is not ready.
pub fn model_missing_message() -> (r: String)
    ensures
        r@
            == "Recording cannot start: Transcription model is still downloading. Please wait for the download to complete."@,
{
    "Recording cannot start: Transcription model is still downloading. Please wait for the download to complete.".to_owned()
}

/// A start after a course of events.
pub open spec fn start_course(run: StartView, events: Seq<StartEventView>) -> StartView
    decreases events.len(),
{
    if events.len() == 0 {
        run
    } else {
        start_step(start_course(run, events.drop_last()), events.last()).0
    }
}

/// Whether a check among events found no recording running.
pub open spec fn was_free(events: Seq<StartEventView>) -> bool {
    exists|i: int|
        0 <= i < events.len() && #[trigger] events[i] == (StartEventView::Checked {
            is_recording: false,
        })
}

/// Whether a check among events found the speech model ready.
pub open spec fn was_ready(events: Seq<StartEventView>) -> bool {
    exists|i: int|
        0 <= i < events.len() && is_ready_event(#[trigger] events[i])
}

/// Whether an event says that the speech model is ready.
pub open spec fn is_ready_event(event: StartEventView) -> bool {
    match event {
        StartEventView::Validated(r) => r is Ok,
        _ => false,
    }
}

/// How far a start is, as a number.
pub open spec fn stage_rank(stage: StartStage) -> int {
    match stage {
        StartStage::Checking => 0,
        StartStage::Validating => 1,
        StartStage::Failed => 9,
        _ => 2,
    }
}

/// No recording is started while another runs, nor before the speech model is ready: a start gets
/// past these checks only where they were made and passed.
pub proof fn checks_come_first(kind: StartKindView, events: Seq<StartEventView>)
    ensures
        ({
            let run = start_course(fresh_start(kind), events);
            &&& run.kind == kind
            &&& stage_rank(run.stage) == 1 ==> was_free(events)
            &&& stage_rank(run.stage) == 2 ==> was_free(events) && was_ready(events)
        }),
    decreases events.len(),
{
    if events.len() > 0 {
        let shorter = events.drop_last();
        checks_come_first(kind, shorter);
        let last: int = events.len() - 1;
        if was_free(shorter) {
            let i = choose|i: int|
                0 <= i < shorter.len() && #[trigger] shorter[i] == (StartEventView::Checked {
                    is_recording: false,
                });
            assert(events[i] == shorter[i]);
            assert(was_free(events));
        }
        if was_ready(shorter) {
            let i = choose|i: int|
                0 <= i < shorter.len() && is_ready_event(#[trigger] shorter[i]);
            assert(events[i] == shorter[i]);
            assert(was_ready(events));
        }
        assert(events[last] == events.last());
        let before = start_course(fresh_start(kind), shorter);
        match events.last() {
            StartEventView::Checked { is_recording } => {
                if before.stage == StartStage::Checking && !is_recording {
                    assert(was_free(events));
                }
            },
            StartEventView::Validated(r) => {
                if before.stage == StartStage::Validating && r is Ok {
                    assert(was_ready(events));
                }
            },
            _ => {},
        }
    }
}

/// Whether the streams may be started: some device is there, or one of the defaults is to be
/// followed; and a device is followed only where the user has not named it.
pub open spec fn devices_settled(run: StartView) -> bool {
    match run.kind {
        StartKindView::Defaults => run.stage == StartStage::LoadingConfig || run.stage
            == StartStage::Starting || run.stage == StartStage::Running ==> run.mic is Some
            || run.system is Some,
        StartKindView::Named { mic, system } => {
            &&& run.mic == mic && run.system == system
            &&& run.follow_mic == (mic is None)
            &&& run.follow_system == (system is None)
            &&& run.stage != StartStage::FindingDevices
        },
    }
}

/// A recording with the default devices has at least one device when it starts; one with named
/// devices uses those, and follows the system's default only where no name was given.
pub proof fn recordings_have_their_devices(kind: StartKindView, events: Seq<StartEventView>)
    ensures
        devices_settled(start_course(fresh_start(kind), events)),
        start_course(fresh_start(kind), events).kind == kind,
    decreases events.len(),
{
    if events.len() > 0 {
        recordings_have_their_devices(kind, events.drop_last());
    }
}

/// A start that has ended, well or not, does not go on.
pub proof fn ended_starts_do_not_change(run: StartView, event: StartEventView)
    requires
        run.stage == StartStage::Running || run.stage == StartStage::Failed,
    ensures
        start_step(run, event) == (run, StartActionView::Nothing),
{
}

/// Whether a model's name begins with that of the streaming recognizer.
pub open spec fn begins_with_xasr(model: Option<Seq<char>>) -> bool {
    exists|rest: Seq<char>| model == Some(#[trigger] ("x-asr-"@ + rest))
}

proof fn streaming_models_begin_with_xasr(model: Option<Seq<char>>)
    ensures
        is_streaming_model(model) == begins_with_xasr(model),
{
    if is_streaming_model(model) {
        let m = model->0;
        assert(m =~= "x-asr-"@ + m.skip("x-asr-"@.len() as int));
    }
    if begins_with_xasr(model) {
        let rest = choose|rest: Seq<char>| model == Some(#[trigger] ("x-asr-"@ + rest));
        assert("x-asr-"@.is_prefix_of("x-asr-"@ + rest));
    }
}

/// A start with the default devices that meets no obstacle: both devices that were found are
/// recorded, the way the user's settings say; only devices that the user has no preference for
/// are followed.
pub proof fn default_starts_record_what_was_found(
    p: PreferencesView,
    mic: Option<Seq<char>>,
    system: Option<Seq<char>>,
    model: Option<Seq<char>>,
    meeting_name: Seq<char>,
)
    requires
        mic is Some || system is Some,
    ensures
        ({
            let s0 = start_step(
                fresh_start(StartKindView::Defaults),
                StartEventView::Checked { is_recording: false },
            );
            let s1 = start_step(s0.0, StartEventView::Validated(Ok(())));
            let s2 = start_step(s1.0, StartEventView::Preferences(p));
            let s3 = start_step(s2.0, StartEventView::Devices { mic, system });
            let s4 = start_step(s3.0, StartEventView::Configured { model, meeting_name });
            let s5 = start_step(s4.0, StartEventView::Started(Ok(())));
            &&& s0.1 == StartActionView::Validate
            &&& s1.1 == StartActionView::LoadPreferences
            &&& s2.1 == (StartActionView::FindDevices {
                mic: p.preferred_mic,
                system: p.preferred_system,
            })
            &&& s3.1 == StartActionView::LoadConfig
            &&& s4.1 == StartActionView::StartStreams(
                PlanView {
                    mic,
                    system,
                    auto_save: p.auto_save,
                    save_folder: p.save_folder,
                    follow_mic: p.preferred_mic is None,
                    follow_system: p.preferred_system is None,
                    meeting_name,
                    bypass_vad: begins_with_xasr(model),
                },
            )
            &&& s5.0.stage == StartStage::Running
            &&& s5.1 matches StartActionView::Finish(r) && {
                &&& r.message == "Recording started successfully with parallel processing"@
                &&& r.devices == seq!["Default Microphone"@, "Default System Audio"@]
                &&& r.workers == 3
                &&& r.spawn_follower == (p.preferred_mic is None || p.preferred_system is None)
                &&& mic matches Some(m) ==> r.monitored.contains(m) && r.monitored[0] == m
                &&& system matches Some(d) ==> r.monitored.contains(d) && r.monitored.last() == d
                &&& r.monitored.len() == (if mic is Some && system is Some {
                    2int
                } else {
                    1int
                })
            }
        }),
{
    streaming_models_begin_with_xasr(model);
    let names = both_names(mic, system);
    if let Some(m) = mic {
        assert(names[0] == m);
    }
    if let Some(d) = system {
        assert(names[names.len() - 1] == d);
    }
}

/// A start with named devices that meets no obstacle: each named device is looked for, and
/// exactly those are recorded; where no name was given, the system's default is followed.
pub proof fn named_starts_record_what_was_named(
    mic: Option<Seq<char>>,
    system: Option<Seq<char>>,
    p: PreferencesView,
    model: Option<Seq<char>>,
    meeting_name: Seq<char>,
)
    ensures
        ({
            let s0 = start_step(
                fresh_start(StartKindView::Named { mic, system }),
                StartEventView::Checked { is_recording: false },
            );
            let s1 = start_step(s0.0, StartEventView::Validated(Ok(())));
            let s2 = if mic is Some {
                start_step(s1.0, StartEventView::MicFound(Ok(())))
            } else {
                s1
            };
            let s3 = if system is Some {
                start_step(s2.0, StartEventView::SystemFound(Ok(())))
            } else {
                s2
            };
            let s4 = start_step(s3.0, StartEventView::Preferences(p));
            let s5 = start_step(s4.0, StartEventView::Configured { model, meeting_name });
            let s6 = start_step(s5.0, StartEventView::Started(Ok(())));
            &&& s0.1 == StartActionView::Validate
            &&& mic matches Some(m) ==> s1.1 == StartActionView::FindMic(m)
            &&& system matches Some(d) ==> s2.1 == StartActionView::FindSystem(d)
            &&& s3.1 == StartActionView::LoadPreferences
            &&& s4.1 == StartActionView::LoadConfig
            &&& s5.1 == StartActionView::StartStreams(
                PlanView {
                    mic,
                    system,
                    auto_save: p.auto_save,
                    save_folder: p.save_folder,
                    follow_mic: mic is None,
                    follow_system: system is None,
                    meeting_name,
                    bypass_vad: begins_with_xasr(model),
                },
            )
            &&& s6.0.stage == StartStage::Running
            &&& s6.1 matches StartActionView::Finish(r) && {
                &&& r.message == "Recording started with custom devices and parallel processing"@
                &&& r.devices.len() == 2
                &&& mic matches Some(m) ==> r.devices[0] == m && r.monitored.contains(m)
                    && r.monitored[0] == m
                &&& mic is None ==> r.devices[0] == "Default Microphone"@
                &&& system matches Some(d) ==> r.devices[1] == d && r.monitored.contains(d)
                    && r.monitored.last() == d
                &&& system is None ==> r.devices[1] == "Default System Audio"@
                &&& r.workers == 3
                &&& r.spawn_follower == (mic is None || system is None)
                &&& r.monitored.len() == (if mic is Some {
                    1int
                } else {
                    0int
                }) + (if system is Some {
                    1int
                } else {
                    0int
                })
            }
        }),
{
    streaming_models_begin_with_xasr(model);
    let names = both_names(mic, system);
    if let Some(m) = mic {
        assert(names[0] == m);
    }
    if let Some(d) = system {
        assert(names[names.len() - 1] == d);
    }
}

/// Whether a plan was made of what events have brought: its folder and saving are those of the
/// user's settings, and its devices those that were found, or named.
pub open spec fn made_of(plan: PlanView, kind: StartKindView, events: Seq<StartEventView>) -> bool {
    exists|i: int, j: int|
        0 <= i < events.len() && 0 <= j < events.len() && #[trigger] settled_by(
            plan.mic,
            plan.system,
            plan.auto_save,
            plan.save_folder,
            plan.follow_mic,
            plan.follow_system,
            kind,
            events[i],
            events[j],
        )
}

/// Whether settings and devices are those of two events, or those that were named.
pub open spec fn settled_by(
    mic: Option<Seq<char>>,
    system: Option<Seq<char>>,
    auto_save: bool,
    save_folder: Seq<char>,
    follow_mic: bool,
    follow_system: bool,
    kind: StartKindView,
    preferences: StartEventView,
    devices: StartEventView,
) -> bool {
    &&& preferences matches StartEventView::Preferences(p) && auto_save == p.auto_save
        && save_folder == p.save_folder && (kind is Defaults ==> follow_mic == (
    p.preferred_mic is None) && follow_system == (p.preferred_system is None))
    &&& match kind {
        StartKindView::Defaults => devices == (StartEventView::Devices { mic, system }),
        StartKindView::Named { mic: m, system: s } => mic == m && system == s && follow_mic == (
        m is None) && follow_system == (s is None),
    }
}

spec fn preferred_by(run: StartView, event: StartEventView) -> bool {
    match event {
        StartEventView::Preferences(p) => {
            &&& run.auto_save == p.auto_save
            &&& run.save_folder == p.save_folder
            &&& run.follow_mic == (p.preferred_mic is None)
            &&& run.follow_system == (p.preferred_system is None)
        },
        _ => false,
    }
}

proof fn starts_settle(kind: StartKindView, events: Seq<StartEventView>)
    ensures
        ({
            let run = start_course(fresh_start(kind), events);
            &&& run.kind == kind
            &&& kind matches StartKindView::Named { mic, system } ==> run.mic == mic && run.system
                == system && run.follow_mic == (mic is None) && run.follow_system == (
            system is None) && run.stage != StartStage::FindingDevices
            &&& run.stage == StartStage::FindingDevices ==> exists|i: int|
                0 <= i < events.len() && preferred_by(run, #[trigger] events[i])
            &&& run.stage == StartStage::LoadingConfig ==> exists|i: int, j: int|
                0 <= i < events.len() && 0 <= j < events.len() && #[trigger] settled_by(
                    run.mic,
                    run.system,
                    run.auto_save,
                    run.save_folder,
                    run.follow_mic,
                    run.follow_system,
                    kind,
                    events[i],
                    events[j],
                )
        }),
    decreases events.len(),
{
    if events.len() > 0 {
        let shorter = events.drop_last();
        starts_settle(kind, shorter);
        let before = start_course(fresh_start(kind), shorter);
        let run = start_course(fresh_start(kind), events);
        let last: int = events.len() - 1;
        assert(events[last] == events.last());
        if run.stage == StartStage::FindingDevices {
            if before.stage == StartStage::FindingDevices {
                let i = choose|i: int|
                    0 <= i < shorter.len() && preferred_by(before, #[trigger] shorter[i]);
                assert(events[i] == shorter[i]);
            } else {
                assert(preferred_by(run, events[last]));
            }
        }
        if run.stage == StartStage::LoadingConfig {
            if before.stage == StartStage::LoadingConfig {
                let (i, j) = choose|i: int, j: int|
                    0 <= i < shorter.len() && 0 <= j < shorter.len() && #[trigger] settled_by(
                        before.mic,
                        before.system,
                        before.auto_save,
                        before.save_folder,
                        before.follow_mic,
                        before.follow_system,
                        kind,
                        shorter[i],
                        shorter[j],
                    );
                assert(events[i] == shorter[i] && events[j] == shorter[j]);
            } else if before.stage == StartStage::FindingDevices {
                let i = choose|i: int|
                    0 <= i < shorter.len() && preferred_by(before, #[trigger] shorter[i]);
                assert(events[i] == shorter[i]);
                assert(settled_by(
                    run.mic,
                    run.system,
                    run.auto_save,
                    run.save_folder,
                    run.follow_mic,
                    run.follow_system,
                    kind,
                    events[i],
                    events[last],
                ));
            } else {
                assert(settled_by(
                    run.mic,
                    run.system,
                    run.auto_save,
                    run.save_folder,
                    run.follow_mic,
                    run.follow_system,
                    kind,
                    events[last],
                    events[last],
                ));
            }
        }
    }
}

/// Whatever happens in the course of a start, the plan that the streams are started by is made of
/// what was reported: the devices, the folder, the saving and what is followed; and the meeting is
/// named as it was just said to be.
pub proof fn plans_are_made_of_what_was_reported(
    kind: StartKindView,
    events: Seq<StartEventView>,
    event: StartEventView,
)
    ensures
        start_step(start_course(fresh_start(kind), events), event).1 matches
            StartActionView::StartStreams(plan) ==> {
            &&& made_of(plan, kind, events)
            &&& event matches StartEventView::Configured { model, meeting_name }
                && plan.meeting_name == meeting_name && plan.bypass_vad == begins_with_xasr(model)
        },
{
    starts_settle(kind, events);
    let run = start_course(fresh_start(kind), events);
    if let StartEventView::Configured { model, meeting_name } = event {
        streaming_models_begin_with_xasr(model);
        if run.stage == StartStage::LoadingConfig {
            let (i, j) = choose|i: int, j: int|
                0 <= i < events.len() && 0 <= j < events.len() && #[trigger] settled_by(
                    run.mic,
                    run.system,
                    run.auto_save,
                    run.save_folder,
                    run.follow_mic,
                    run.follow_system,
                    kind,
                    events[i],
                    events[j],
                );
            let plan = plan_for(run, model, meeting_name);
            assert(settled_by(
                plan.mic,
                plan.system,
                plan.auto_save,
                plan.save_folder,
                plan.follow_mic,
                plan.follow_system,
                kind,
                events[i],
                events[j],
            ));
        }
    }
}

/// What keeps a recording from starting is told: a recording that runs, a model that is not ready,
/// a named device that is not there, no device at all, or streams that do not start. Only a
/// missing model is told as such.
pub proof fn obstacles_are_told(run: StartView, reason: Seq<char>)
    ensures
        ({
            let fails = |event: StartEventView, message: Seq<char>, model: bool|
                {
                    let (after, action) = start_step(run, event);
                    &&& after.stage == StartStage::Failed
                    &&& action == (StartActionView::Fail { error: message, model_missing: model })
                };
            match run.stage {
                StartStage::Checking => fails(
                    StartEventView::Checked { is_recording: true },
                    "Recording already in progress"@,
                    false,
                ),
                StartStage::Validating => fails(
                    StartEventView::Validated(Err(reason)),
                    reason,
                    true,
                ),
                StartStage::FindingMic => run.mic matches Some(name) ==> fails(
                    StartEventView::MicFound(Err(reason)),
                    "Invalid microphone device '"@ + name + "': "@ + reason,
                    false,
                ),
                StartStage::FindingSystem => run.system matches Some(name) ==> fails(
                    StartEventView::SystemFound(Err(reason)),
                    "Invalid system device '"@ + name + "': "@ + reason,
                    false,
                ),
                StartStage::FindingDevices => fails(
                    StartEventView::Devices { mic: None, system: None },
                    "No audio devices available: neither a microphone nor a system audio device was found"@,
                    false,
                ),
                StartStage::Starting => fails(
                    StartEventView::Started(Err(reason)),
                    "Failed to start recording: "@ + reason,
                    false,
                ),
                _ => true,
            }
        }),
{
    if let Some(name) = run.mic {
        let start = "Invalid microphone device '"@ + name;
        assert(start + ("': "@ + reason) =~= start + "': "@ + reason);
    }
    if let Some(name) = run.system {
        let start = "Invalid system device '"@ + name;
        assert(start + ("': "@ + reason) =~= start + "': "@ + reason);
    }
}

/// A preferred device that is there is used; else the default one, where there is one.
pub proof fn preferred_devices_come_first<D>(
    preferred: Option<Result<D, String>>,
    fallback: Option<D>,
)
    ensures
        preferred matches Some(Ok(d)) ==> resolved(preferred, fallback) == Some(d),
        !(preferred is Some && preferred->0 is Ok) ==> resolved(preferred, fallback) == fallback,
{
}

/// A meeting keeps the name that it was given, and is else named after the time.
pub proof fn meetings_keep_their_names(name: Seq<char>, stamp: Seq<char>)
    ensures
        meeting_name_of(Some(name), stamp) == name,
        meeting_name_of(None, stamp) == "Meeting "@ + stamp,
{
}

/// What does not belong where a start is leaves it as it is, and nothing is to be done.
pub proof fn other_events_leave_starts_alone(run: StartView, event: StartEventView)
    requires
        match run.stage {
            StartStage::Checking => !(event is Checked),
            StartStage::Validating => !(event is Validated),
            StartStage::FindingMic => !(event is MicFound),
            StartStage::FindingSystem => !(event is SystemFound),
            StartStage::LoadingPreferences => !(event is Preferences),
            StartStage::FindingDevices => !(event is Devices),
            StartStage::LoadingConfig => !(event is Configured),
            StartStage::Starting => !(event is Started),
            StartStage::Running | StartStage::Failed => true,
        },
    ensures
        start_step(run, event) == (run, StartActionView::Nothing),
{
}

/// A start begins with the devices that were named, and follows the system's default for every
/// other; what is recorded is saved, until the user's settings say otherwise.
pub proof fn starts_begin_with_what_was_named(mic: Option<Seq<char>>, system: Option<Seq<char>>)
    ensures
        ({
            let named = fresh_start(StartKindView::Named { mic, system });
            let open = fresh_start(StartKindView::Defaults);
            &&& named.mic == mic && named.system == system
            &&& named.follow_mic == (mic is None) && named.follow_system == (system is None)
            &&& open.mic is None && open.system is None && open.follow_mic && open.follow_system
            &&& named.auto_save && open.auto_save
            &&& named.save_folder.len() == 0 && open.save_folder.len() == 0
            &&& named.stage == StartStage::Checking && open.stage == StartStage::Checking
        }),
{
}

} // verus!

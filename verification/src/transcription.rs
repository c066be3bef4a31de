//! Which speech recognizer transcribes, and getting it ready, step by step: the caller does what
//! is asked and reports what came of it.

use vstd::prelude::*;
#[allow(unused_imports)]
use vstd::string::StringExecFns;

use crate::custom_local;
use crate::custom_local::{
    check_connection, copy_profile, validate_profile, LocalModelProfile, ProfileView,
};
#[allow(unused_imports)]
use crate::http;
use crate::text;
use crate::text::{concat2, concat3, contains, same, starts_with, two_digit};

verus! {

/// The model of a remote recognizer where none is named.
pub const DEFAULT_REMOTE_MODEL: &'static str = "Qwen/Qwen3-ASR-1.7B";

/// The remote recognizer; without an address there is none.
#[derive(Debug)]
pub struct RemoteAsrConfig {
    pub endpoint: String,
    pub model: String,
}

impl RemoteAsrConfig {
    /// No remote recognizer.
    pub fn new() -> (r: Self)
        ensures
            r.endpoint@ == Seq::<char>::empty(),
            r.model@ == Seq::<char>::empty(),
    {
        let r: RemoteAsrConfig = RemoteAsrConfig { endpoint: String::new(), model: String::new() };
        assert(r.endpoint@ =~= Seq::empty());
        assert(r.model@ =~= Seq::empty());
        r
    }
}

/// Sets the remote recognizer.
pub fn set_remote_asr_config(config: &mut RemoteAsrConfig, endpoint: &str, model_name: &str)
    ensures
        final(config).endpoint@ == endpoint@,
        final(config).model@ == model_name@,
{
    config.endpoint = endpoint.to_owned();
    config.model = model_name.to_owned();
}

/// The address of the remote recognizer.
pub fn get_remote_asr_endpoint(config: &RemoteAsrConfig) -> (r: String)
    ensures
        r@ == config.endpoint@,
{
    config.endpoint.clone()
}

/// The model of the remote recognizer.
pub fn get_remote_asr_model(config: &RemoteAsrConfig) -> (r: String)
    ensures
        r@ == config.model@,
{
    config.model.clone()
}

/// Whether there is a remote recognizer.
pub fn is_remote_asr_configured(config: &RemoteAsrConfig) -> (r: bool)
    ensures
        r == (config.endpoint@.len() > 0),
{
    !config.endpoint.as_str().is_empty()
}

/// The model of a remote recognizer: the one given, or the default.
pub fn remote_model_or_default(model: Option<String>) -> (r: String)
    ensures
        r@ == (match model {
            Some(m) => m@,
            None => DEFAULT_REMOTE_MODEL@,
        }),
        model is None ==> r@ == "Qwen/Qwen3-ASR-1.7B"@,
{
    match model {
        Some(m) => m,
        None => DEFAULT_REMOTE_MODEL.to_owned(),
    }
}

/// The time of day as `HH:MM:SS`.
pub open spec fn clock_text(secs: nat) -> Seq<char> {
    text::two_digits((secs / 3600) % 24) + ":"@ + (text::two_digits((secs / 60) % 60) + ":"@
        + text::two_digits(secs % 60))
}

/// The time of day as `HH:MM:SS`, for so many seconds since midnight of some day.
pub fn format_timestamp_simple(secs: u64) -> (r: String)
    ensures
        r@ == clock_text(secs as nat),
{
    let hours: u64 = (secs / 3600) % 24;
    let minutes: u64 = (secs / 60) % 60;
    let seconds: u64 = secs % 60;
    let rest: String = concat3(two_digit(minutes).as_str(), ":", two_digit(seconds).as_str());
    concat3(two_digit(hours).as_str(), ":", rest.as_str())
}

/// What transcribes speech.
pub trait TranscriptionProvider {
    /// What it is called.
    spec fn name(&self) -> Seq<char>;

    /// The model it has.
    spec fn model(&self) -> Option<Seq<char>>;

    /// Whether its model is loaded.
    spec fn loaded(&self) -> bool;

    /// What it is called.
    fn provider_name(&self) -> (r: &str)
        ensures
            r@ == self.name(),
    ;

    /// The model it has.
    fn get_current_model(&self) -> (r: Option<String>)
        ensures
            text::opt_text(r) == self.model(),
    ;

    /// Whether its model is loaded.
    fn is_model_loaded(&self) -> (r: bool)
        ensures
            r == self.loaded(),
    ;
}

/// A server that the user runs, as a recognizer.
#[derive(Debug)]
pub struct CustomLocalAsrProvider {
    pub profile: LocalModelProfile,
}

impl CustomLocalAsrProvider {
    /// The server of a profile.
    pub fn new(profile: LocalModelProfile) -> (r: Self)
        ensures
            r.profile@ == profile@,
    {
        CustomLocalAsrProvider { profile }
    }
}

impl TranscriptionProvider for CustomLocalAsrProvider {
    open spec fn name(&self) -> Seq<char> {
        "Custom local ASR"@
    }

    open spec fn model(&self) -> Option<Seq<char>> {
        Some(self.profile@.name)
    }

    open spec fn loaded(&self) -> bool {
        true
    }

    fn provider_name(&self) -> (r: &str) {
        "Custom local ASR"
    }

    fn get_current_model(&self) -> (r: Option<String>) {
        Some(self.profile.name.clone())
    }

    fn is_model_loaded(&self) -> (r: bool) {
        true
    }
}

/// A recognizer that is ready.
#[derive(Debug)]
pub enum TranscriptionEngine<P> {
    Provider(P),
}

impl<P: TranscriptionProvider> TranscriptionEngine<P> {
    /// What transcribes.
    pub open spec fn provider(&self) -> P {
        match *self {
            TranscriptionEngine::Provider(p) => p,
        }
    }

    /// Whether the recognizer's model is loaded.
    pub fn is_model_loaded(&self) -> (r: bool)
        ensures
            r == self.provider().loaded(),
    {
        match self {
            TranscriptionEngine::Provider(p) => p.is_model_loaded(),
        }
    }

    /// The recognizer's model.
    pub fn get_current_model(&self) -> (r: Option<String>)
        ensures
            text::opt_text(r) == self.provider().model(),
    {
        match self {
            TranscriptionEngine::Provider(p) => p.get_current_model(),
        }
    }

    /// What the recognizer is called.
    pub fn provider_name(&self) -> (r: &str)
        ensures
            r@ == self.provider().name(),
    {
        match self {
            TranscriptionEngine::Provider(p) => p.provider_name(),
        }
    }
}

/// Which recognizer the user has chosen.
#[derive(Debug)]
pub struct TranscriptConfig {
    pub provider: String,
    pub model: String,
}

/// The user's choice as a mathematical value.
pub struct ConfigView {
    pub provider: Seq<char>,
    pub model: Seq<char>,
}

impl View for TranscriptConfig {
    type V = ConfigView;

    open spec fn view(&self) -> ConfigView {
        ConfigView { provider: self.provider@, model: self.model@ }
    }
}

/// The view of a choice that may be missing.
pub open spec fn config_view(config: Option<TranscriptConfig>) -> Option<ConfigView> {
    match config {
        Some(c) => Some(c@),
        None => None,
    }
}

/// The user's choice, or the built-in recognizer where there is none.
pub open spec fn config_or_default(config: Option<ConfigView>) -> ConfigView {
    match config {
        Some(c) => c,
        None => ConfigView { provider: "sherpaonnx"@, model: "sense-voice"@ },
    }
}

/// The user's choice, or the built-in recognizer where there is none.
pub fn transcript_config_or_default(config: Option<TranscriptConfig>) -> (r: TranscriptConfig)
    ensures
        r@ == config_or_default(config_view(config)),
{
    match config {
        Some(c) => c,
        None => TranscriptConfig {
            provider: "sherpaonnx".to_owned(),
            model: "sense-voice".to_owned(),
        },
    }
}

/// The recognizers that there are.
#[derive(Clone, Copy, Debug, PartialEq, Eq, Structural)]
pub enum EngineKind {
    /// A server that the user runs.
    CustomLocal,
    /// The streaming recognizer.
    XAsr,
    /// The remote recognizer; whether it sends text as it comes.
    Remote { streaming: bool },
    /// The built-in recognizer.
    Sherpa,
    /// None of these.
    Unsupported,
}

/// The recognizer that a choice stands for.
pub open spec fn kind_of(config: ConfigView) -> EngineKind {
    if config.provider == "custom-local"@ {
        EngineKind::CustomLocal
    } else if "x-asr-"@.is_prefix_of(config.model) {
        EngineKind::XAsr
    } else if "qwen3-asr-remote"@.is_prefix_of(config.model) || config.provider
        == "remote-qwen3-asr"@ {
        EngineKind::Remote { streaming: text::occurs_in("streaming"@, config.model) }
    } else if config.provider == "sherpaonnx"@ {
        EngineKind::Sherpa
    } else {
        EngineKind::Unsupported
    }
}

/// The recognizer that a choice stands for.
pub fn engine_kind(config: &TranscriptConfig) -> (r: EngineKind)
    ensures
        r == kind_of(config@),
{
    let provider: &str = config.provider.as_str();
    let model: &str = config.model.as_str();
    if same(provider, "custom-local") {
        EngineKind::CustomLocal
    } else if starts_with(model, "x-asr-") {
        EngineKind::XAsr
    } else if starts_with(model, "qwen3-asr-remote") || same(provider, "remote-qwen3-asr") {
        EngineKind::Remote { streaming: contains(model, "streaming") }
    } else if same(provider, "sherpaonnx") {
        EngineKind::Sherpa
    } else {
        EngineKind::Unsupported
    }
}

/// What a recognizer is got ready for.
#[derive(Clone, Copy, Debug, PartialEq, Eq, Structural)]
pub enum Purpose {
    /// To know that a recording can be started.
    Validate,
    /// To transcribe a recording.
    Build,
    /// To transcribe a short clip.
    Quick,
    /// To transcribe a stored recording again.
    Offline,
}

/// What happens in the course of getting a recognizer ready.
#[derive(Debug)]
pub enum EngineEvent {
    /// What came of looking for the profile.
    Profile(Result<LocalModelProfile, String>),
    /// The status that the profile's server answered the connection test with, or why there was
    /// no answer.
    Tested(Result<u16, String>),
    /// What came of setting up the built-in recognizer.
    Initialised(Result<(), String>),
    /// Whether the model is loaded.
    Loaded(bool),
    /// What came of loading the model.
    ModelLoaded(Result<(), String>),
    /// What came of taking hold of the loaded recognizer.
    EngineTaken(Result<(), String>),
    /// Whether the remote recognizer answers.
    Healthy(bool),
    /// The model that the remote recognizer says it has; empty where it does not say.
    Detected(String),
    /// What came of connecting to the remote recognizer.
    Connected(Result<(), String>),
}

/// What happens in the course of getting a recognizer ready, as a mathematical value.
pub enum EngineEventView {
    Profile(Result<ProfileView, Seq<char>>),
    Tested(Result<u16, Seq<char>>),
    Initialised(Result<(), Seq<char>>),
    Loaded(bool),
    ModelLoaded(Result<(), Seq<char>>),
    EngineTaken(Result<(), Seq<char>>),
    Healthy(bool),
    Detected(Seq<char>),
    Connected(Result<(), Seq<char>>),
}

/// The view of a profile or of the reason why there is none.
pub open spec fn found_profile(r: Result<LocalModelProfile, String>) -> Result<
    ProfileView,
    Seq<char>,
> {
    match r {
        Ok(p) => Ok(p@),
        Err(e) => Err(e@),
    }
}

impl View for EngineEvent {
    type V = EngineEventView;

    open spec fn view(&self) -> EngineEventView {
        match *self {
            EngineEvent::Profile(r) => EngineEventView::Profile(found_profile(r)),
            EngineEvent::Tested(r) => EngineEventView::Tested(
                match r {
                    Ok(status) => Ok(status),
                    Err(e) => Err(e@),
                },
            ),
            EngineEvent::Initialised(r) => EngineEventView::Initialised(text::unit_result(r)),
            EngineEvent::Loaded(b) => EngineEventView::Loaded(b),
            EngineEvent::ModelLoaded(r) => EngineEventView::ModelLoaded(text::unit_result(r)),
            EngineEvent::EngineTaken(r) => EngineEventView::EngineTaken(text::unit_result(r)),
            EngineEvent::Healthy(b) => EngineEventView::Healthy(b),
            EngineEvent::Detected(m) => EngineEventView::Detected(m@),
            EngineEvent::Connected(r) => EngineEventView::Connected(text::unit_result(r)),
        }
    }
}

/// A recognizer that is ready to be used.
#[derive(Debug)]
pub enum ReadyEngine {
    /// The server of this profile.
    CustomLocal(LocalModelProfile),
    /// The streaming recognizer with this model.
    XAsr(String),
    /// The remote recognizer.
    Remote { endpoint: String, model: String, streaming: bool },
    /// The built-in recognizer.
    Sherpa,
}

/// A recognizer that is ready to be used, as a mathematical value.
pub enum ReadyView {
    CustomLocal(ProfileView),
    XAsr(Seq<char>),
    Remote { endpoint: Seq<char>, model: Seq<char>, streaming: bool },
    Sherpa,
}

impl View for ReadyEngine {
    type V = ReadyView;

    open spec fn view(&self) -> ReadyView {
        match *self {
            ReadyEngine::CustomLocal(p) => ReadyView::CustomLocal(p@),
            ReadyEngine::XAsr(m) => ReadyView::XAsr(m@),
            ReadyEngine::Remote { endpoint, model, streaming } => ReadyView::Remote {
                endpoint: endpoint@,
                model: model@,
                streaming,
            },
            ReadyEngine::Sherpa => ReadyView::Sherpa,
        }
    }
}

/// What is to be done next.
#[derive(Debug)]
pub enum EngineAction {
    /// Look for the speech profile with this identifier.
    FindProfile(String),
    /// Test the connection to the server of this profile.
    TestConnection(LocalModelProfile),
    /// Set up the built-in recognizer.
    Initialise,
    /// See whether the streaming recognizer's model is loaded.
    CheckXAsr,
    /// See whether the built-in recognizer's model is loaded.
    CheckSherpa,
    /// Load this model.
    LoadModel(String),
    /// Take hold of the streaming recognizer.
    TakeXAsr,
    /// Take hold of the built-in recognizer.
    TakeSherpa,
    /// See whether the remote recognizer answers.
    CheckHealth { endpoint: String, model: String, streaming: bool },
    /// Ask the remote recognizer which model it has.
    DetectModel { endpoint: String, model: String, streaming: bool },
    /// Connect to the remote recognizer, with the model that it has.
    Connect { endpoint: String, model: String },
    /// The recognizer is ready.
    Ready(ReadyEngine),
    /// It cannot be used, for this reason.
    Fail(String),
    /// Nothing.
    Nothing,
}

/// What is to be done next, as a mathematical value.
pub enum EngineActionView {
    FindProfile(Seq<char>),
    TestConnection(ProfileView),
    Initialise,
    CheckXAsr,
    CheckSherpa,
    LoadModel(Seq<char>),
    TakeXAsr,
    TakeSherpa,
    CheckHealth { endpoint: Seq<char>, model: Seq<char>, streaming: bool },
    DetectModel { endpoint: Seq<char>, model: Seq<char>, streaming: bool },
    Connect { endpoint: Seq<char>, model: Seq<char> },
    Ready(ReadyView),
    Fail(Seq<char>),
    Nothing,
}

impl View for EngineAction {
    type V = EngineActionView;

    open spec fn view(&self) -> EngineActionView {
        match *self {
            EngineAction::FindProfile(id) => EngineActionView::FindProfile(id@),
            EngineAction::TestConnection(p) => EngineActionView::TestConnection(p@),
            EngineAction::Initialise => EngineActionView::Initialise,
            EngineAction::CheckXAsr => EngineActionView::CheckXAsr,
            EngineAction::CheckSherpa => EngineActionView::CheckSherpa,
            EngineAction::LoadModel(m) => EngineActionView::LoadModel(m@),
            EngineAction::TakeXAsr => EngineActionView::TakeXAsr,
            EngineAction::TakeSherpa => EngineActionView::TakeSherpa,
            EngineAction::CheckHealth { endpoint, model, streaming } => {
                EngineActionView::CheckHealth { endpoint: endpoint@, model: model@, streaming }
            },
            EngineAction::DetectModel { endpoint, model, streaming } => {
                EngineActionView::DetectModel { endpoint: endpoint@, model: model@, streaming }
            },
            EngineAction::Connect { endpoint, model } => EngineActionView::Connect {
                endpoint: endpoint@,
                model: model@,
            },
            EngineAction::Ready(e) => EngineActionView::Ready(e@),
            EngineAction::Fail(e) => EngineActionView::Fail(e@),
            EngineAction::Nothing => EngineActionView::Nothing,
        }
    }
}

/// How far getting a recognizer ready is.
#[derive(Clone, Copy, Debug, PartialEq, Eq, Structural)]
pub enum EngineStage {
    FindingProfile,
    Testing,
    Initialising,
    CheckingXAsr,
    LoadingXAsr,
    TakingXAsr,
    CheckingSherpa,
    LoadingSherpa,
    TakingSherpa,
    CheckingHealth,
    Detecting,
    Connecting,
    Ready,
    Failed,
}

/// A recognizer that is being got ready.
#[derive(Debug)]
pub struct EngineRun {
    pub purpose: Purpose,
    pub stage: EngineStage,
    pub provider: String,
    pub model: String,
    /// The address of the remote recognizer.
    pub endpoint: String,
    /// The model that is set for the remote recognizer.
    pub remote_model: String,
    pub streaming: bool,
    /// The profile whose server is tested.
    pub profile: Option<LocalModelProfile>,
}

/// A recognizer that is being got ready, as a mathematical value.
pub struct EngineRunView {
    pub purpose: Purpose,
    pub stage: EngineStage,
    pub provider: Seq<char>,
    pub model: Seq<char>,
    pub endpoint: Seq<char>,
    pub remote_model: Seq<char>,
    pub streaming: bool,
    pub profile: Option<ProfileView>,
}

impl View for EngineRun {
    type V = EngineRunView;

    open spec fn view(&self) -> EngineRunView {
        EngineRunView {
            purpose: self.purpose,
            stage: self.stage,
            provider: self.provider@,
            model: self.model@,
            endpoint: self.endpoint@,
            remote_model: self.remote_model@,
            streaming: self.streaming,
            profile: match self.profile {
                Some(p) => Some(p@),
                None => None,
            },
        }
    }
}

/// The message for a remote recognizer that is not set.
pub open spec fn remote_missing() -> Seq<char> {
    "Remote ASR endpoint not configured. Please set the remote ASR URL in Settings."@
}

/// The run at another stage.
pub open spec fn at(run: EngineRunView, stage: EngineStage) -> EngineRunView {
    EngineRunView { stage, ..run }
}

/// The run given up.
pub open spec fn refused(run: EngineRunView, error: Seq<char>) -> (EngineRunView, EngineActionView) {
    (at(run, EngineStage::Failed), EngineActionView::Fail(error))
}

/// The run at its end.
pub open spec fn ready(run: EngineRunView, engine: ReadyView) -> (EngineRunView, EngineActionView) {
    (at(run, EngineStage::Ready), EngineActionView::Ready(engine))
}

/// The first step for a recognizer.
pub open spec fn first_step(run: EngineRunView, kind: EngineKind) -> (
    EngineRunView,
    EngineActionView,
) {
    match kind {
        EngineKind::CustomLocal => (
            at(run, EngineStage::FindingProfile),
            EngineActionView::FindProfile(run.model),
        ),
        EngineKind::XAsr => (at(run, EngineStage::CheckingXAsr), EngineActionView::CheckXAsr),
        EngineKind::Remote { streaming } => {
            let known = EngineRunView { streaming, ..run };
            match run.purpose {
                Purpose::Validate => if run.endpoint.len() == 0 {
                    refused(known, remote_missing())
                } else {
                    (
                        at(known, EngineStage::CheckingHealth),
                        EngineActionView::CheckHealth {
                            endpoint: run.endpoint,
                            model: run.remote_model,
                            streaming,
                        },
                    )
                },
                Purpose::Build => (
                    at(known, EngineStage::Detecting),
                    EngineActionView::DetectModel {
                        endpoint: run.endpoint,
                        model: run.remote_model,
                        streaming,
                    },
                ),
                _ => if run.endpoint.len() == 0 {
                    refused(known, remote_missing())
                } else {
                    (
                        at(known, EngineStage::Connecting),
                        EngineActionView::Connect {
                            endpoint: run.endpoint,
                            model: run.remote_model,
                        },
                    )
                },
            }
        },
        EngineKind::Sherpa => match run.purpose {
            Purpose::Validate => (
                at(run, EngineStage::Initialising),
                EngineActionView::Initialise,
            ),
            _ => (at(run, EngineStage::CheckingSherpa), EngineActionView::CheckSherpa),
        },
        EngineKind::Unsupported => refused(
            run,
            "Provider '"@ + run.provider
                + "' is not supported. Use 'sherpaonnx', 'x-asr', or 'remote-qwen3-asr'."@,
        ),
    }
}

/// What comes once the streaming recognizer's model is loaded.
pub open spec fn after_xasr(run: EngineRunView) -> (EngineRunView, EngineActionView) {
    match run.purpose {
        Purpose::Validate => ready(run, ReadyView::XAsr(run.model)),
        _ => (at(run, EngineStage::TakingXAsr), EngineActionView::TakeXAsr),
    }
}

/// What comes once the built-in recognizer's model is loaded.
pub open spec fn after_sherpa(run: EngineRunView) -> (EngineRunView, EngineActionView) {
    match run.purpose {
        Purpose::Validate => ready(run, ReadyView::Sherpa),
        _ => (at(run, EngineStage::TakingSherpa), EngineActionView::TakeSherpa),
    }
}

/// What comes once a profile was found. For a new recording one that cannot be used is refused
/// here already; elsewhere each request to its server is.
pub open spec fn after_profile(run: EngineRunView, p: ProfileView) -> (
    EngineRunView,
    EngineActionView,
) {
    if run.purpose == Purpose::Quick || run.purpose == Purpose::Offline {
        ready(run, ReadyView::CustomLocal(p))
    } else {
        match custom_local::profile_result(p) {
            Err(e) => refused(run, e),
            Ok(_) => if run.purpose == Purpose::Validate {
                (
                    EngineRunView { stage: EngineStage::Testing, profile: Some(p), ..run },
                    EngineActionView::TestConnection(p),
                )
            } else {
                ready(run, ReadyView::CustomLocal(p))
            },
        }
    }
}

/// The message where a model of the streaming recognizer does not load.
pub open spec fn xasr_load_error(purpose: Purpose, e: Seq<char>) -> Seq<char> {
    match purpose {
        Purpose::Validate => "X-ASR model loading failed: "@ + e,
        _ => "Failed to load X-ASR model: "@ + e,
    }
}

/// The message where a model of the built-in recognizer does not load.
pub open spec fn sherpa_load_error(purpose: Purpose, model: Seq<char>, e: Seq<char>) -> Seq<char> {
    match purpose {
        Purpose::Build => "Failed to load Sherpa-ONNX model: "@ + e,
        Purpose::Offline => "Failed to load Sherpa-ONNX model: "@ + e,
        _ => "Failed to load Sherpa-ONNX model '"@ + model + ("': "@ + e),
    }
}

/// The message where the remote recognizer cannot be connected to.
pub open spec fn connect_error(purpose: Purpose, e: Seq<char>) -> Seq<char> {
    match purpose {
        Purpose::Offline => "Failed to initialize remote ASR for retranscription: "@ + e,
        _ => "Failed to initialize remote ASR: "@ + e,
    }
}

/// The model of the remote recognizer to use: the one that it says it has, where it says so.
pub open spec fn chosen_model(run: EngineRunView, detected: Seq<char>) -> Seq<char> {
    if detected.len() > 0 {
        detected
    } else {
        run.remote_model
    }
}

/// The remote recognizer with a model.
pub open spec fn remote_ready(run: EngineRunView, model: Seq<char>) -> ReadyView {
    ReadyView::Remote { endpoint: run.endpoint, model, streaming: run.streaming }
}

/// What a connection test says of a server: a recording needs one that can be reached, also where
/// it does not offer the list of models that the test asks for.
pub open spec fn test_result(r: Result<u16, Seq<char>>) -> Result<(), Seq<char>> {
    match r {
        Ok(status) => custom_local::connection_result(status),
        Err(e) => Err(e),
    }
}

/// Whether an event can be handed to a run: a status is one that servers answer with.
pub open spec fn engine_event_valid(event: EngineEventView) -> bool {
    match event {
        EngineEventView::Tested(Ok(status)) => http::is_status(status),
        _ => true,
    }
}

/// The run after an event, and what is to be done next.
pub open spec fn engine_step(run: EngineRunView, event: EngineEventView) -> (
    EngineRunView,
    EngineActionView,
) {
    match (run.stage, event) {
        (EngineStage::FindingProfile, EngineEventView::Profile(r)) => match r {
            Err(e) => refused(run, e),
            Ok(p) => after_profile(run, p),
        },
        (EngineStage::Testing, EngineEventView::Tested(r)) => match (test_result(r), run.profile) {
            (Err(e), _) => refused(run, "Custom local ASR is unavailable: "@ + e),
            (Ok(_), Some(p)) => ready(run, ReadyView::CustomLocal(p)),
            (Ok(_), None) => (run, EngineActionView::Nothing),
        },
        (EngineStage::Initialising, EngineEventView::Initialised(r)) => match r {
            Err(e) => refused(run, "Failed to init Sherpa-ONNX: "@ + e),
            Ok(_) => (at(run, EngineStage::CheckingSherpa), EngineActionView::CheckSherpa),
        },
        (EngineStage::CheckingXAsr, EngineEventView::Loaded(b)) => if b {
            after_xasr(run)
        } else {
            (at(run, EngineStage::LoadingXAsr), EngineActionView::LoadModel(run.model))
        },
        (EngineStage::LoadingXAsr, EngineEventView::ModelLoaded(r)) => match r {
            Err(e) => refused(run, xasr_load_error(run.purpose, e)),
            Ok(_) => after_xasr(run),
        },
        (EngineStage::TakingXAsr, EngineEventView::EngineTaken(r)) => match r {
            Err(e) => refused(run, "X-ASR engine not ready: "@ + e),
            Ok(_) => ready(run, ReadyView::XAsr(run.model)),
        },
        (EngineStage::CheckingSherpa, EngineEventView::Loaded(b)) => if b {
            after_sherpa(run)
        } else {
            (at(run, EngineStage::LoadingSherpa), EngineActionView::LoadModel(run.model))
        },
        (EngineStage::LoadingSherpa, EngineEventView::ModelLoaded(r)) => match r {
            Err(e) => refused(run, sherpa_load_error(run.purpose, run.model, e)),
            Ok(_) => after_sherpa(run),
        },
        (EngineStage::TakingSherpa, EngineEventView::EngineTaken(r)) => match r {
            Err(e) => refused(run, "Sherpa-ONNX engine not ready: "@ + e),
            Ok(_) => ready(run, ReadyView::Sherpa),
        },
        (EngineStage::CheckingHealth, EngineEventView::Healthy(b)) => if b {
            ready(run, remote_ready(run, run.remote_model))
        } else {
            refused(
                run,
                "Cannot connect to remote ASR at "@ + run.endpoint
                    + ". Please check the server is running."@,
            )
        },
        (EngineStage::Detecting, EngineEventView::Detected(m)) => ready(
            run,
            remote_ready(run, chosen_model(run, m)),
        ),
        (EngineStage::Connecting, EngineEventView::Connected(r)) => match r {
            Err(e) => refused(run, connect_error(run.purpose, e)),
            Ok(_) => ready(run, remote_ready(run, run.remote_model)),
        },
        _ => (run, EngineActionView::Nothing),
    }
}

/// A run of which nothing has been done yet.
pub open spec fn fresh_engine(
    purpose: Purpose,
    config: ConfigView,
    endpoint: Seq<char>,
    remote_model: Seq<char>,
) -> EngineRunView {
    EngineRunView {
        purpose,
        stage: EngineStage::Failed,
        provider: config.provider,
        model: config.model,
        endpoint,
        remote_model,
        streaming: false,
        profile: None,
    }
}

fn tested(r: Result<u16, String>) -> (t: Result<(), String>)
    requires
        r matches Ok(status) ==> http::is_status(status),
    ensures
        text::unit_result(t) == test_result(
            match r {
                Ok(status) => Ok(status),
                Err(e) => Err(e@),
            },
        ),
{
    match r {
        Ok(status) => check_connection(status),
        Err(e) => Err(e),
    }
}

impl EngineRun {
    /// Begins to get a recognizer ready: gives the run and what is to be done first.
    pub fn begin(
        purpose: Purpose,
        config: TranscriptConfig,
        kind: EngineKind,
        remote: &RemoteAsrConfig,
    ) -> (r: (Self, EngineAction))
        ensures
            (r.0@, r.1@) == first_step(
                fresh_engine(purpose, config@, remote.endpoint@, remote.model@),
                kind,
            ),
    {
        let mut run: EngineRun = EngineRun {
            purpose,
            stage: EngineStage::Failed,
            provider: config.provider,
            model: config.model,
            endpoint: remote.endpoint.clone(),
            remote_model: remote.model.clone(),
            streaming: false,
            profile: None,
        };
        let action: EngineAction = run.first(kind);
        (run, action)
    }

    fn first(&mut self, kind: EngineKind) -> (r: EngineAction)
        ensures
            (final(self)@, r@) == first_step(old(self)@, kind),
    {
        match kind {
            EngineKind::CustomLocal => {
                self.stage = EngineStage::FindingProfile;
                EngineAction::FindProfile(self.model.clone())
            },
            EngineKind::XAsr => {
                self.stage = EngineStage::CheckingXAsr;
                EngineAction::CheckXAsr
            },
            EngineKind::Remote { streaming } => {
                self.streaming = streaming;
                let endpoint: String = self.endpoint.clone();
                let model: String = self.remote_model.clone();
                let missing: bool = self.endpoint.as_str().is_empty();
                match self.purpose {
                    Purpose::Validate => {
                        if missing {
                            return self.refuse_remote();
                        }
                        self.stage = EngineStage::CheckingHealth;
                        EngineAction::CheckHealth { endpoint, model, streaming }
                    },
                    Purpose::Build => {
                        self.stage = EngineStage::Detecting;
                        EngineAction::DetectModel { endpoint, model, streaming }
                    },
                    _ => {
                        if missing {
                            return self.refuse_remote();
                        }
                        self.stage = EngineStage::Connecting;
                        EngineAction::Connect { endpoint, model }
                    },
                }
            },
            EngineKind::Sherpa => match self.purpose {
                Purpose::Validate => {
                    self.stage = EngineStage::Initialising;
                    EngineAction::Initialise
                },
                _ => {
                    self.stage = EngineStage::CheckingSherpa;
                    EngineAction::CheckSherpa
                },
            },
            EngineKind::Unsupported => {
                let error: String = concat3(
                    "Provider '",
                    self.provider.as_str(),
                    "' is not supported. Use 'sherpaonnx', 'x-asr', or 'remote-qwen3-asr'.",
                );
                self.refuse(error)
            },
        }
    }

    fn refuse(&mut self, error: String) -> (r: EngineAction)
        ensures
            (final(self)@, r@) == refused(old(self)@, error@),
    {
        self.stage = EngineStage::Failed;
        EngineAction::Fail(error)
    }

    fn refuse_remote(&mut self) -> (r: EngineAction)
        ensures
            (final(self)@, r@) == refused(old(self)@, remote_missing()),
    {
        self.refuse(
            "Remote ASR endpoint not configured. Please set the remote ASR URL in Settings.".to_owned(),
        )
    }

    fn finish(&mut self, engine: ReadyEngine) -> (r: EngineAction)
        ensures
            (final(self)@, r@) == ready(old(self)@, engine@),
    {
        self.stage = EngineStage::Ready;
        EngineAction::Ready(engine)
    }

    fn take_xasr(&mut self) -> (r: EngineAction)
        ensures
            (final(self)@, r@) == after_xasr(old(self)@),
    {
        match self.purpose {
            Purpose::Validate => {
                let model: String = self.model.clone();
                self.finish(ReadyEngine::XAsr(model))
            },
            _ => {
                self.stage = EngineStage::TakingXAsr;
                EngineAction::TakeXAsr
            },
        }
    }

    fn take_sherpa(&mut self) -> (r: EngineAction)
        ensures
            (final(self)@, r@) == after_sherpa(old(self)@),
    {
        match self.purpose {
            Purpose::Validate => self.finish(ReadyEngine::Sherpa),
            _ => {
                self.stage = EngineStage::TakingSherpa;
                EngineAction::TakeSherpa
            },
        }
    }

    fn take_profile(&mut self, p: LocalModelProfile) -> (r: EngineAction)
        ensures
            (final(self)@, r@) == after_profile(old(self)@, p@),
    {
        match self.purpose {
            Purpose::Quick => self.finish(ReadyEngine::CustomLocal(p)),
            Purpose::Offline => self.finish(ReadyEngine::CustomLocal(p)),
            Purpose::Build => match validate_profile(&p) {
                Err(e) => self.refuse(e),
                Ok(_) => self.finish(ReadyEngine::CustomLocal(p)),
            },
            Purpose::Validate => match validate_profile(&p) {
                Err(e) => self.refuse(e),
                Ok(_) => {
                    self.profile = Some(copy_profile(&p));
                    self.stage = EngineStage::Testing;
                    EngineAction::TestConnection(p)
                },
            },
        }
    }

    fn remote(&self, model: String) -> (r: ReadyEngine)
        ensures
            r@ == remote_ready(self@, model@),
    {
        ReadyEngine::Remote { endpoint: self.endpoint.clone(), model, streaming: self.streaming }
    }

    /// Takes in what happened and says what is to be done next. An event that does not belong
    /// where the run is changes nothing.
    pub fn advance(&mut self, event: EngineEvent) -> (r: EngineAction)
        requires
            engine_event_valid(event@),
        ensures
            (final(self)@, r@) == engine_step(old(self)@, event@),
    {
        match (self.stage, event) {
            (EngineStage::FindingProfile, EngineEvent::Profile(r)) => match r {
                Err(e) => self.refuse(e),
                Ok(p) => self.take_profile(p),
            },
            (EngineStage::Testing, EngineEvent::Tested(r)) => match tested(r) {
                Err(e) => self.refuse(concat2("Custom local ASR is unavailable: ", e.as_str())),
                Ok(_) => {
                    let tested: Option<LocalModelProfile> = match &self.profile {
                        Some(p) => Some(copy_profile(p)),
                        None => None,
                    };
                    match tested {
                        Some(p) => self.finish(ReadyEngine::CustomLocal(p)),
                        None => EngineAction::Nothing,
                    }
                },
            },
            (EngineStage::Initialising, EngineEvent::Initialised(r)) => match r {
                Err(e) => self.refuse(concat2("Failed to init Sherpa-ONNX: ", e.as_str())),
                Ok(_) => {
                    self.stage = EngineStage::CheckingSherpa;
                    EngineAction::CheckSherpa
                },
            },
            (EngineStage::CheckingXAsr, EngineEvent::Loaded(b)) => {
                if b {
                    self.take_xasr()
                } else {
                    self.stage = EngineStage::LoadingXAsr;
                    EngineAction::LoadModel(self.model.clone())
                }
            },
            (EngineStage::LoadingXAsr, EngineEvent::ModelLoaded(r)) => match r {
                Err(e) => {
                    let error: String = match self.purpose {
                        Purpose::Validate => concat2("X-ASR model loading failed: ", e.as_str()),
                        _ => concat2("Failed to load X-ASR model: ", e.as_str()),
                    };
                    self.refuse(error)
                },
                Ok(_) => self.take_xasr(),
            },
            (EngineStage::TakingXAsr, EngineEvent::EngineTaken(r)) => match r {
                Err(e) => self.refuse(concat2("X-ASR engine not ready: ", e.as_str())),
                Ok(_) => {
                    let model: String = self.model.clone();
                    self.finish(ReadyEngine::XAsr(model))
                },
            },
            (EngineStage::CheckingSherpa, EngineEvent::Loaded(b)) => {
                if b {
                    self.take_sherpa()
                } else {
                    self.stage = EngineStage::LoadingSherpa;
                    EngineAction::LoadModel(self.model.clone())
                }
            },
            (EngineStage::LoadingSherpa, EngineEvent::ModelLoaded(r)) => match r {
                Err(e) => {
                    let error: String = match self.purpose {
                        Purpose::Build => concat2("Failed to load Sherpa-ONNX model: ", e.as_str()),
                        Purpose::Offline => {
                            concat2("Failed to load Sherpa-ONNX model: ", e.as_str())
                        },
                        _ => concat3(
                            "Failed to load Sherpa-ONNX model '",
                            self.model.as_str(),
                            concat2("': ", e.as_str()).as_str(),
                        ),
                    };
                    self.refuse(error)
                },
                Ok(_) => self.take_sherpa(),
            },
            (EngineStage::TakingSherpa, EngineEvent::EngineTaken(r)) => match r {
                Err(e) => self.refuse(concat2("Sherpa-ONNX engine not ready: ", e.as_str())),
                Ok(_) => self.finish(ReadyEngine::Sherpa),
            },
            (EngineStage::CheckingHealth, EngineEvent::Healthy(b)) => {
                if b {
                    let engine: ReadyEngine = self.remote(self.remote_model.clone());
                    self.finish(engine)
                } else {
                    let error: String = concat3(
                        "Cannot connect to remote ASR at ",
                        self.endpoint.as_str(),
                        ". Please check the server is running.",
                    );
                    self.refuse(error)
                }
            },
            (EngineStage::Detecting, EngineEvent::Detected(m)) => {
                let model: String = if m.as_str().is_empty() {
                    self.remote_model.clone()
                } else {
                    m
                };
                let engine: ReadyEngine = self.remote(model);
                self.finish(engine)
            },
            (EngineStage::Connecting, EngineEvent::Connected(r)) => match r {
                Err(e) => {
                    let error: String = match self.purpose {
                        Purpose::Offline => concat2(
                            "Failed to initialize remote ASR for retranscription: ",
                            e.as_str(),
                        ),
                        _ => concat2("Failed to initialize remote ASR: ", e.as_str()),
                    };
                    self.refuse(error)
                },
                Ok(_) => {
                    let engine: ReadyEngine = self.remote(self.remote_model.clone());
                    self.finish(engine)
                },
            },
            _ => EngineAction::Nothing,
        }
    }
}

/// Begins to check that a recording can be transcribed by the recognizer that is chosen.
pub fn validate_transcription_model_ready(
    config: Option<TranscriptConfig>,
    remote: &RemoteAsrConfig,
) -> (r: (EngineRun, EngineAction))
    ensures
        (r.0@, r.1@) == first_step(
            fresh_engine(
                Purpose::Validate,
                config_or_default(config_view(config)),
                remote.endpoint@,
                remote.model@,
            ),
            kind_of(config_or_default(config_view(config))),
        ),
{
    let chosen: TranscriptConfig = transcript_config_or_default(config);
    let kind: EngineKind = engine_kind(&chosen);
    EngineRun::begin(Purpose::Validate, chosen, kind, remote)
}

/// Begins to get the recognizer that is chosen ready to transcribe a recording.
pub fn get_or_init_transcription_engine(
    config: Option<TranscriptConfig>,
    remote: &RemoteAsrConfig,
) -> (r: (EngineRun, EngineAction))
    ensures
        (r.0@, r.1@) == first_step(
            fresh_engine(
                Purpose::Build,
                config_or_default(config_view(config)),
                remote.endpoint@,
                remote.model@,
            ),
            kind_of(config_or_default(config_view(config))),
        ),
{
    let chosen: TranscriptConfig = transcript_config_or_default(config);
    let kind: EngineKind = engine_kind(&chosen);
    EngineRun::begin(Purpose::Build, chosen, kind, remote)
}

/// A run after a course of events.
pub open spec fn engine_course(
    start: (EngineRunView, EngineActionView),
    events: Seq<EngineEventView>,
) -> (EngineRunView, EngineActionView)
    decreases events.len(),
{
    if events.len() == 0 {
        start
    } else {
        engine_step(engine_course(start, events.drop_last()).0, events.last())
    }
}

/// Whether the profile of a run can be used.
pub open spec fn profile_checked(run: EngineRunView) -> bool {
    run.profile matches Some(p) ==> custom_local::profile_result(p) is Ok
}

/// A server that the user runs is used for a new recording only where its profile can be used, and
/// thus only on this computer: whatever happens, a run never gives any other as ready.
pub proof fn ready_servers_are_valid(
    purpose: Purpose,
    config: ConfigView,
    kind: EngineKind,
    endpoint: Seq<char>,
    remote_model: Seq<char>,
    events: Seq<EngineEventView>,
)
    requires
        purpose == Purpose::Validate || purpose == Purpose::Build,
    ensures
        ({
            let start = first_step(fresh_engine(purpose, config, endpoint, remote_model), kind);
            let (run, action) = engine_course(start, events);
            &&& profile_checked(run)
            &&& run.purpose == purpose
            &&& action matches EngineActionView::Ready(ReadyView::CustomLocal(p))
                ==> custom_local::profile_result(p) is Ok
        }),
    decreases events.len(),
{
    if events.len() > 0 {
        ready_servers_are_valid(
            purpose,
            config,
            kind,
            endpoint,
            remote_model,
            events.drop_last(),
        );
    }
}

/// A recording can be begun with the server of a usable profile where that server can be reached,
/// also where it does not offer the list of models; and with no other server.
pub proof fn reachable_servers_are_ready(
    config: ConfigView,
    endpoint: Seq<char>,
    remote_model: Seq<char>,
    p: ProfileView,
    answer: Result<u16, Seq<char>>,
)
    requires
        kind_of(config) == EngineKind::CustomLocal,
        custom_local::profile_result(p) is Ok,
    ensures
        ({
            let fresh = fresh_engine(Purpose::Validate, config, endpoint, remote_model);
            let events = seq![EngineEventView::Profile(Ok(p)), EngineEventView::Tested(answer)];
            let (run, action) = engine_course(first_step(fresh, kind_of(config)), events);
            match answer {
                Ok(status) if custom_local::shows_connection(status) => {
                    &&& run.stage == EngineStage::Ready
                    &&& action == EngineActionView::Ready(ReadyView::CustomLocal(p))
                },
                _ => run.stage == EngineStage::Failed && action is Fail,
            }
        }),
{
    let fresh = fresh_engine(Purpose::Validate, config, endpoint, remote_model);
    let events = seq![EngineEventView::Profile(Ok(p)), EngineEventView::Tested(answer)];
    let start = first_step(fresh, kind_of(config));
    assert(events.drop_last() =~= seq![EngineEventView::Profile(Ok(p))]);
    assert(events.drop_last().drop_last() =~= Seq::empty());
    assert(engine_course(start, events.drop_last().drop_last()) == start);
    assert(engine_course(start, events.drop_last()) == engine_step(
        start.0,
        EngineEventView::Profile(Ok(p)),
    ));
}

/// Whether the remote recognizer was found to answer among events.
pub open spec fn found_healthy(events: Seq<EngineEventView>) -> bool {
    exists|i: int| 0 <= i < events.len() && #[trigger] events[i] == EngineEventView::Healthy(true)
}

/// A recording is not begun with a remote recognizer that does not answer: it is ready only where
/// it was asked and answered.
pub proof fn silent_recognizers_are_refused(
    config: ConfigView,
    endpoint: Seq<char>,
    remote_model: Seq<char>,
    events: Seq<EngineEventView>,
)
    requires
        kind_of(config) is Remote,
    ensures
        ({
            let fresh = fresh_engine(Purpose::Validate, config, endpoint, remote_model);
            let run = engine_course(first_step(fresh, kind_of(config)), events).0;
            &&& run.stage == EngineStage::CheckingHealth || run.stage == EngineStage::Failed
                || run.stage == EngineStage::Ready
            &&& run.stage == EngineStage::Ready ==> found_healthy(events) && endpoint.len() > 0
        }),
    decreases events.len(),
{
    if events.len() > 0 {
        let shorter = events.drop_last();
        silent_recognizers_are_refused(config, endpoint, remote_model, shorter);
        assert(events[events.len() - 1] == events.last());
        if found_healthy(shorter) {
            let i = choose|i: int|
                0 <= i < shorter.len() && #[trigger] shorter[i] == EngineEventView::Healthy(true);
            assert(events[i] == shorter[i]);
        }
        let fresh = fresh_engine(Purpose::Validate, config, endpoint, remote_model);
        let before = engine_course(first_step(fresh, kind_of(config)), shorter).0;
        if before.stage == EngineStage::CheckingHealth {
            match events.last() {
                EngineEventView::Healthy(b) => {
                    if b {
                        assert(found_healthy(events));
                    }
                },
                _ => {},
            }
        }
        health_checks_have_an_address(config, endpoint, remote_model, shorter);
    }
}

proof fn health_checks_have_an_address(
    config: ConfigView,
    endpoint: Seq<char>,
    remote_model: Seq<char>,
    events: Seq<EngineEventView>,
)
    requires
        kind_of(config) is Remote,
    ensures
        ({
            let fresh = fresh_engine(Purpose::Validate, config, endpoint, remote_model);
            let run = engine_course(first_step(fresh, kind_of(config)), events).0;
            &&& run.stage == EngineStage::CheckingHealth || run.stage == EngineStage::Failed
                || run.stage == EngineStage::Ready
            &&& run.stage != EngineStage::Failed ==> endpoint.len() > 0
        }),
    decreases events.len(),
{
    if events.len() > 0 {
        health_checks_have_an_address(config, endpoint, remote_model, events.drop_last());
    }
}

/// A run that has ended does not go on.
pub proof fn ended_engine_runs_do_not_change(run: EngineRunView, event: EngineEventView)
    requires
        run.stage == EngineStage::Ready || run.stage == EngineStage::Failed,
    ensures
        engine_step(run, event) == (run, EngineActionView::Nothing),
{
}

/// Which recognizer a choice stands for: a custom server by its provider; else X-ASR by a model
/// that begins with its name; else the remote one by its provider or by a model that begins with
/// its name, streaming where the model says so; else the built-in one by its provider.
pub proof fn choices_name_their_recognizer(config: ConfigView)
    ensures
        ({
            let xasr = exists|rest: Seq<char>| config.model == #[trigger] ("x-asr-"@ + rest);
            let remote = config.provider == "remote-qwen3-asr"@ || exists|rest: Seq<char>|
                config.model == #[trigger] ("qwen3-asr-remote"@ + rest);
            kind_of(config) == (if config.provider == "custom-local"@ {
                EngineKind::CustomLocal
            } else if xasr {
                EngineKind::XAsr
            } else if remote {
                EngineKind::Remote { streaming: text::occurs_in("streaming"@, config.model) }
            } else if config.provider == "sherpaonnx"@ {
                EngineKind::Sherpa
            } else {
                EngineKind::Unsupported
            })
        }),
{
    let m = config.model;
    if "x-asr-"@.is_prefix_of(m) {
        assert(m =~= "x-asr-"@ + m.skip("x-asr-"@.len() as int));
    }
    if exists|rest: Seq<char>| m == #[trigger] ("x-asr-"@ + rest) {
        let rest = choose|rest: Seq<char>| m == #[trigger] ("x-asr-"@ + rest);
        assert("x-asr-"@.is_prefix_of("x-asr-"@ + rest));
    }
    if "qwen3-asr-remote"@.is_prefix_of(m) {
        assert(m =~= "qwen3-asr-remote"@ + m.skip("qwen3-asr-remote"@.len() as int));
    }
    if exists|rest: Seq<char>| m == #[trigger] ("qwen3-asr-remote"@ + rest) {
        let rest = choose|rest: Seq<char>| m == #[trigger] ("qwen3-asr-remote"@ + rest);
        assert("qwen3-asr-remote"@.is_prefix_of("qwen3-asr-remote"@ + rest));
    }
}

/// Without a choice it is the built-in recognizer with its usual model.
pub proof fn the_built_in_recognizer_is_the_default(config: ConfigView)
    ensures
        config_or_default(Some(config)) == config,
        kind_of(config_or_default(None)) == EngineKind::Sherpa,
        config_or_default(None).model == "sense-voice"@,
        config_or_default(None).provider == "sherpaonnx"@,
{
    reveal_strlit("sherpaonnx");
    reveal_strlit("sense-voice");
    reveal_strlit("custom-local");
    reveal_strlit("x-asr-");
    reveal_strlit("qwen3-asr-remote");
    reveal_strlit("remote-qwen3-asr");
    assert("sherpaonnx"@.len() == 10);
    assert("custom-local"@.len() == 12);
    assert("remote-qwen3-asr"@.len() == 16);
    assert("sense-voice"@[0] == 's');
    assert("x-asr-"@[0] == 'x');
    assert("qwen3-asr-remote"@[0] == 'q');
}

/// Whether a run keeps to one kind of recognizer: it is at a stage of that kind, and what it was
/// begun with is unchanged.
pub open spec fn keeps_to(
    run: EngineRunView,
    purpose: Purpose,
    config: ConfigView,
    kind: EngineKind,
    endpoint: Seq<char>,
    remote_model: Seq<char>,
) -> bool {
    &&& run.purpose == purpose
    &&& run.model == config.model
    &&& run.endpoint == endpoint
    &&& run.remote_model == remote_model
    &&& run.stage == EngineStage::Ready || run.stage == EngineStage::Failed || match kind {
        EngineKind::CustomLocal => run.stage == EngineStage::FindingProfile || (run.stage
            == EngineStage::Testing && purpose == Purpose::Validate),
        EngineKind::XAsr => run.stage == EngineStage::CheckingXAsr || run.stage
            == EngineStage::LoadingXAsr || (run.stage == EngineStage::TakingXAsr && purpose
            != Purpose::Validate),
        EngineKind::Remote { streaming } => run.streaming == streaming && run.stage == (
        match purpose {
            Purpose::Validate => EngineStage::CheckingHealth,
            Purpose::Build => EngineStage::Detecting,
            _ => EngineStage::Connecting,
        }),
        EngineKind::Sherpa => (run.stage == EngineStage::Initialising && purpose
            == Purpose::Validate) || run.stage == EngineStage::CheckingSherpa || run.stage
            == EngineStage::LoadingSherpa || (run.stage == EngineStage::TakingSherpa && purpose
            != Purpose::Validate),
        EngineKind::Unsupported => false,
    }
}

/// Whatever happens while a recognizer is got ready, it is the one that was begun with: only its
/// own kind is asked for, with its own model and address, and only its own kind is ever ready.
pub proof fn runs_keep_to_their_recognizer(
    purpose: Purpose,
    config: ConfigView,
    kind: EngineKind,
    endpoint: Seq<char>,
    remote_model: Seq<char>,
    events: Seq<EngineEventView>,
)
    ensures
        ({
            let start = first_step(fresh_engine(purpose, config, endpoint, remote_model), kind);
            let (run, action) = engine_course(start, events);
            &&& keeps_to(run, purpose, config, kind, endpoint, remote_model)
            &&& match action {
                EngineActionView::Fail(_) => true,
                EngineActionView::Nothing => true,
                EngineActionView::Ready(ReadyView::XAsr(m)) => kind == EngineKind::XAsr && m
                    == config.model,
                EngineActionView::CheckXAsr => kind == EngineKind::XAsr,
                EngineActionView::TakeXAsr => kind == EngineKind::XAsr && purpose
                    != Purpose::Validate,
                EngineActionView::LoadModel(m) => (kind == EngineKind::XAsr || kind
                    == EngineKind::Sherpa) && m == config.model,
                EngineActionView::Ready(ReadyView::Sherpa) => kind == EngineKind::Sherpa,
                EngineActionView::Initialise => kind == EngineKind::Sherpa && purpose
                    == Purpose::Validate,
                EngineActionView::CheckSherpa => kind == EngineKind::Sherpa,
                EngineActionView::TakeSherpa => kind == EngineKind::Sherpa && purpose
                    != Purpose::Validate,
                EngineActionView::Ready(ReadyView::Remote { endpoint: e, model, streaming }) => kind
                    == (EngineKind::Remote { streaming }) && e == endpoint && (model == remote_model
                    || purpose == Purpose::Build && events.last() == EngineEventView::Detected(model)),
                EngineActionView::CheckHealth { endpoint: e, model, streaming } => kind == (
                EngineKind::Remote { streaming }) && e == endpoint && model == remote_model
                    && purpose == Purpose::Validate,
                EngineActionView::DetectModel { endpoint: e, model, streaming } => kind == (
                EngineKind::Remote { streaming }) && e == endpoint && model == remote_model
                    && purpose == Purpose::Build,
                EngineActionView::Connect { endpoint: e, model } => kind is Remote && e == endpoint
                    && model == remote_model && (purpose == Purpose::Quick || purpose
                    == Purpose::Offline),
                EngineActionView::Ready(ReadyView::CustomLocal(_)) => kind
                    == EngineKind::CustomLocal,
                EngineActionView::FindProfile(id) => kind == EngineKind::CustomLocal && id
                    == config.model,
                EngineActionView::TestConnection(_) => kind == EngineKind::CustomLocal && purpose
                    == Purpose::Validate,
            }
        }),
    decreases events.len(),
{
    if events.len() > 0 {
        runs_keep_to_their_recognizer(
            purpose,
            config,
            kind,
            endpoint,
            remote_model,
            events.drop_last(),
        );
    }
}

/// X-ASR gets ready, also where its model first has to be loaded; for a recording that is only
/// checked that is enough, else it is taken hold of as well.
pub proof fn xasr_gets_ready(
    purpose: Purpose,
    config: ConfigView,
    endpoint: Seq<char>,
    remote_model: Seq<char>,
    loaded: bool,
)
    ensures
        ({
            let (asked, first) = first_step(
                fresh_engine(purpose, config, endpoint, remote_model),
                EngineKind::XAsr,
            );
            let (checked, second) = engine_step(asked, EngineEventView::Loaded(loaded));
            let (there, third) = if loaded {
                (checked, second)
            } else {
                engine_step(checked, EngineEventView::ModelLoaded(Ok(())))
            };
            let (_, fourth) = engine_step(there, EngineEventView::EngineTaken(Ok(())));
            &&& first == EngineActionView::CheckXAsr
            &&& !loaded ==> second == EngineActionView::LoadModel(config.model)
            &&& if purpose == Purpose::Validate {
                third == EngineActionView::Ready(ReadyView::XAsr(config.model))
            } else {
                third == EngineActionView::TakeXAsr && fourth == EngineActionView::Ready(
                    ReadyView::XAsr(config.model),
                )
            }
        }),
{
}

/// The built-in recognizer gets ready, also where its model first has to be loaded; before a
/// recording it is set up first, and need not be taken hold of.
pub proof fn the_built_in_recognizer_gets_ready(
    purpose: Purpose,
    config: ConfigView,
    endpoint: Seq<char>,
    remote_model: Seq<char>,
    loaded: bool,
)
    ensures
        ({
            let (asked, first) = first_step(
                fresh_engine(purpose, config, endpoint, remote_model),
                EngineKind::Sherpa,
            );
            let (up, zeroth) = if purpose == Purpose::Validate {
                engine_step(asked, EngineEventView::Initialised(Ok(())))
            } else {
                (asked, first)
            };
            let (checked, second) = engine_step(up, EngineEventView::Loaded(loaded));
            let (there, third) = if loaded {
                (checked, second)
            } else {
                engine_step(checked, EngineEventView::ModelLoaded(Ok(())))
            };
            let (_, fourth) = engine_step(there, EngineEventView::EngineTaken(Ok(())));
            &&& purpose == Purpose::Validate ==> first == EngineActionView::Initialise
            &&& zeroth == EngineActionView::CheckSherpa
            &&& !loaded ==> second == EngineActionView::LoadModel(config.model)
            &&& if purpose == Purpose::Validate {
                third == EngineActionView::Ready(ReadyView::Sherpa)
            } else {
                third == EngineActionView::TakeSherpa && fourth == EngineActionView::Ready(
                    ReadyView::Sherpa,
                )
            }
        }),
{
}

/// The remote recognizer gets ready where it is set and answers: before a recording it is asked
/// whether it is well, to transcribe one which model it has, and elsewhere it is connected to.
/// Without an address it is refused, unless the recording has already been let through.
pub proof fn the_remote_recognizer_gets_ready(
    purpose: Purpose,
    config: ConfigView,
    endpoint: Seq<char>,
    remote_model: Seq<char>,
    streaming: bool,
    detected: Seq<char>,
)
    ensures
        ({
            let (asked, first) = first_step(
                fresh_engine(purpose, config, endpoint, remote_model),
                EngineKind::Remote { streaming },
            );
            let ready_with = |m: Seq<char>|
                EngineActionView::Ready(ReadyView::Remote { endpoint, model: m, streaming });
            if purpose == Purpose::Build {
                &&& first == (EngineActionView::DetectModel {
                    endpoint,
                    model: remote_model,
                    streaming,
                })
                &&& engine_step(asked, EngineEventView::Detected(detected)).1 == ready_with(
                    if detected.len() == 0 {
                        remote_model
                    } else {
                        detected
                    },
                )
            } else if endpoint.len() == 0 {
                first == EngineActionView::Fail(
                    "Remote ASR endpoint not configured. Please set the remote ASR URL in Settings."@,
                )
            } else if purpose == Purpose::Validate {
                &&& first == (EngineActionView::CheckHealth {
                    endpoint,
                    model: remote_model,
                    streaming,
                })
                &&& engine_step(asked, EngineEventView::Healthy(true)).1 == ready_with(remote_model)
                &&& engine_step(asked, EngineEventView::Healthy(false)).1
                    == EngineActionView::Fail(
                    "Cannot connect to remote ASR at "@ + endpoint
                        + ". Please check the server is running."@,
                )
            } else {
                &&& first == (EngineActionView::Connect { endpoint, model: remote_model })
                &&& engine_step(asked, EngineEventView::Connected(Ok(()))).1 == ready_with(
                    remote_model,
                )
            }
        }),
{
}

/// The server of a profile gets ready where the profile can be used; before a recording it must
/// also have answered the connection test, if only with the word that it has no list of models. A
/// short clip or a stored recording leaves the profile to the request itself.
pub proof fn custom_servers_get_ready(
    purpose: Purpose,
    config: ConfigView,
    endpoint: Seq<char>,
    remote_model: Seq<char>,
    p: ProfileView,
    status: u16,
)
    ensures
        ({
            let (asked, first) = first_step(
                fresh_engine(purpose, config, endpoint, remote_model),
                EngineKind::CustomLocal,
            );
            let (found, second) = engine_step(asked, EngineEventView::Profile(Ok(p)));
            let (_, third) = engine_step(found, EngineEventView::Tested(Ok(status)));
            let ready = EngineActionView::Ready(ReadyView::CustomLocal(p));
            &&& first == EngineActionView::FindProfile(config.model)
            &&& if purpose == Purpose::Quick || purpose == Purpose::Offline {
                second == ready
            } else {
                match custom_local::profile_result(p) {
                    Err(e) => second == EngineActionView::Fail(e),
                    Ok(_) => if purpose == Purpose::Build {
                        second == ready
                    } else {
                        &&& second == EngineActionView::TestConnection(p)
                        &&& if 200 <= status <= 299 || status == 404 || status == 405 {
                            third == ready
                        } else {
                            third is Fail
                        }
                    },
                }
            }
        }),
{
}

/// Whether a message ends with a reason.
pub open spec fn carries(message: Seq<char>, reason: Seq<char>) -> bool {
    reason.len() <= message.len() && message.skip(message.len() - reason.len()) == reason
}

/// Whatever goes wrong while a recognizer is got ready ends the run, with a message that carries
/// the reason.
pub proof fn failures_end_engine_runs(run: EngineRunView, reason: Seq<char>)
    ensures
        ({
            let ends = |event: EngineEventView|
                {
                    let (after, action) = engine_step(run, event);
                    &&& after.stage == EngineStage::Failed
                    &&& action matches EngineActionView::Fail(e) && carries(e, reason)
                };
            match run.stage {
                EngineStage::FindingProfile => ends(EngineEventView::Profile(Err(reason))),
                EngineStage::Testing => ends(EngineEventView::Tested(Err(reason))),
                EngineStage::Initialising => ends(EngineEventView::Initialised(Err(reason))),
                EngineStage::LoadingXAsr => ends(EngineEventView::ModelLoaded(Err(reason))),
                EngineStage::LoadingSherpa => ends(EngineEventView::ModelLoaded(Err(reason))),
                EngineStage::TakingXAsr => ends(EngineEventView::EngineTaken(Err(reason))),
                EngineStage::TakingSherpa => ends(EngineEventView::EngineTaken(Err(reason))),
                EngineStage::Connecting => ends(EngineEventView::Connected(Err(reason))),
                _ => true,
            }
        }),
{
    carried("Custom local ASR is unavailable: "@, reason);
    carried("Failed to init Sherpa-ONNX: "@, reason);
    carried("X-ASR model loading failed: "@, reason);
    carried("Failed to load X-ASR model: "@, reason);
    carried("X-ASR engine not ready: "@, reason);
    carried("Failed to load Sherpa-ONNX model: "@, reason);
    let named = "Failed to load Sherpa-ONNX model '"@ + run.model;
    assert(named + ("': "@ + reason) =~= (named + "': "@) + reason);
    carried(named + "': "@, reason);
    carried("Sherpa-ONNX engine not ready: "@, reason);
    carried("Failed to initialize remote ASR for retranscription: "@, reason);
    carried("Failed to initialize remote ASR: "@, reason);
    assert(reason.skip(0) =~= reason);
}

/// A message made of a start and a reason carries the reason.
pub proof fn carried(start: Seq<char>, reason: Seq<char>)
    ensures
        carries(start + reason, reason),
        carries(reason, reason),
{
    assert((start + reason).skip(start.len() as int) =~= reason);
    assert(reason.skip(0) =~= reason);
}

/// A time of day has two digits each for the hour, the minute and the second, with colons between
/// them, and says how long ago midnight was.
pub proof fn times_of_day_are_exact(secs: nat)
    ensures
        ({
            let t = clock_text(secs);
            let hour = t.subrange(0, 2);
            let minute = t.subrange(3, 5);
            let second = t.subrange(6, 8);
            &&& t.len() == 8 && t[2] == ':' && t[5] == ':'
            &&& text::all_digits(hour) && text::all_digits(minute) && text::all_digits(second)
            &&& text::value_of(minute) < 60 && text::value_of(second) < 60
            &&& text::value_of(hour) * 3600 + text::value_of(minute) * 60 + text::value_of(second)
                == secs % 86400
        }),
{
    reveal_strlit(":");
    let t = clock_text(secs);
    let h = (secs / 3600) % 24;
    let m = (secs / 60) % 60;
    let s = secs % 60;
    text::two_digits_have_their_value(h);
    text::two_digits_have_their_value(m);
    text::two_digits_have_their_value(s);
    assert(t.subrange(0, 2) =~= text::two_digits(h));
    assert(t.subrange(3, 5) =~= text::two_digits(m));
    assert(t.subrange(6, 8) =~= text::two_digits(s));
    let days = secs / 86400;
    let rest = secs % 86400;
    assert(secs / 3600 == 24 * days + rest / 3600);
    assert(secs / 60 == 1440 * days + rest / 60);
    assert((24 * days + rest / 3600) % 24 == rest / 3600);
    assert((1440 * days + rest / 60) % 60 == (rest / 60) % 60);
}

/// What callers are told where a recognizer cannot be got ready says which one, and why.
pub proof fn failures_name_the_recognizer(run: EngineRunView, reason: Seq<char>, status: u16)
    ensures
        ({
            let tells = |event: EngineEventView, words: Seq<char>|
                {
                    let (after, action) = engine_step(run, event);
                    &&& after == (EngineRunView { stage: EngineStage::Failed, ..run })
                    &&& action == EngineActionView::Fail(words)
                };
            let checking = run.purpose == Purpose::Validate;
            match run.stage {
                EngineStage::FindingProfile => tells(EngineEventView::Profile(Err(reason)), reason),
                EngineStage::Testing => {
                    &&& tells(
                        EngineEventView::Tested(Err(reason)),
                        "Custom local ASR is unavailable: "@ + reason,
                    )
                    &&& !(200 <= status <= 299) && status != 404 && status != 405 ==> tells(
                        EngineEventView::Tested(Ok(status)),
                        "Custom local ASR is unavailable: "@ + ("GET /models returned HTTP "@
                            + http::status_line_text(status)),
                    )
                },
                EngineStage::Initialising => tells(
                    EngineEventView::Initialised(Err(reason)),
                    "Failed to init Sherpa-ONNX: "@ + reason,
                ),
                EngineStage::LoadingXAsr => tells(
                    EngineEventView::ModelLoaded(Err(reason)),
                    (if checking {
                        "X-ASR model loading failed: "@
                    } else {
                        "Failed to load X-ASR model: "@
                    }) + reason,
                ),
                EngineStage::LoadingSherpa => if checking || run.purpose == Purpose::Quick {
                    tells(
                        EngineEventView::ModelLoaded(Err(reason)),
                        "Failed to load Sherpa-ONNX model '"@ + run.model + "': "@ + reason,
                    )
                } else {
                    tells(
                        EngineEventView::ModelLoaded(Err(reason)),
                        "Failed to load Sherpa-ONNX model: "@ + reason,
                    )
                },
                EngineStage::TakingXAsr => tells(
                    EngineEventView::EngineTaken(Err(reason)),
                    "X-ASR engine not ready: "@ + reason,
                ),
                EngineStage::TakingSherpa => tells(
                    EngineEventView::EngineTaken(Err(reason)),
                    "Sherpa-ONNX engine not ready: "@ + reason,
                ),
                EngineStage::Connecting => tells(
                    EngineEventView::Connected(Err(reason)),
                    (if run.purpose == Purpose::Offline {
                        "Failed to initialize remote ASR for retranscription: "@
                    } else {
                        "Failed to initialize remote ASR: "@
                    }) + reason,
                ),
                _ => true,
            }
        }),
{
    let named = "Failed to load Sherpa-ONNX model '"@ + run.model;
    assert(named + ("': "@ + reason) =~= named + "': "@ + reason);
}

/// A provider that is not known is refused by its name.
pub proof fn unknown_providers_are_refused(
    purpose: Purpose,
    config: ConfigView,
    endpoint: Seq<char>,
    remote_model: Seq<char>,
)
    ensures
        ({
            let (run, action) = first_step(
                fresh_engine(purpose, config, endpoint, remote_model),
                EngineKind::Unsupported,
            );
            &&& run.stage == EngineStage::Failed
            &&& action == EngineActionView::Fail(
                "Provider '"@ + config.provider
                    + "' is not supported. Use 'sherpaonnx', 'x-asr', or 'remote-qwen3-asr'."@,
            )
        }),
{
}

/// What does not belong where a run is leaves it as it is, and nothing is to be done.
pub proof fn other_events_leave_engine_runs_alone(run: EngineRunView, event: EngineEventView)
    requires
        match run.stage {
            EngineStage::FindingProfile => !(event is Profile),
            EngineStage::Testing => !(event is Tested),
            EngineStage::Initialising => !(event is Initialised),
            EngineStage::CheckingXAsr | EngineStage::CheckingSherpa => !(event is Loaded),
            EngineStage::LoadingXAsr | EngineStage::LoadingSherpa => !(event is ModelLoaded),
            EngineStage::TakingXAsr | EngineStage::TakingSherpa => !(event is EngineTaken),
            EngineStage::CheckingHealth => !(event is Healthy),
            EngineStage::Detecting => !(event is Detected),
            EngineStage::Connecting => !(event is Connected),
            EngineStage::Ready | EngineStage::Failed => true,
        },
    ensures
        engine_step(run, event) == (run, EngineActionView::Nothing),
{
}

/// A server that the user runs is shown under the name of its profile, and always counts as
/// loaded.
pub proof fn custom_servers_go_by_their_profile(server: CustomLocalAsrProvider)
    ensures
        server.model() == Some(server.profile.name@),
        server.name() == "Custom local ASR"@,
        server.loaded(),
{
}

} // verus!

//! Offline transcription of a stored recording: which recognizer is used, how the run proceeds
//! from stage to stage, and what it collects.

use vstd::prelude::*;

use crate::chunk_plan;
use crate::chunk_plan::{merge_segments, separate_segments, Chunk, ChunkView, SAMPLE_RATE};
use crate::text;
use crate::text::{concat2, is_text, listed, lowercase, starts_with, trim};
use crate::transcription;
use crate::transcription::{
    EngineAction, EngineKind, EngineRun, Purpose, RemoteAsrConfig, TranscriptConfig,
};

verus! {

/// The error given while a run is under way.
pub open spec fn already_running() -> Seq<char> {
    "Retranscription already in progress"@
}

/// Whether a run is under way, and whether it has been asked to stop.
#[derive(Clone, Copy, Debug, PartialEq, Eq, Structural)]
pub struct RetranscriptionFlags {
    pub in_progress: bool,
    pub cancelled: bool,
}

/// The reason why a run failed, as it is reported.
#[derive(Clone, Debug)]
pub struct RetranscriptionError {
    pub meeting_id: String,
    pub error: String,
}

/// The answer to a request that started a run.
#[derive(Clone, Debug)]
pub struct RetranscriptionStarted {
    pub meeting_id: String,
    pub message: String,
}

impl RetranscriptionFlags {
    /// No run under way.
    pub fn new() -> (r: Self)
        ensures
            !r.in_progress && !r.cancelled,
    {
        RetranscriptionFlags { in_progress: false, cancelled: false }
    }

    /// Claims the one run that may be under way.
    pub fn acquire(&mut self) -> (r: Result<(), String>)
        ensures
            old(self).in_progress ==> text::unit_result(r) == Err::<(), Seq<char>>(already_running())
                && *final(self) == *old(self),
            !old(self).in_progress ==> r is Ok && final(self).in_progress && final(self).cancelled
                == old(self).cancelled,
    {
        if self.in_progress {
            return Err("Retranscription already in progress".to_owned());
        }
        self.in_progress = true;
        Ok(())
    }

    /// Gives the run up, so that another can be claimed.
    pub fn release(&mut self)
        ensures
            !final(self).in_progress,
            final(self).cancelled == old(self).cancelled,
    {
        self.in_progress = false;
    }

    /// Claims the run and forgets an earlier request to stop.
    pub fn begin(&mut self) -> (r: Result<(), String>)
        ensures
            old(self).in_progress ==> text::unit_result(r) == Err::<(), Seq<char>>("Retranscription already in progress"@)
                && *final(self) == *old(self),
            !old(self).in_progress ==> r is Ok && final(self).in_progress && !final(self).cancelled,
    {
        let claimed: Result<(), String> = self.acquire();
        if claimed.is_ok() {
            self.cancelled = false;
        }
        claimed
    }
}

/// Whether a run is under way.
pub fn is_retranscription_in_progress(flags: &RetranscriptionFlags) -> (r: bool)
    ensures
        r == flags.in_progress,
{
    flags.in_progress
}

/// Asks the run to stop.
pub fn cancel_retranscription(flags: &mut RetranscriptionFlags)
    ensures
        final(flags).cancelled,
        final(flags).in_progress == old(flags).in_progress,
{
    flags.cancelled = true;
}

/// Asks the run to stop, where one is under way.
pub fn cancel_retranscription_command(flags: &mut RetranscriptionFlags) -> (r: Result<(), String>)
    ensures
        old(flags).in_progress ==> r is Ok && final(flags).cancelled && final(flags).in_progress,
        !old(flags).in_progress ==> *final(flags) == *old(flags) && text::unit_result(r) == Err::<
            (),
            Seq<char>,
        >("No retranscription in progress"@),
{
    if !is_retranscription_in_progress(flags) {
        return Err("No retranscription in progress".to_owned());
    }
    cancel_retranscription(flags);
    Ok(())
}

/// The answer to a request for a run, which starts in the background.
pub fn start_retranscription_command(flags: &RetranscriptionFlags, meeting_id: &str) -> (r: Result<
    RetranscriptionStarted,
    String,
>)
    ensures
        flags.in_progress ==> (r matches Err(e) && e@ == "Retranscription already in progress"@),
        !flags.in_progress ==> (r matches Ok(s) && s.meeting_id@ == meeting_id@ && s.message@
            == "Retranscription started"@),
{
    if flags.in_progress {
        return Err("Retranscription already in progress".to_owned());
    }
    Ok(
        RetranscriptionStarted {
            meeting_id: meeting_id.to_owned(),
            message: "Retranscription started".to_owned(),
        },
    )
}

/// Which recognizers a request names. Both can be named at once.
#[derive(Clone, Copy, Debug, PartialEq, Eq, Structural)]
pub struct AsrRoute {
    pub remote: bool,
    pub xasr: bool,
}

/// Whether a model name begins with the given text.
pub open spec fn model_begins(model: Option<Seq<char>>, prefix: Seq<char>) -> bool {
    model matches Some(m) && prefix.is_prefix_of(m)
}

/// Which recognizers a request names.
pub open spec fn route_of(model: Option<Seq<char>>, provider: Option<Seq<char>>) -> AsrRoute {
    AsrRoute {
        remote: provider == Some("remote"@) || model_begins(model, "qwen3-asr-remote"@),
        xasr: model_begins(model, "x-asr-"@),
    }
}

fn begins(model: Option<&str>, prefix: &str) -> (r: bool)
    ensures
        r == model_begins(text::opt_str(model), prefix@),
{
    match model {
        Some(m) => starts_with(m, prefix),
        None => false,
    }
}

/// Which recognizers a request names.
pub fn asr_route(model: Option<&str>, provider: Option<&str>) -> (r: AsrRoute)
    ensures
        r == route_of(text::opt_str(model), text::opt_str(provider)),
{
    AsrRoute {
        remote: is_text(provider, "remote") || begins(model, "qwen3-asr-remote"),
        xasr: begins(model, "x-asr-"),
    }
}

/// The expected processing time per second of audio, in thousandths, where no benchmark is at
/// hand.
pub fn default_rtf(model: Option<&str>, provider: Option<&str>) -> (r: u32)
    ensures
        ({
            let route = route_of(text::opt_str(model), text::opt_str(provider));
            r == if route.remote {
                80u32
            } else if route.xasr {
                30u32
            } else {
                350u32
            }
        }),
{
    let route: AsrRoute = asr_route(model, provider);
    if route.remote {
        80
    } else if route.xasr {
        30
    } else {
        350
    }
}

/// How speech is detected: how long a pause must be to end a segment, and, where the defaults
/// are not used, the thresholds in thousandths at which speech begins and ends.
#[derive(Clone, Copy, Debug, PartialEq, Eq)]
pub struct VadSettings {
    pub redemption_ms: u32,
    pub thresholds: Option<(u32, u32)>,
}

/// How speech is detected for a recognizer: the local one uses a more sensitive pass.
pub fn vad_settings(route: AsrRoute) -> (r: VadSettings)
    ensures
        route.remote || route.xasr ==> r == (VadSettings { redemption_ms: 1500, thresholds: None }),
        !route.remote && !route.xasr ==> r == (VadSettings {
            redemption_ms: 800,
            thresholds: Some((350, 250)),
        }),
{
    if route.remote || route.xasr {
        VadSettings { redemption_ms: 1500, thresholds: None }
    } else {
        VadSettings { redemption_ms: 800, thresholds: Some((350, 250)) }
    }
}

/// The longest chunk, in seconds, that a recognizer is given.
pub open spec fn chunk_seconds(route: AsrRoute) -> int {
    if route.remote || route.xasr {
        600
    } else {
        120
    }
}

/// The longest chunk, in samples, that a recognizer is given.
pub fn chunk_samples(route: AsrRoute) -> (r: usize)
    ensures
        r == chunk_seconds(route) * SAMPLE_RATE,
{
    if route.remote || route.xasr {
        600 * SAMPLE_RATE
    } else {
        120 * SAMPLE_RATE
    }
}

/// The chunks that the detected segments are transcribed in: merged for the remote recognizer
/// and for X-ASR, one by one for the local recognizer.
pub open spec fn planned_chunks(
    route: AsrRoute,
    lens: Seq<usize>,
    ranges: Seq<Seq<(usize, usize)>>,
) -> Seq<ChunkView> {
    let limit = chunk_seconds(route) * SAMPLE_RATE;
    if route.remote || route.xasr {
        chunk_plan::merged_chunks(lens, ranges, limit)
    } else {
        chunk_plan::separate_chunks(lens, ranges, limit, lens.len() as int)
    }
}

/// The chunks that the detected segments are transcribed in.
///
/// `ranges` holds, for each segment longer than a chunk, the sample ranges it is cut into.
pub fn plan_chunks(route: AsrRoute, lens: &Vec<usize>, ranges: &Vec<Vec<(usize, usize)>>) -> (r: Vec<
    Chunk,
>)
    requires
        ranges@.len() == lens@.len(),
    ensures
        chunk_plan::chunk_views(r@) == planned_chunks(route, lens@, chunk_plan::range_views(ranges@)),
{
    let limit: usize = chunk_samples(route);
    if route.remote || route.xasr {
        merge_segments(lens, ranges, limit)
    } else {
        separate_segments(lens, ranges, limit)
    }
}

/// The recognizer that transcribes the chunks.
#[derive(Clone, Debug)]
pub enum EngineChoice {
    /// X-ASR with the named model.
    XAsr(String),
    /// The custom local server whose profile has this identifier.
    CustomLocal(String),
    /// The configured remote server.
    Remote,
    /// The local engine with the named model.
    Sherpa(String),
}

/// A recognizer as a mathematical value.
pub enum EngineChoiceView {
    XAsr(Seq<char>),
    CustomLocal(Seq<char>),
    Remote,
    Sherpa(Seq<char>),
}

impl View for EngineChoice {
    type V = EngineChoiceView;

    open spec fn view(&self) -> EngineChoiceView {
        match *self {
            EngineChoice::XAsr(m) => EngineChoiceView::XAsr(m@),
            EngineChoice::CustomLocal(m) => EngineChoiceView::CustomLocal(m@),
            EngineChoice::Remote => EngineChoiceView::Remote,
            EngineChoice::Sherpa(m) => EngineChoiceView::Sherpa(m@),
        }
    }
}

/// The recognizer for a request, or the reason why there is none.
pub open spec fn chosen_engine(
    model: Option<Seq<char>>,
    provider: Option<Seq<char>>,
    endpoint: Seq<char>,
) -> Result<EngineChoiceView, Seq<char>> {
    let route = route_of(model, provider);
    if route.xasr {
        Ok(EngineChoiceView::XAsr(model->0))
    } else if provider == Some("custom-local"@) {
        match model {
            Some(id) => Ok(EngineChoiceView::CustomLocal(id)),
            None => Err("Missing custom ASR profile ID"@),
        }
    } else if route.remote {
        if endpoint.len() == 0 {
            Err(endpoint_missing())
        } else {
            Ok(EngineChoiceView::Remote)
        }
    } else {
        match model {
            Some(m) => Ok(EngineChoiceView::Sherpa(m)),
            None => Ok(EngineChoiceView::Sherpa("sense-voice"@)),
        }
    }
}

/// Whether a request is one for a custom local server.
pub open spec fn uses_custom_local(model: Option<Seq<char>>, provider: Option<Seq<char>>) -> bool {
    !route_of(model, provider).xasr && provider == Some("custom-local"@)
}

/// The error given where the remote recognizer is wanted but no address is configured.
pub open spec fn endpoint_missing() -> Seq<char> {
    "Remote ASR endpoint not configured. Please set the remote ASR URL in Settings."@
}

/// The text of [`endpoint_missing`].
pub fn endpoint_missing_text() -> (r: String)
    ensures
        r@ == endpoint_missing(),
{
    "Remote ASR endpoint not configured. Please set the remote ASR URL in Settings.".to_owned()
}

/// The recognizer for a request, or the reason why there is none.
pub fn choose_engine(model: Option<&str>, provider: Option<&str>, endpoint: &str) -> (r: Result<
    EngineChoice,
    String,
>)
    ensures
        (match r {
            Ok(c) => Ok(c@),
            Err(e) => Err(e@),
        }) == chosen_engine(text::opt_str(model), text::opt_str(provider), endpoint@),
{
    let route: AsrRoute = asr_route(model, provider);
    match model {
        Some(m) if route.xasr => {
            return Ok(EngineChoice::XAsr(m.to_owned()));
        },
        _ => {},
    }
    if is_text(provider, "custom-local") {
        return match model {
            Some(id) => Ok(EngineChoice::CustomLocal(id.to_owned())),
            None => Err("Missing custom ASR profile ID".to_owned()),
        };
    }
    if route.remote {
        if endpoint.is_empty() {
            return Err(endpoint_missing_text());
        }
        return Ok(EngineChoice::Remote);
    }
    match model {
        Some(m) => Ok(EngineChoice::Sherpa(m.to_owned())),
        None => Ok(EngineChoice::Sherpa("sense-voice".to_owned())),
    }
}

/// The recognizer's kind and its model, as it is got ready.
pub open spec fn engine_request(choice: EngineChoiceView) -> (EngineKind, Seq<char>) {
    match choice {
        EngineChoiceView::XAsr(m) => (EngineKind::XAsr, m),
        EngineChoiceView::CustomLocal(id) => (EngineKind::CustomLocal, id),
        EngineChoiceView::Remote => (EngineKind::Remote { streaming: false }, Seq::empty()),
        EngineChoiceView::Sherpa(m) => (EngineKind::Sherpa, m),
    }
}

/// Begins to get the chosen recognizer ready.
pub fn begin_engine(choice: EngineChoice, remote: &RemoteAsrConfig) -> (r: (EngineRun, EngineAction))
    ensures
        ({
            let (kind, model) = engine_request(choice@);
            (r.0@, r.1@) == transcription::first_step(
                transcription::fresh_engine(
                    Purpose::Offline,
                    transcription::ConfigView { provider: Seq::empty(), model },
                    remote.endpoint@,
                    remote.model@,
                ),
                kind,
            )
        }),
{
    let none: String = String::new();
    assert(none@ =~= Seq::empty());
    let (kind, model) = match choice {
        EngineChoice::XAsr(m) => (EngineKind::XAsr, m),
        EngineChoice::CustomLocal(id) => (EngineKind::CustomLocal, id),
        EngineChoice::Remote => (EngineKind::Remote { streaming: false }, none.clone()),
        EngineChoice::Sherpa(m) => (EngineKind::Sherpa, m),
    };
    EngineRun::begin(Purpose::Offline, TranscriptConfig { provider: none, model }, kind, remote)
}

/// A stage of a run; it names the work to be done next.
#[derive(Clone, Copy, Debug, PartialEq, Eq, Structural)]
pub enum RunStage {
    /// Find the audio file.
    Locate,
    /// Read the duration off the file.
    Probe,
    /// Decode the file.
    Decode,
    /// Mix down and normalize the samples.
    Preprocess,
    /// Detect the speech segments.
    DetectSpeech,
    /// Get the recognizer ready.
    LoadEngine,
    /// Transcribe the chunk that comes next.
    Transcribe,
    /// Store the segments in the database.
    Save,
    /// Write the transcript and metadata files.
    WriteFiles,
    /// The run is complete.
    Finished,
    /// The run has failed.
    Failed,
}

/// How the work of a stage came out.
#[derive(Debug)]
pub enum RunEvent {
    /// It is done, with nothing to hand over.
    Done,
    /// These segments were detected: the length of each, and, for each that is longer than a
    /// chunk, the ranges it is cut into.
    Speech { lens: Vec<usize>, ranges: Vec<Vec<(usize, usize)>> },
    /// A chunk was transcribed, or could not be.
    Text(Result<String, String>),
    /// It failed for this reason.
    Failed(String),
    /// The task doing it went down for this reason.
    Panicked(String),
}

/// How the work of a stage came out, as a mathematical value.
pub enum RunEventView {
    Done,
    Speech { lens: Seq<usize>, ranges: Seq<Seq<(usize, usize)>> },
    Text(Result<Seq<char>, Seq<char>>),
    Failed(Seq<char>),
    Panicked(Seq<char>),
}

impl View for RunEvent {
    type V = RunEventView;

    open spec fn view(&self) -> RunEventView {
        match *self {
            RunEvent::Done => RunEventView::Done,
            RunEvent::Speech { lens, ranges } => RunEventView::Speech {
                lens: lens@,
                ranges: chunk_plan::range_views(ranges@),
            },
            RunEvent::Text(t) => RunEventView::Text(text::result_text(t)),
            RunEvent::Failed(e) => RunEventView::Failed(e@),
            RunEvent::Panicked(e) => RunEventView::Panicked(e@),
        }
    }
}

/// What one chunk gave: the chunk's place in the plan and its text.
#[derive(Clone, Debug)]
pub struct ChunkText {
    pub chunk: usize,
    pub text: String,
}

/// The views of collected chunk texts.
pub open spec fn collected(list: Seq<ChunkText>) -> Seq<(int, Seq<char>)> {
    list.map_values(|c: ChunkText| (c.chunk as int, c.text@))
}

/// One run over a stored recording.
#[derive(Clone, Debug)]
pub struct RetranscriptionRun {
    pub route: AsrRoute,
    /// Whether an address of the remote recognizer is configured.
    pub endpoint_set: bool,
    /// Whether a custom local server transcribes the chunks.
    pub custom_local: bool,
    pub stage: RunStage,
    /// The chunks, once speech has been detected.
    pub chunks: Vec<Chunk>,
    /// How many chunks have been worked on.
    pub processed: usize,
    /// Whether the recognizer has accepted a chunk, with or without text.
    pub accepted: bool,
    /// The texts of the chunks that gave one.
    pub transcripts: Vec<ChunkText>,
    /// Why the run failed.
    pub error: Option<String>,
}

/// A run as a mathematical value.
pub struct RunView {
    pub route: AsrRoute,
    pub endpoint_set: bool,
    pub custom_local: bool,
    pub stage: RunStage,
    pub chunks: Seq<ChunkView>,
    pub processed: int,
    pub accepted: bool,
    pub transcripts: Seq<(int, Seq<char>)>,
    pub error: Option<Seq<char>>,
}

impl View for RetranscriptionRun {
    type V = RunView;

    open spec fn view(&self) -> RunView {
        RunView {
            route: self.route,
            endpoint_set: self.endpoint_set,
            custom_local: self.custom_local,
            stage: self.stage,
            chunks: chunk_plan::chunk_views(self.chunks@),
            processed: self.processed as int,
            accepted: self.accepted,
            transcripts: collected(self.transcripts@),
            error: text::opt_text(self.error),
        }
    }
}

/// The run at a stage.
pub open spec fn at_stage(run: RunView, stage: RunStage) -> RunView {
    RunView { stage, ..run }
}

/// The run failed for a reason.
pub open spec fn failed(run: RunView, error: Seq<char>) -> RunView {
    RunView { stage: RunStage::Failed, error: Some(error), ..run }
}

/// The run at the next stage, unless it has been asked to stop.
pub open spec fn unless_cancelled(run: RunView, cancelled: bool, stage: RunStage) -> RunView {
    if cancelled {
        failed(run, "Retranscription cancelled"@)
    } else {
        at_stage(run, stage)
    }
}

/// The run with one more chunk worked on; a chunk without text, or one that could not be
/// transcribed, adds nothing.
pub open spec fn with_chunk_text(run: RunView, text: Result<Seq<char>, Seq<char>>) -> RunView {
    RunView {
        processed: run.processed + 1,
        accepted: run.accepted || text is Ok,
        transcripts: match text {
            Ok(t) if text::trimmed(t).len() > 0 => run.transcripts.push(
                (run.processed, text::trimmed(t)),
            ),
            _ => run.transcripts,
        },
        ..run
    }
}

/// The run once every chunk has been worked on; `text` is what the last one gave. Where a custom
/// local server has refused every chunk, its error is the outcome and nothing is saved.
pub open spec fn after_chunks(
    run: RunView,
    text: Result<Seq<char>, Seq<char>>,
    cancelled: bool,
) -> RunView {
    match text {
        Err(e) if !cancelled && run.custom_local && !run.accepted => failed(run, e),
        _ => unless_cancelled(run, cancelled, RunStage::Save),
    }
}

/// What the failure of a stage is reported as.
pub open spec fn stage_failure(stage: RunStage, error: Seq<char>) -> Seq<char> {
    if stage == RunStage::DetectSpeech {
        "VAD processing failed: "@ + error
    } else {
        error
    }
}

/// What the loss of a stage's task is reported as.
pub open spec fn stage_panic(stage: RunStage, error: Seq<char>) -> Seq<char> {
    match stage {
        RunStage::Decode => "Decode task panicked: "@ + error,
        RunStage::Preprocess => "Mono conversion panicked: "@ + error,
        RunStage::DetectSpeech => "VAD task panicked: "@ + error,
        _ => error,
    }
}

/// The run after the work of its stage came out. An event that does not belong to the stage
/// changes nothing; nor does any event once the run has ended.
pub open spec fn next_run(run: RunView, event: RunEventView, cancelled: bool) -> RunView {
    match (run.stage, event) {
        (RunStage::Finished, _) => run,
        (RunStage::Failed, _) => run,
        // A duration that cannot be read, or a file that cannot be written, does not end the run.
        (RunStage::Probe, RunEventView::Done) => unless_cancelled(run, cancelled, RunStage::Decode),
        (RunStage::Probe, RunEventView::Failed(_)) => unless_cancelled(
            run,
            cancelled,
            RunStage::Decode,
        ),
        (RunStage::WriteFiles, RunEventView::Done) => at_stage(run, RunStage::Finished),
        (RunStage::WriteFiles, RunEventView::Failed(_)) => at_stage(run, RunStage::Finished),
        (RunStage::WriteFiles, RunEventView::Panicked(_)) => at_stage(run, RunStage::Finished),
        (stage, RunEventView::Failed(e)) => failed(run, stage_failure(stage, e)),
        (stage, RunEventView::Panicked(e)) => failed(run, stage_panic(stage, e)),
        (RunStage::Locate, RunEventView::Done) => if run.route.remote && !run.endpoint_set {
            failed(run, endpoint_missing())
        } else {
            at_stage(run, RunStage::Probe)
        },
        (RunStage::Decode, RunEventView::Done) => unless_cancelled(
            run,
            cancelled,
            RunStage::Preprocess,
        ),
        (RunStage::Preprocess, RunEventView::Done) => unless_cancelled(
            run,
            cancelled,
            RunStage::DetectSpeech,
        ),
        (RunStage::DetectSpeech, RunEventView::Speech { lens, ranges }) => {
            let chunks = planned_chunks(run.route, lens, ranges);
            if lens.len() == 0 {
                failed(run, "No speech detected in audio file"@)
            } else if chunks.len() == 0 {
                failed(run, "No speech detected after VAD"@)
            } else {
                RunView {
                    stage: RunStage::LoadEngine,
                    chunks,
                    processed: 0,
                    accepted: false,
                    transcripts: Seq::empty(),
                    ..run
                }
            }
        },
        (RunStage::LoadEngine, RunEventView::Done) => if cancelled {
            failed(run, "Cancelled"@)
        } else {
            at_stage(run, RunStage::Transcribe)
        },
        (RunStage::Transcribe, RunEventView::Text(text)) => {
            let next = with_chunk_text(run, text);
            if next.processed < next.chunks.len() {
                if cancelled {
                    failed(next, "Cancelled"@)
                } else {
                    next
                }
            } else {
                after_chunks(next, text, cancelled)
            }
        },
        (RunStage::Save, RunEventView::Done) => at_stage(run, RunStage::WriteFiles),
        _ => run,
    }
}

/// What holds of every run: the texts belong to chunks that have been worked on, in order, none
/// is blank; while transcribing there is a chunk left; from saving on there is none, and a custom
/// local server has accepted one; and a run has an error exactly when it failed.
pub open spec fn run_valid(run: RunView) -> bool {
    &&& 0 <= run.processed <= run.chunks.len()
    &&& run.stage == RunStage::Transcribe ==> run.processed < run.chunks.len()
    &&& run.stage == RunStage::LoadEngine ==> run.processed == 0 && run.chunks.len() > 0
    &&& run.stage == RunStage::Save || run.stage == RunStage::WriteFiles || run.stage
        == RunStage::Finished ==> run.processed == run.chunks.len() && run.chunks.len() > 0 && (
    run.custom_local ==> run.accepted)
    &&& run.processed == 0 ==> !run.accepted
    &&& run.transcripts.len() > 0 ==> run.accepted
    &&& forall|i: int|
        0 <= i < run.transcripts.len() ==> 0 <= (#[trigger] run.transcripts[i]).0 < run.processed
            && run.transcripts[i].1.len() > 0 && text::trimmed(run.transcripts[i].1)
            == run.transcripts[i].1
    &&& forall|i: int, j: int|
        0 <= i < j < run.transcripts.len() ==> (#[trigger] run.transcripts[i]).0 < (
        #[trigger] run.transcripts[j]).0
    &&& run.error is Some <==> run.stage == RunStage::Failed
}

/// Whether an event can be handed to a run: every detected segment comes with its ranges.
pub open spec fn event_valid(event: RunEventView) -> bool {
    event matches RunEventView::Speech { lens, ranges } ==> ranges.len() == lens.len()
        && lens.len() <= usize::MAX
}

impl RetranscriptionRun {
    /// A run for a request, at its first stage.
    pub fn new(model: Option<&str>, provider: Option<&str>, endpoint: &str) -> (r: Self)
        ensures
            r@ == (RunView {
                route: route_of(text::opt_str(model), text::opt_str(provider)),
                endpoint_set: endpoint@.len() > 0,
                custom_local: uses_custom_local(text::opt_str(model), text::opt_str(provider)),
                stage: RunStage::Locate,
                chunks: Seq::empty(),
                processed: 0,
                accepted: false,
                transcripts: Seq::empty(),
                error: None,
            }),
            run_valid(r@),
    {
        let route: AsrRoute = asr_route(model, provider);
        let run = RetranscriptionRun {
            route,
            endpoint_set: !endpoint.is_empty(),
            custom_local: !route.xasr && is_text(provider, "custom-local"),
            stage: RunStage::Locate,
            chunks: Vec::new(),
            processed: 0,
            accepted: false,
            transcripts: Vec::new(),
            error: None,
        };
        assert(chunk_plan::chunk_views(run.chunks@) =~= Seq::empty());
        assert(collected(run.transcripts@) =~= Seq::empty());
        run
    }

    fn fail(&mut self, error: String)
        ensures
            final(self)@ == failed(old(self)@, error@),
    {
        self.stage = RunStage::Failed;
        self.error = Some(error);
    }

    fn go_on(&mut self, cancelled: bool, stage: RunStage)
        ensures
            final(self)@ == unless_cancelled(old(self)@, cancelled, stage),
    {
        if cancelled {
            self.fail("Retranscription cancelled".to_owned());
        } else {
            self.stage = stage;
        }
    }

    fn fail_stage(&mut self, error: String)
        ensures
            final(self)@ == failed(old(self)@, stage_failure(old(self).stage, error@)),
    {
        let message: String = if self.stage == RunStage::DetectSpeech {
            concat2("VAD processing failed: ", error.as_str())
        } else {
            error
        };
        self.fail(message);
    }

    fn panic_stage(&mut self, error: String)
        ensures
            final(self)@ == failed(old(self)@, stage_panic(old(self).stage, error@)),
    {
        let message: String = match self.stage {
            RunStage::Decode => concat2("Decode task panicked: ", error.as_str()),
            RunStage::Preprocess => concat2(
                "Mono conversion panicked: ",
                error.as_str(),
            ),
            RunStage::DetectSpeech => concat2("VAD task panicked: ", error.as_str()),
            _ => error,
        };
        self.fail(message);
    }

    fn take_text(&mut self, text: Result<String, String>)
        requires
            old(self).processed < usize::MAX,
        ensures
            final(self)@ == with_chunk_text(old(self)@, text::result_text(text)),
    {
        let ghost before = self.transcripts@;
        match text {
            Ok(t) => {
                self.accepted = true;
                let words: String = trim(t.as_str());
                if !words.as_str().is_empty() {
                    let entry: ChunkText = ChunkText { chunk: self.processed, text: words };
                    self.transcripts.push(entry);
                    assert(collected(self.transcripts@) =~= collected(before).push(
                        (old(self).processed as int, text::trimmed(t@)),
                    ));
                }
            },
            Err(_) => {},
        }
        self.processed = self.processed + 1;
    }

    fn end_chunks(&mut self, refusal: Option<String>, cancelled: bool)
        ensures
            final(self)@ == (match refusal {
                Some(e) if !cancelled && old(self).custom_local && !old(self).accepted => failed(
                    old(self)@,
                    e@,
                ),
                _ => unless_cancelled(old(self)@, cancelled, RunStage::Save),
            }),
    {
        match refusal {
            Some(e) if !cancelled && self.custom_local && !self.accepted => self.fail(e),
            _ => self.go_on(cancelled, RunStage::Save),
        }
    }

    /// Takes in how the work of the stage came out; the stage then names the work to do next.
    pub fn advance(&mut self, event: RunEvent, cancelled: bool)
        requires
            run_valid(old(self)@),
            event_valid(event@),
        ensures
            final(self)@ == next_run(old(self)@, event@, cancelled),
            run_valid(final(self)@),
    {
        proof {
            steps_keep_runs_valid(self@, event@, cancelled);
        }
        match self.stage {
            RunStage::Finished => {},
            RunStage::Failed => {},
            RunStage::Locate => match event {
                RunEvent::Done => {
                    if self.route.remote && !self.endpoint_set {
                        self.fail(endpoint_missing_text());
                    } else {
                        self.stage = RunStage::Probe;
                    }
                },
                RunEvent::Failed(e) => self.fail_stage(e),
                RunEvent::Panicked(e) => self.panic_stage(e),
                _ => {},
            },
            RunStage::Probe => match event {
                RunEvent::Done => self.go_on(cancelled, RunStage::Decode),
                RunEvent::Failed(_) => self.go_on(cancelled, RunStage::Decode),
                RunEvent::Panicked(e) => self.panic_stage(e),
                _ => {},
            },
            RunStage::Decode => match event {
                RunEvent::Done => self.go_on(cancelled, RunStage::Preprocess),
                RunEvent::Failed(e) => self.fail_stage(e),
                RunEvent::Panicked(e) => self.panic_stage(e),
                _ => {},
            },
            RunStage::Preprocess => match event {
                RunEvent::Done => self.go_on(cancelled, RunStage::DetectSpeech),
                RunEvent::Failed(e) => self.fail_stage(e),
                RunEvent::Panicked(e) => self.panic_stage(e),
                _ => {},
            },
            RunStage::DetectSpeech => match event {
                RunEvent::Speech { lens, ranges } => {
                    let chunks: Vec<Chunk> = plan_chunks(self.route, &lens, &ranges);
                    if lens.len() == 0 {
                        self.fail("No speech detected in audio file".to_owned());
                    } else if chunks.len() == 0 {
                        self.fail("No speech detected after VAD".to_owned());
                    } else {
                        self.stage = RunStage::LoadEngine;
                        self.chunks = chunks;
                        self.processed = 0;
                        self.accepted = false;
                        self.transcripts = Vec::new();
                        assert(collected(self.transcripts@) =~= Seq::empty());
                    }
                },
                RunEvent::Failed(e) => self.fail_stage(e),
                RunEvent::Panicked(e) => self.panic_stage(e),
                _ => {},
            },
            RunStage::LoadEngine => match event {
                RunEvent::Done => {
                    if cancelled {
                        self.fail("Cancelled".to_owned());
                    } else {
                        self.stage = RunStage::Transcribe;
                    }
                },
                RunEvent::Failed(e) => self.fail_stage(e),
                RunEvent::Panicked(e) => self.panic_stage(e),
                _ => {},
            },
            RunStage::Transcribe => match event {
                RunEvent::Text(text) => {
                    let total: usize = self.chunks.len();
                    assert(self.processed < total);
                    let refusal: Option<String> = match &text {
                        Ok(_) => None,
                        Err(e) => Some(e.clone()),
                    };
                    self.take_text(text);
                    if self.processed < total {
                        if cancelled {
                            self.fail("Cancelled".to_owned());
                        }
                    } else {
                        self.end_chunks(refusal, cancelled);
                    }
                },
                RunEvent::Failed(e) => self.fail_stage(e),
                RunEvent::Panicked(e) => self.panic_stage(e),
                _ => {},
            },
            RunStage::Save => match event {
                RunEvent::Done => {
                    self.stage = RunStage::WriteFiles;
                },
                RunEvent::Failed(e) => self.fail_stage(e),
                RunEvent::Panicked(e) => self.panic_stage(e),
                _ => {},
            },
            RunStage::WriteFiles => match event {
                RunEvent::Done => {
                    self.stage = RunStage::Finished;
                },
                RunEvent::Failed(_) => {
                    self.stage = RunStage::Finished;
                },
                RunEvent::Panicked(_) => {
                    self.stage = RunStage::Finished;
                },
                _ => {},
            },
        }
    }
}

/// Every step keeps a run valid.
pub proof fn steps_keep_runs_valid(run: RunView, event: RunEventView, cancelled: bool)
    requires
        run_valid(run),
        event_valid(event),
    ensures
        run_valid(next_run(run, event, cancelled)),
{
    if let (RunStage::Transcribe, RunEventView::Text(Ok(t))) = (run.stage, event) {
        text::trimming_is_idempotent(t);
    }
}

/// A run that has ended stays as it is, whatever is handed to it.
pub proof fn ended_runs_do_not_change(run: RunView, event: RunEventView, cancelled: bool)
    requires
        run.stage == RunStage::Finished || run.stage == RunStage::Failed,
    ensures
        next_run(run, event, cancelled) == run,
{
}

/// Nothing is saved of a run that was asked to stop: saving begins only at a step at which no
/// such request is pending, after the last chunk has been worked on.
pub proof fn cancelled_runs_are_not_saved(run: RunView, event: RunEventView, cancelled: bool)
    requires
        run_valid(run),
        event_valid(event),
        run.stage != RunStage::Save,
        next_run(run, event, cancelled).stage == RunStage::Save,
    ensures
        !cancelled,
        run.stage == RunStage::Transcribe,
        run.processed + 1 == run.chunks.len(),
{
}

/// While a request to stop is pending, a run that is between decoding and saving ends at the
/// next stage that is done.
pub proof fn cancelled_runs_end(run: RunView)
    requires
        run_valid(run),
        run.stage == RunStage::Probe || run.stage == RunStage::Decode || run.stage
            == RunStage::Preprocess || run.stage == RunStage::LoadEngine,
    ensures
        next_run(run, RunEventView::Done, true).stage == RunStage::Failed,
        run.stage != RunStage::LoadEngine ==> next_run(run, RunEventView::Done, true).error == Some(
            "Retranscription cancelled"@,
        ),
        run.stage == RunStage::LoadEngine ==> next_run(run, RunEventView::Done, true).error == Some(
            "Cancelled"@,
        ),
{
}

/// The run after its chunks gave these texts, one after the other, with no request to stop.
pub open spec fn after_texts(run: RunView, given: Seq<Result<Seq<char>, Seq<char>>>) -> RunView
    decreases given.len(),
{
    if given.len() == 0 {
        run
    } else {
        next_run(after_texts(run, given.drop_last()), RunEventView::Text(given.last()), false)
    }
}

/// The texts that are kept of those that the chunks gave: all that are not blank, each with the
/// place of its chunk.
pub open spec fn kept_texts(given: Seq<Result<Seq<char>, Seq<char>>>) -> Seq<(int, Seq<char>)>
    decreases given.len(),
{
    if given.len() == 0 {
        Seq::empty()
    } else {
        let rest = kept_texts(given.drop_last());
        match given.last() {
            Ok(t) if text::trimmed(t).len() > 0 => rest.push((given.len() - 1, text::trimmed(t))),
            _ => rest,
        }
    }
}

/// Whether the recognizer accepted one of the chunks that gave these.
pub open spec fn one_accepted(given: Seq<Result<Seq<char>, Seq<char>>>) -> bool {
    exists|i: int| 0 <= i < given.len() && (#[trigger] given[i]) is Ok
}

/// A run keeps the text of every chunk that gave one, in the order of the chunks. Once every chunk
/// has been worked on it goes on to saving, unless a custom local server has refused them all.
pub proof fn every_text_is_kept(run: RunView, given: Seq<Result<Seq<char>, Seq<char>>>)
    requires
        run_valid(run),
        run.stage == RunStage::Transcribe,
        run.processed == 0,
        given.len() <= run.chunks.len(),
    ensures
        after_texts(run, given).transcripts == kept_texts(given),
        after_texts(run, given).processed == given.len(),
        after_texts(run, given).accepted == one_accepted(given),
        after_texts(run, given).chunks == run.chunks,
        after_texts(run, given).custom_local == run.custom_local,
        after_texts(run, given).stage == (if given.len() < run.chunks.len() {
            RunStage::Transcribe
        } else if run.custom_local && !one_accepted(given) {
            RunStage::Failed
        } else {
            RunStage::Save
        }),
    decreases given.len(),
{
    if given.len() == 0 {
        if run.transcripts.len() > 0 {
            assert(run.transcripts[0].0 < run.processed);
        }
        assert(run.transcripts =~= Seq::empty());
    } else {
        let shorter = given.drop_last();
        every_text_is_kept(run, shorter);
        if one_accepted(shorter) {
            let i = choose|i: int| 0 <= i < shorter.len() && (#[trigger] shorter[i]) is Ok;
            assert(given[i] is Ok);
        }
        if one_accepted(given) && given.last() is Err {
            let i = choose|i: int| 0 <= i < given.len() && (#[trigger] given[i]) is Ok;
            assert(shorter[i] is Ok);
        }
        assert(given[given.len() - 1] == given.last());
    }
}

/// A recording of which a custom local server has refused every chunk is reported as failed, with
/// the server's error, and is not saved.
pub proof fn refused_recordings_are_reported(run: RunView, errors: Seq<Seq<char>>)
    requires
        run_valid(run),
        run.stage == RunStage::Transcribe,
        run.processed == 0,
        run.custom_local,
        errors.len() == run.chunks.len(),
    ensures
        ({
            let given = errors.map_values(|e: Seq<char>| Err::<Seq<char>, Seq<char>>(e));
            let end = after_texts(run, given);
            &&& end.stage == RunStage::Failed
            &&& end.error == Some(errors.last())
        }),
{
    let given = errors.map_values(|e: Seq<char>| Err::<Seq<char>, Seq<char>>(e));
    every_text_is_kept(run, given);
    every_text_is_kept(run, given.drop_last());
    assert(given.last() == Err::<Seq<char>, Seq<char>>(errors.last()));
}

/// A run after a course of events, each with whether a request to stop was pending.
pub open spec fn run_course(run: RunView, events: Seq<(RunEventView, bool)>) -> RunView
    decreases events.len(),
{
    if events.len() == 0 {
        run
    } else {
        next_run(
            run_course(run, events.drop_last()),
            events.last().0,
            events.last().1,
        )
    }
}

/// Whether the segments of a run are in the database.
pub open spec fn is_saved(run: RunView) -> bool {
    run.stage == RunStage::WriteFiles || run.stage == RunStage::Finished
}

/// A run that has failed was never saved, and one that is saved does not fail: what comes after
/// saving ends well.
pub proof fn failed_runs_were_not_saved(run: RunView, events: Seq<(RunEventView, bool)>, n: int)
    requires
        0 <= n <= events.len(),
    ensures
        is_saved(run_course(run, events.take(n))) ==> is_saved(run_course(run, events)),
        run_course(run, events).stage == RunStage::Failed ==> !is_saved(
            run_course(run, events.take(n)),
        ),
    decreases events.len(),
{
    if n == events.len() {
        assert(events.take(n) =~= events);
    } else {
        assert(events.drop_last().take(n) =~= events.take(n));
        failed_runs_were_not_saved(run, events.drop_last(), n);
    }
}

/// The names under which a recording's audio is looked for first, in order.
pub open spec fn audio_names() -> Seq<Seq<char>> {
    seq![
        "audio.mp4"@,
        "audio.m4a"@,
        "audio.wav"@,
        "audio.mp3"@,
        "audio.flac"@,
        "audio.ogg"@,
        "recording.mp4"@,
        "audio.mkv"@,
        "audio.webm"@,
        "audio.wma"@,
    ]
}

/// The names under which a recording's audio is looked for first, in order.
pub fn audio_candidates() -> (r: Vec<String>)
    ensures
        text::texts(r@) == audio_names(),
        r@.len() == 10,
        r@[0]@ == "audio.mp4"@ && r@[1]@ == "audio.m4a"@ && r@[2]@ == "audio.wav"@,
        r@[3]@ == "audio.mp3"@ && r@[4]@ == "audio.flac"@ && r@[5]@ == "audio.ogg"@,
        r@[6]@ == "recording.mp4"@ && r@[7]@ == "audio.mkv"@ && r@[8]@ == "audio.webm"@,
        r@[9]@ == "audio.wma"@,
{
    let mut names: Vec<String> = Vec::new();
    names.push("audio.mp4".to_owned());
    names.push("audio.m4a".to_owned());
    names.push("audio.wav".to_owned());
    names.push("audio.mp3".to_owned());
    names.push("audio.flac".to_owned());
    names.push("audio.ogg".to_owned());
    names.push("recording.mp4".to_owned());
    names.push("audio.mkv".to_owned());
    names.push("audio.webm".to_owned());
    names.push("audio.wma".to_owned());
    assert(text::texts(names@) =~= audio_names());
    names
}

/// Where a recording's audio was found.
#[derive(Clone, Copy, Debug, PartialEq, Eq, Structural)]
pub enum AudioFile {
    /// Under the candidate name at this place.
    Candidate(usize),
    /// As the folder entry at this place.
    Entry(usize),
}

/// Whether a folder entry's extension, in lower case, is one of the known audio extensions.
pub open spec fn audio_extension(
    extension: Option<Seq<char>>,
    known: Seq<Seq<char>>,
) -> bool {
    extension matches Some(e) && known.contains(text::lowercase_text(e))
}

/// Finds a recording's audio: under the first candidate name that exists, else as the first
/// folder entry with a known audio extension.
///
/// `present` tells, for each candidate name, whether such a file exists; `extensions` holds the
/// extension of each folder entry, in the order of the folder.
pub fn find_audio_file(
    present: &Vec<bool>,
    extensions: &Vec<Option<String>>,
    known: &Vec<String>,
    folder: &str,
) -> (r: Result<AudioFile, String>)
    ensures
        match r {
            Ok(AudioFile::Candidate(i)) => i < present@.len() && present@[i as int] && forall|j: int|
                0 <= j < i ==> !present@[j],
            Ok(AudioFile::Entry(i)) => {
                &&& forall|j: int| 0 <= j < present@.len() ==> !present@[j]
                &&& i < extensions@.len()
                &&& audio_extension(text::opt_text(extensions@[i as int]), text::texts(known@))
                &&& forall|j: int|
                    0 <= j < i ==> !audio_extension(
                        text::opt_text(#[trigger] extensions@[j]),
                        text::texts(known@),
                    )
            },
            Err(e) => {
                &&& forall|j: int| 0 <= j < present@.len() ==> !present@[j]
                &&& forall|j: int|
                    0 <= j < extensions@.len() ==> !audio_extension(
                        text::opt_text(#[trigger] extensions@[j]),
                        text::texts(known@),
                    )
                &&& e@ == "No audio file found in: "@ + folder@
            },
        },
{
    let mut i: usize = 0;
    while i < present.len()
        invariant
            0 <= i <= present@.len(),
            forall|j: int| 0 <= j < i ==> !present@[j],
        decreases present@.len() - i,
    {
        if present[i] {
            return Ok(AudioFile::Candidate(i));
        }
        i += 1;
    }
    let mut k: usize = 0;
    while k < extensions.len()
        invariant
            0 <= k <= extensions@.len(),
            forall|j: int| 0 <= j < present@.len() ==> !present@[j],
            forall|j: int|
                0 <= j < k ==> !audio_extension(
                    text::opt_text(#[trigger] extensions@[j]),
                    text::texts(known@),
                ),
        decreases extensions@.len() - k,
    {
        match &extensions[k] {
            Some(e) => {
                let lower: String = lowercase(e.as_str());
                if listed(known, lower.as_str()) {
                    return Ok(AudioFile::Entry(k));
                }
            },
            None => {},
        }
        k += 1;
    }
    Err(concat2("No audio file found in: ", folder))
}

/// The chunks that a run transcribes keep all speech: whatever the recognizer, each detected
/// segment that is long enough is transcribed once and in order. Chunks hold ten minutes at most
/// for the remote recognizer and for X-ASR, which get segments merged, and two minutes for the
/// local one, which gets them one by one; only longer segments are cut.
pub proof fn plans_keep_all_speech(
    route: AsrRoute,
    lens: Seq<usize>,
    ranges: Seq<Seq<(usize, usize)>>,
)
    requires
        lens.len() <= usize::MAX,
        ranges.len() == lens.len(),
    ensures
        ({
            let plan = planned_chunks(route, lens, ranges);
            let merges = route.remote || route.xasr;
            let limit: int = if merges {
                9_600_000
            } else {
                1_920_000
            };
            &&& chunk_plan::is_plan(plan, lens, ranges, limit)
            &&& chunk_seconds(route) * SAMPLE_RATE == limit
            &&& forall|k: int|
                0 <= k < plan.len() ==> if merges {
                    !(#[trigger] plan[k] is Whole) && chunk_plan::closed_in_time(
                        lens,
                        limit,
                        plan,
                        k,
                        Seq::empty(),
                    )
                } else {
                    !(plan[k] is Merged)
                }
        }),
{
    if route.remote || route.xasr {
        chunk_plan::merging_makes_a_plan(lens, ranges, 9_600_000);
        chunk_plan::merged_chunks_end_in_time(lens, ranges, 9_600_000);
    } else {
        chunk_plan::separating_makes_a_plan(lens, ranges, 1_920_000);
    }
}

/// A request gets the recognizer that it names. A model of X-ASR is taken before anything else;
/// then a custom local server by its profile; then the remote server, where its address is known;
/// and every other model is one of the local engine, which has a default.
pub proof fn requests_get_the_recognizer_they_name(
    model: Option<Seq<char>>,
    provider: Option<Seq<char>>,
    endpoint: Seq<char>,
)
    ensures
        ({
            let choice = chosen_engine(model, provider, endpoint);
            let gets = |kind: EngineKind, name: Seq<char>|
                choice is Ok && engine_request(choice->Ok_0) == (kind, name);
            let xasr = model is Some && "x-asr-"@.is_prefix_of(model->0);
            let remote = provider == Some("remote"@) || (model is Some
                && "qwen3-asr-remote"@.is_prefix_of(model->0));
            &&& route_of(model, provider).xasr == xasr
            &&& route_of(model, provider).remote == remote
            &&& uses_custom_local(model, provider) <==> !xasr && provider == Some("custom-local"@)
            &&& if xasr {
                gets(EngineKind::XAsr, model->0)
            } else if provider == Some("custom-local"@) {
                if model is Some {
                    gets(EngineKind::CustomLocal, model->0)
                } else {
                    choice == Err::<EngineChoiceView, Seq<char>>("Missing custom ASR profile ID"@)
                }
            } else if remote {
                if endpoint.len() > 0 {
                    gets(EngineKind::Remote { streaming: false }, Seq::empty())
                } else {
                    choice == Err::<EngineChoiceView, Seq<char>>(
                        "Remote ASR endpoint not configured. Please set the remote ASR URL in Settings."@,
                    )
                }
            } else if model is Some {
                gets(EngineKind::Sherpa, model->0)
            } else {
                gets(EngineKind::Sherpa, "sense-voice"@)
            }
        }),
{
}

/// Work that fails, or whose task goes down, ends a run for the reason that it gave, whatever was
/// asked for meanwhile, and nothing else of the run changes. Two stages are spared: a duration that
/// cannot be read, and files that cannot be written once the segments are stored.
pub proof fn broken_work_ends_runs(run: RunView, reason: Seq<char>, cancelled: bool)
    requires
        run.stage != RunStage::Finished && run.stage != RunStage::Failed,
    ensures
        ({
            let broken = next_run(run, RunEventView::Failed(reason), cancelled);
            let down = next_run(run, RunEventView::Panicked(reason), cancelled);
            let ended = |told: Seq<char>|
                RunView { stage: RunStage::Failed, error: Some(told), ..run };
            &&& run.stage == RunStage::WriteFiles ==> broken == down && down == (RunView {
                stage: RunStage::Finished,
                ..run
            })
            &&& run.stage == RunStage::Probe ==> broken == next_run(
                run,
                RunEventView::Done,
                cancelled,
            )
            &&& run.stage == RunStage::DetectSpeech ==> broken == ended(
                "VAD processing failed: "@ + reason,
            ) && down == ended("VAD task panicked: "@ + reason)
            &&& run.stage == RunStage::Decode ==> broken == ended(reason) && down == ended(
                "Decode task panicked: "@ + reason,
            )
            &&& run.stage == RunStage::Preprocess ==> broken == ended(reason) && down == ended(
                "Mono conversion panicked: "@ + reason,
            )
            &&& run.stage == RunStage::Locate || run.stage == RunStage::LoadEngine || run.stage
                == RunStage::Transcribe || run.stage == RunStage::Save ==> broken == ended(reason)
                && down == ended(reason)
            &&& run.stage == RunStage::Probe ==> down == ended(reason)
        }),
{
}

/// Speech that is too short for any recognizer ends a run, and so does a remote recognizer without
/// an address.
pub proof fn runs_without_work_end(
    run: RunView,
    lens: Seq<usize>,
    ranges: Seq<Seq<(usize, usize)>>,
    cancelled: bool,
)
    requires
        ranges.len() == lens.len(),
        lens.len() <= usize::MAX,
        chunk_plan::all_short(lens, 0, lens.len() as int),
    ensures
        run.stage == RunStage::DetectSpeech ==> next_run(
            run,
            RunEventView::Speech { lens, ranges },
            cancelled,
        ) == (RunView {
            stage: RunStage::Failed,
            error: Some(
                if lens.len() == 0 {
                    "No speech detected in audio file"@
                } else {
                    "No speech detected after VAD"@
                },
            ),
            ..run
        }),
        run.stage == RunStage::Locate && run.route.remote && !run.endpoint_set ==> next_run(
            run,
            RunEventView::Done,
            cancelled,
        ) == (RunView {
            stage: RunStage::Failed,
            error: Some(
                "Remote ASR endpoint not configured. Please set the remote ASR URL in Settings."@,
            ),
            ..run
        }),
{
    chunk_plan::short_segments_make_no_chunks(
        lens,
        ranges,
        chunk_seconds(run.route) * SAMPLE_RATE,
        lens.len() as int,
    );
}

/// A run that is not asked to stop works through its stages. Once speech has been detected every
/// segment that is long enough is in the chunks, cut to what the recognizer takes; and once every
/// chunk has given its text the run saves, writes its files and is finished.
pub proof fn runs_work_to_the_end(
    run: RunView,
    lens: Seq<usize>,
    ranges: Seq<Seq<(usize, usize)>>,
    given: Seq<Result<Seq<char>, Seq<char>>>,
    one: int,
)
    requires
        run_valid(run),
        run.stage == RunStage::Locate,
        run.route.remote ==> run.endpoint_set,
        ranges.len() == lens.len(),
        lens.len() <= usize::MAX,
        0 <= one < lens.len(),
        1600 <= lens[one] <= 1_920_000,
    ensures
        ({
            let next = |r: RunView, e: RunEventView| next_run(r, e, false);
            let detecting = next(
                next(
                    next(next(run, RunEventView::Done), RunEventView::Done),
                    RunEventView::Done,
                ),
                RunEventView::Done,
            );
            let loading = next(detecting, RunEventView::Speech { lens, ranges });
            let begun = next(loading, RunEventView::Done);
            let saving = after_texts(begun, given);
            let end = next(next(saving, RunEventView::Done), RunEventView::Done);
            let limit: int = if run.route.remote || run.route.xasr {
                9_600_000
            } else {
                1_920_000
            };
            &&& detecting == (RunView { stage: RunStage::DetectSpeech, ..run })
            &&& begun.stage == RunStage::Transcribe
            &&& begun.route == run.route && begun.custom_local == run.custom_local
            &&& chunk_plan::is_plan(begun.chunks, lens, ranges, limit)
            &&& begun.processed == 0 && begun.transcripts.len() == 0 && begun.error is None
            &&& given.len() == begun.chunks.len() && (run.custom_local ==> one_accepted(given)) ==> {
                &&& saving.stage == RunStage::Save
                &&& end.stage == RunStage::Finished
                &&& end.transcripts == saving.transcripts
                &&& end.chunks == begun.chunks
                &&& end.error is None
            }
        }),
{
    let detecting = RunView { stage: RunStage::DetectSpeech, ..run };
    plans_keep_all_speech(run.route, lens, ranges);
    let plan = planned_chunks(run.route, lens, ranges);
    assert(chunk_plan::whole_members(plan).contains(one as usize));
    assert(plan.len() > 0);
    let loading = next_run(detecting, RunEventView::Speech { lens, ranges }, false);
    steps_keep_runs_valid(detecting, RunEventView::Speech { lens, ranges }, false);
    let begun = next_run(loading, RunEventView::Done, false);
    steps_keep_runs_valid(loading, RunEventView::Done, false);
    if given.len() == begun.chunks.len() && (run.custom_local ==> one_accepted(given)) {
        every_text_is_kept(begun, given);
        texts_leave_no_error(begun, given);
    }
}

proof fn texts_leave_no_error(run: RunView, given: Seq<Result<Seq<char>, Seq<char>>>)
    requires
        run_valid(run),
        run.stage == RunStage::Transcribe,
        run.processed == 0,
        given.len() <= run.chunks.len(),
    ensures
        run_valid(after_texts(run, given)),
    decreases given.len(),
{
    if given.len() > 0 {
        texts_leave_no_error(run, given.drop_last());
        every_text_is_kept(run, given.drop_last());
        steps_keep_runs_valid(
            after_texts(run, given.drop_last()),
            RunEventView::Text(given.last()),
            false,
        );
    }
}

/// What is kept of a run's texts are those that are not blank, without the white space round
/// them, each under the place of the chunk that gave it, and each once.
pub proof fn kept_texts_are_those_given(run: RunView, given: Seq<Result<Seq<char>, Seq<char>>>)
    requires
        run_valid(run),
        run.stage == RunStage::Transcribe,
        run.processed == 0,
        given.len() <= run.chunks.len(),
    ensures
        ({
            let kept = after_texts(run, given).transcripts;
            &&& forall|k: int|
                0 <= k < kept.len() ==> {
                    let (chunk, words) = #[trigger] kept[k];
                    &&& 0 <= chunk < given.len()
                    &&& given[chunk] is Ok
                    &&& words == text::trimmed(given[chunk]->Ok_0)
                    &&& words.len() > 0
                }
            &&& forall|i: int|
                0 <= i < given.len() && (#[trigger] given[i]) is Ok && text::trimmed(
                    given[i]->Ok_0,
                ).len() > 0 ==> exists|k: int| 0 <= k < kept.len() && (#[trigger] kept[k]).0 == i
            &&& forall|j: int, k: int|
                0 <= j < k < kept.len() ==> (#[trigger] kept[j]).0 < (#[trigger] kept[k]).0
        }),
    decreases given.len(),
{
    every_text_is_kept(run, given);
    if given.len() > 0 {
        let fewer = given.drop_last();
        kept_texts_are_those_given(run, fewer);
        every_text_is_kept(run, fewer);
        let before = after_texts(run, fewer).transcripts;
        let kept = after_texts(run, given).transcripts;
        assert(before.is_prefix_of(kept));
        assert forall|k: int| 0 <= k < kept.len() implies {
            let (chunk, words) = #[trigger] kept[k];
            &&& 0 <= chunk < given.len()
            &&& given[chunk] is Ok
            &&& words == text::trimmed(given[chunk]->Ok_0)
            &&& words.len() > 0
        } by {
            if k < before.len() {
                assert(kept[k] == before[k]);
                assert(given[before[k].0] == fewer[before[k].0]);
            }
        }
        assert forall|i: int|
            0 <= i < given.len() && (#[trigger] given[i]) is Ok && text::trimmed(
                given[i]->Ok_0,
            ).len() > 0 implies exists|k: int|
            0 <= k < kept.len() && (#[trigger] kept[k]).0 == i by {
            if i < fewer.len() {
                assert(fewer[i] == given[i]);
                let k = choose|k: int| 0 <= k < before.len() && (#[trigger] before[k]).0 == i;
                assert(kept[k] == before[k]);
            } else {
                assert(kept[kept.len() - 1].0 == i);
            }
        }
        assert forall|j: int, k: int| 0 <= j < k < kept.len() implies (#[trigger] kept[j]).0 < (
        #[trigger] kept[k]).0 by {
            assert(kept[j] == before[j]);
            if k < before.len() {
                assert(kept[k] == before[k]);
            }
        }
    }
}

/// A run that is asked to stop while it transcribes ends with the chunk at hand, whose text it
/// still takes in.
pub proof fn transcribing_stops_when_asked(run: RunView, text: Result<Seq<char>, Seq<char>>)
    requires
        run_valid(run),
        run.stage == RunStage::Transcribe,
    ensures
        ({
            let end = next_run(run, RunEventView::Text(text), true);
            &&& end.stage == RunStage::Failed
            &&& end.processed == run.processed + 1
            &&& end.error == Some(
                if run.processed + 1 < run.chunks.len() {
                    "Cancelled"@
                } else {
                    "Retranscription cancelled"@
                },
            )
        }),
{
}

/// What does not belong where a run is leaves it as it is.
pub proof fn other_events_leave_runs_alone(run: RunView, event: RunEventView, cancelled: bool)
    requires
        match event {
            RunEventView::Failed(_) | RunEventView::Panicked(_) => false,
            RunEventView::Speech { .. } => run.stage != RunStage::DetectSpeech,
            RunEventView::Text(_) => run.stage != RunStage::Transcribe,
            RunEventView::Done => run.stage == RunStage::DetectSpeech || run.stage
                == RunStage::Transcribe,
        },
    ensures
        next_run(run, event, cancelled) == run,
{
}

/// Audio is looked for under names that differ, so that a file is found at one place only.
pub proof fn audio_names_differ(i: int, j: int)
    requires
        0 <= i < j < audio_names().len(),
    ensures
        audio_names()[i] != audio_names()[j],
        audio_names().len() == 10,
        audio_names()[6] == "recording.mp4"@,
        i != 6 ==> "audio."@.is_prefix_of(audio_names()[i]),
        j != 6 ==> "audio."@.is_prefix_of(audio_names()[j]),
{
    reveal_strlit("audio.");
    reveal_strlit("audio.mp4");
    reveal_strlit("audio.m4a");
    reveal_strlit("audio.wav");
    reveal_strlit("audio.mp3");
    reveal_strlit("audio.flac");
    reveal_strlit("audio.ogg");
    reveal_strlit("recording.mp4");
    reveal_strlit("audio.mkv");
    reveal_strlit("audio.webm");
    reveal_strlit("audio.wma");
    let names = audio_names();
    let a = names[i];
    let b = names[j];
    assert("audio.mp4"@[7] == 'p' && "audio.mp4"@[8] == '4');
    assert("audio.mp3"@[7] == 'p' && "audio.mp3"@[8] == '3');
    assert("audio.m4a"@[7] == '4');
    assert("audio.mkv"@[7] == 'k');
    assert("audio.wav"@[7] == 'a' && "audio.wav"@[6] == 'w');
    assert("audio.wma"@[7] == 'm');
    assert("audio.ogg"@[6] == 'o');
    assert("audio.flac"@.len() == 10 && "audio.flac"@[6] == 'f');
    assert("audio.webm"@.len() == 10 && "audio.webm"@[6] == 'w');
    assert("recording.mp4"@.len() == 13);
    assert("audio.mp4"@.subrange(0, 6) =~= "audio."@);
    assert("audio.m4a"@.subrange(0, 6) =~= "audio."@);
    assert("audio.wav"@.subrange(0, 6) =~= "audio."@);
    assert("audio.mp3"@.subrange(0, 6) =~= "audio."@);
    assert("audio.flac"@.subrange(0, 6) =~= "audio."@);
    assert("audio.ogg"@.subrange(0, 6) =~= "audio."@);
    assert("audio.mkv"@.subrange(0, 6) =~= "audio."@);
    assert("audio.webm"@.subrange(0, 6) =~= "audio."@);
    assert("audio.wma"@.subrange(0, 6) =~= "audio."@);
}

/// A file is taken for audio by its extension, whatever the case of its letters; a file without one
/// is not.
pub proof fn audio_is_told_by_extension(extension: Seq<char>, known: Seq<Seq<char>>)
    ensures
        !audio_extension(None, known),
        audio_extension(Some(extension), known) <==> exists|k: int|
            0 <= k < known.len() && #[trigger] known[k] == text::lowercase_text(extension),
{
}

} // verus!

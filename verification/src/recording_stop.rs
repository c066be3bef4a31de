//! Stopping a recording, step by step: all transcripts that are under way are waited for before it
//! is saved, however long they take. The caller does what is asked and reports what came of it.

use vstd::prelude::*;
#[allow(unused_imports)]
use vstd::string::StringExecFns;

use crate::text;
use crate::text::{concat2, concat3, decimal};

verus! {

/// How long reading the configuration may take, in seconds.
pub const CONFIG_WAIT_SECS: u64 = 30;

/// How long saving may take, in seconds.
pub const SAVE_WAIT_SECS: u64 = 300;

/// What callers are told of the progress.
#[derive(Debug)]
pub struct ShutdownNotice {
    pub stage: String,
    pub message: String,
    pub progress: u32,
    /// The seconds that have gone by, while transcripts are waited for.
    pub elapsed_secs: Option<u64>,
}

/// What callers are told of the progress, as a mathematical value.
pub struct NoticeView {
    pub stage: Seq<char>,
    pub message: Seq<char>,
    pub progress: u32,
    pub elapsed_secs: Option<u64>,
}

impl View for ShutdownNotice {
    type V = NoticeView;

    open spec fn view(&self) -> NoticeView {
        NoticeView {
            stage: self.stage@,
            message: self.message@,
            progress: self.progress,
            elapsed_secs: self.elapsed_secs,
        }
    }
}

/// The view of a notice, where there is one.
pub open spec fn notice_view(notice: Option<ShutdownNotice>) -> Option<NoticeView> {
    match notice {
        Some(n) => Some(n@),
        None => None,
    }
}

/// What happens in the course of a stop.
#[derive(Debug)]
pub enum StopEvent {
    /// Whether a recording runs.
    Checked { is_recording: bool },
    /// The streams were stopped and what they held was passed on; whether there was a recording
    /// to save.
    StreamsStopped { has_recording: bool },
    /// The streams could not be stopped, for this reason.
    StreamsFailed(String),
    /// Transcripts are still being waited for, after so many seconds.
    StillWaiting { elapsed_secs: u64 },
    /// All transcripts are there.
    TranscriptsDone,
    /// The task that writes transcripts went down, so that no more of them can come.
    TranscriptionCrashed,
    /// The configuration was read, or could not be.
    ConfigRead,
    /// The recording was saved, or could not be: its folder and name.
    Saved { folder: Option<String>, name: Option<String> },
    /// The flag of the recording is cleared, and its level meters have stopped.
    Cleared,
}

/// What happens in the course of a stop, as a mathematical value.
pub enum StopEventView {
    Checked { is_recording: bool },
    StreamsStopped { has_recording: bool },
    StreamsFailed(Seq<char>),
    StillWaiting { elapsed_secs: u64 },
    TranscriptsDone,
    TranscriptionCrashed,
    ConfigRead,
    Saved { folder: Option<Seq<char>>, name: Option<Seq<char>> },
    Cleared,
}

impl View for StopEvent {
    type V = StopEventView;

    open spec fn view(&self) -> StopEventView {
        match *self {
            StopEvent::Checked { is_recording } => StopEventView::Checked { is_recording },
            StopEvent::StreamsStopped { has_recording } => StopEventView::StreamsStopped {
                has_recording,
            },
            StopEvent::StreamsFailed(e) => StopEventView::StreamsFailed(e@),
            StopEvent::StillWaiting { elapsed_secs } => StopEventView::StillWaiting {
                elapsed_secs,
            },
            StopEvent::TranscriptsDone => StopEventView::TranscriptsDone,
            StopEvent::TranscriptionCrashed => StopEventView::TranscriptionCrashed,
            StopEvent::ConfigRead => StopEventView::ConfigRead,
            StopEvent::Saved { folder, name } => StopEventView::Saved {
                folder: text::opt_text(folder),
                name: text::opt_text(name),
            },
            StopEvent::Cleared => StopEventView::Cleared,
        }
    }
}

/// What is to be done next.
#[derive(Debug)]
pub enum StopTask {
    /// Stop following the default devices, then stop the streams and pass on what they hold; where
    /// that is done, stop collecting transcripts for the page.
    StopStreams,
    /// Wait for all transcripts, however long they take.
    AwaitTranscripts,
    /// Read the configuration, within so many seconds.
    ReadConfig { limit_secs: u64 },
    /// Save the recording, within so many seconds, where there is one to save.
    Save { has_recording: bool, limit_secs: u64 },
    /// Go on waiting.
    Wait,
    /// The recording has ended: clear its flag, and stop its level meters.
    ClearFlag,
    /// Tell callers where the recording is. Its flag has been cleared by now.
    Finish { folder: Option<String>, name: Option<String> },
    /// There was nothing to stop.
    Done,
    /// The recording could not be stopped, for this reason.
    Fail(String),
    /// Nothing.
    Nothing,
}

/// What is to be done next, as a mathematical value.
pub enum StopTaskView {
    StopStreams,
    AwaitTranscripts,
    ReadConfig { limit_secs: u64 },
    Save { has_recording: bool, limit_secs: u64 },
    Wait,
    ClearFlag,
    Finish { folder: Option<Seq<char>>, name: Option<Seq<char>> },
    Done,
    Fail(Seq<char>),
    Nothing,
}

impl View for StopTask {
    type V = StopTaskView;

    open spec fn view(&self) -> StopTaskView {
        match *self {
            StopTask::StopStreams => StopTaskView::StopStreams,
            StopTask::AwaitTranscripts => StopTaskView::AwaitTranscripts,
            StopTask::ReadConfig { limit_secs } => StopTaskView::ReadConfig { limit_secs },
            StopTask::Save { has_recording, limit_secs } => StopTaskView::Save {
                has_recording,
                limit_secs,
            },
            StopTask::Wait => StopTaskView::Wait,
            StopTask::ClearFlag => StopTaskView::ClearFlag,
            StopTask::Finish { folder, name } => StopTaskView::Finish {
                folder: text::opt_text(folder),
                name: text::opt_text(name),
            },
            StopTask::Done => StopTaskView::Done,
            StopTask::Fail(e) => StopTaskView::Fail(e@),
            StopTask::Nothing => StopTaskView::Nothing,
        }
    }
}

/// What callers are told now, and what is to be done after that.
#[derive(Debug)]
pub struct StopStep {
    pub notice: Option<ShutdownNotice>,
    pub task: StopTask,
}

/// What callers are told now and what is to be done next, as a mathematical value.
pub struct StopStepView {
    pub notice: Option<NoticeView>,
    pub task: StopTaskView,
}

impl View for StopStep {
    type V = StopStepView;

    open spec fn view(&self) -> StopStepView {
        StopStepView { notice: notice_view(self.notice), task: self.task@ }
    }
}

/// How far a stop is.
#[derive(Clone, Copy, Debug, PartialEq, Eq, Structural)]
pub enum StopStage {
    Checking,
    StoppingStreams,
    AwaitingTranscripts,
    ReadingConfig,
    Saving,
    Clearing,
    Stopped,
    Idle,
    Failed,
}

/// A recording that is being stopped.
#[derive(Debug)]
pub struct StopRun {
    pub stage: StopStage,
    pub has_recording: bool,
    /// The folder and the name of the recording, once it has been saved.
    pub folder: Option<String>,
    pub name: Option<String>,
}

/// A recording that is being stopped, as a mathematical value.
pub struct StopRunView {
    pub stage: StopStage,
    pub has_recording: bool,
    pub folder: Option<Seq<char>>,
    pub name: Option<Seq<char>>,
}

impl View for StopRun {
    type V = StopRunView;

    open spec fn view(&self) -> StopRunView {
        StopRunView {
            stage: self.stage,
            has_recording: self.has_recording,
            folder: text::opt_text(self.folder),
            name: text::opt_text(self.name),
        }
    }
}

/// A notice of the progress.
pub open spec fn notice_of(stage: Seq<char>, message: Seq<char>, progress: u32) -> Option<
    NoticeView,
> {
    Some(NoticeView { stage, message, progress, elapsed_secs: None })
}

/// Where a recording is: its folder and name, where it has both.
pub open spec fn whereabouts(folder: Option<Seq<char>>, name: Option<Seq<char>>) -> (
    Option<Seq<char>>,
    Option<Seq<char>>,
) {
    if folder is Some && name is Some {
        (folder, name)
    } else {
        (None, None)
    }
}

/// The stop once no transcript is under way any more.
pub open spec fn after_transcripts(run: StopRunView) -> (StopRunView, StopStepView) {
    (
        StopRunView { stage: StopStage::ReadingConfig, ..run },
        StopStepView {
            notice: notice_of("unloading_model"@, "Unloading speech recognition model..."@, 70),
            task: StopTaskView::ReadConfig { limit_secs: CONFIG_WAIT_SECS },
        },
    )
}

/// The stop after an event, what callers are told and what is to be done next. Only streams that
/// cannot be stopped make it fail: transcripts that can no longer come and a recording that cannot
/// be saved are passed over.
pub open spec fn stop_step(run: StopRunView, event: StopEventView) -> (StopRunView, StopStepView) {
    match (run.stage, event) {
        (StopStage::Checking, StopEventView::Checked { is_recording }) => if is_recording {
            (
                StopRunView { stage: StopStage::StoppingStreams, ..run },
                StopStepView {
                    notice: notice_of("stopping_audio"@, "Stopping audio capture..."@, 20),
                    task: StopTaskView::StopStreams,
                },
            )
        } else {
            (
                StopRunView { stage: StopStage::Idle, ..run },
                StopStepView { notice: None, task: StopTaskView::Done },
            )
        },
        (StopStage::StoppingStreams, StopEventView::StreamsFailed(e)) => (
            StopRunView { stage: StopStage::Failed, ..run },
            StopStepView {
                notice: None,
                task: StopTaskView::Fail("Failed to stop audio streams: "@ + e),
            },
        ),
        (StopStage::StoppingStreams, StopEventView::StreamsStopped { has_recording }) => (
            StopRunView { stage: StopStage::AwaitingTranscripts, has_recording, ..run },
            StopStepView {
                notice: notice_of(
                    "processing_transcripts"@,
                    "Processing remaining transcript chunks..."@,
                    40,
                ),
                task: StopTaskView::AwaitTranscripts,
            },
        ),
        (StopStage::AwaitingTranscripts, StopEventView::StillWaiting { elapsed_secs }) => (
            run,
            StopStepView {
                notice: Some(
                    NoticeView {
                        stage: "processing_transcripts"@,
                        message: "Processing transcripts... ("@ + text::numeral(
                            elapsed_secs as nat,
                        ) + "s elapsed)"@,
                        progress: 40,
                        elapsed_secs: Some(elapsed_secs),
                    },
                ),
                task: StopTaskView::Wait,
            },
        ),
        (StopStage::AwaitingTranscripts, StopEventView::TranscriptsDone) => after_transcripts(run),
        (StopStage::AwaitingTranscripts, StopEventView::TranscriptionCrashed) => after_transcripts(
            run,
        ),
        (StopStage::ReadingConfig, StopEventView::ConfigRead) => (
            StopRunView { stage: StopStage::Saving, ..run },
            StopStepView {
                notice: notice_of(
                    "finalizing"@,
                    "Finalizing recording and cleaning up resources..."@,
                    90,
                ),
                task: StopTaskView::Save {
                    has_recording: run.has_recording,
                    limit_secs: SAVE_WAIT_SECS,
                },
            },
        ),
        (StopStage::Saving, StopEventView::Saved { folder, name }) => (
            StopRunView {
                stage: StopStage::Clearing,
                folder: whereabouts(folder, name).0,
                name: whereabouts(folder, name).1,
                ..run
            },
            StopStepView { notice: None, task: StopTaskView::ClearFlag },
        ),
        // Only now are callers told that the recording has stopped.
        (StopStage::Clearing, StopEventView::Cleared) => (
            StopRunView { stage: StopStage::Stopped, ..run },
            StopStepView {
                notice: notice_of("complete"@, "Recording stopped successfully"@, 100),
                task: StopTaskView::Finish { folder: run.folder, name: run.name },
            },
        ),
        _ => (run, StopStepView { notice: None, task: StopTaskView::Nothing }),
    }
}

fn notice(stage: &str, message: &str, progress: u32) -> (r: Option<ShutdownNotice>)
    ensures
        notice_view(r) == notice_of(stage@, message@, progress),
{
    Some(
        ShutdownNotice {
            stage: stage.to_owned(),
            message: message.to_owned(),
            progress,
            elapsed_secs: None,
        },
    )
}

fn copied(s: &Option<String>) -> (r: Option<String>)
    ensures
        text::opt_text(r) == text::opt_text(*s),
{
    match s {
        Some(t) => Some(t.clone()),
        None => None,
    }
}

impl StopRun {
    /// A stop of which nothing has been done yet; the first thing is to check whether a recording
    /// runs.
    pub fn new() -> (r: Self)
        ensures
            r@ == (StopRunView {
                stage: StopStage::Checking,
                has_recording: false,
                folder: None,
                name: None,
            }),
    {
        StopRun { stage: StopStage::Checking, has_recording: false, folder: None, name: None }
    }

    fn go_on(&mut self) -> (r: StopStep)
        ensures
            (final(self)@, r@) == after_transcripts(old(self)@),
    {
        self.stage = StopStage::ReadingConfig;
        StopStep {
            notice: notice("unloading_model", "Unloading speech recognition model...", 70),
            task: StopTask::ReadConfig { limit_secs: CONFIG_WAIT_SECS },
        }
    }

    /// Takes in what happened; gives what callers are told and what is to be done next. An event
    /// that does not belong where the stop is changes nothing.
    pub fn advance(&mut self, event: StopEvent) -> (r: StopStep)
        ensures
            (final(self)@, r@) == stop_step(old(self)@, event@),
    {
        match (self.stage, event) {
            (StopStage::Checking, StopEvent::Checked { is_recording }) => {
                if !is_recording {
                    self.stage = StopStage::Idle;
                    return StopStep { notice: None, task: StopTask::Done };
                }
                self.stage = StopStage::StoppingStreams;
                StopStep {
                    notice: notice("stopping_audio", "Stopping audio capture...", 20),
                    task: StopTask::StopStreams,
                }
            },
            (StopStage::StoppingStreams, StopEvent::StreamsFailed(e)) => {
                self.stage = StopStage::Failed;
                StopStep {
                    notice: None,
                    task: StopTask::Fail(concat2("Failed to stop audio streams: ", e.as_str())),
                }
            },
            (StopStage::StoppingStreams, StopEvent::StreamsStopped { has_recording }) => {
                self.stage = StopStage::AwaitingTranscripts;
                self.has_recording = has_recording;
                StopStep {
                    notice: notice(
                        "processing_transcripts",
                        "Processing remaining transcript chunks...",
                        40,
                    ),
                    task: StopTask::AwaitTranscripts,
                }
            },
            (StopStage::AwaitingTranscripts, StopEvent::StillWaiting { elapsed_secs }) => {
                StopStep {
                    notice: Some(
                        ShutdownNotice {
                            stage: "processing_transcripts".to_owned(),
                            message: concat3(
                                "Processing transcripts... (",
                                decimal(elapsed_secs).as_str(),
                                "s elapsed)",
                            ),
                            progress: 40,
                            elapsed_secs: Some(elapsed_secs),
                        },
                    ),
                    task: StopTask::Wait,
                }
            },
            (StopStage::AwaitingTranscripts, StopEvent::TranscriptsDone) => self.go_on(),
            (StopStage::AwaitingTranscripts, StopEvent::TranscriptionCrashed) => self.go_on(),
            (StopStage::ReadingConfig, StopEvent::ConfigRead) => {
                self.stage = StopStage::Saving;
                StopStep {
                    notice: notice(
                        "finalizing",
                        "Finalizing recording and cleaning up resources...",
                        90,
                    ),
                    task: StopTask::Save {
                        has_recording: self.has_recording,
                        limit_secs: SAVE_WAIT_SECS,
                    },
                }
            },
            (StopStage::Saving, StopEvent::Saved { folder, name }) => {
                self.stage = StopStage::Clearing;
                if folder.is_some() && name.is_some() {
                    self.folder = folder;
                    self.name = name;
                } else {
                    self.folder = None;
                    self.name = None;
                }
                StopStep { notice: None, task: StopTask::ClearFlag }
            },
            (StopStage::Clearing, StopEvent::Cleared) => {
                self.stage = StopStage::Stopped;
                StopStep {
                    notice: notice("complete", "Recording stopped successfully", 100),
                    task: StopTask::Finish {
                        folder: copied(&self.folder),
                        name: copied(&self.name),
                    },
                }
            },
            _ => StopStep { notice: None, task: StopTask::Nothing },
        }
    }
}

/// A stop after a course of events, and the progress that callers were told.
pub open spec fn stop_course(run: StopRunView, events: Seq<StopEventView>) -> (StopRunView, Seq<u32>)
    decreases events.len(),
{
    if events.len() == 0 {
        (run, Seq::empty())
    } else {
        let (before, told) = stop_course(run, events.drop_last());
        let (after, step) = stop_step(before, events.last());
        (
            after,
            match step.notice {
                Some(n) => told.push(n.progress),
                None => told,
            },
        )
    }
}

/// The progress that callers were last told at a stage.
pub open spec fn progress_at(stage: StopStage) -> u32 {
    match stage {
        StopStage::Checking => 0,
        StopStage::Idle => 0,
        StopStage::StoppingStreams => 20,
        StopStage::Failed => 20,
        StopStage::AwaitingTranscripts => 40,
        StopStage::ReadingConfig => 70,
        StopStage::Saving => 90,
        StopStage::Clearing => 90,
        StopStage::Stopped => 100,
    }
}

/// The progress that callers are told never falls, and reaches the end exactly when the
/// recording has ended.
pub proof fn progress_never_falls(run: StopRunView, events: Seq<StopEventView>)
    requires
        run.stage == StopStage::Checking,
    ensures
        ({
            let (after, told) = stop_course(run, events);
            &&& forall|i: int, j: int|
                0 <= i <= j < told.len() ==> #[trigger] told[i] <= #[trigger] told[j]
            &&& told.len() == 0 ==> progress_at(after.stage) == 0
            &&& told.len() > 0 ==> told.last() == progress_at(after.stage)
            &&& after.stage == StopStage::Stopped <==> told.len() > 0 && told.last() == 100
        }),
    decreases events.len(),
{
    if events.len() > 0 {
        let shorter = events.drop_last();
        progress_never_falls(run, shorter);
        let (before, told) = stop_course(run, shorter);
        let (after, step) = stop_step(before, events.last());
        match step.notice {
            Some(n) => {
                let longer = told.push(n.progress);
                assert forall|i: int, j: int| 0 <= i <= j < longer.len() implies #[trigger]
                    longer[i] <= #[trigger] longer[j] by {
                    if j == told.len() && i < told.len() {
                        assert(told[i] <= told[told.len() - 1]);
                    }
                }
            },
            None => {},
        }
    }
}

/// Whether an event is among others.
pub open spec fn among(event: StopEventView, events: Seq<StopEventView>) -> bool {
    exists|i: int| 0 <= i < events.len() && #[trigger] events[i] == event
}

/// Nothing is saved or ended before all transcripts are there: a stop gets to those stages only
/// after the word that they are, or that the task that writes them went down.
pub proof fn transcripts_come_first(run: StopRunView, events: Seq<StopEventView>)
    requires
        run.stage == StopStage::Checking,
    ensures
        ({
            let stage = stop_course(run, events).0.stage;
            stage == StopStage::ReadingConfig || stage == StopStage::Saving || stage
                == StopStage::Clearing || stage == StopStage::Stopped ==> among(StopEventView::TranscriptsDone, events) || among(
                StopEventView::TranscriptionCrashed,
                events,
            )
        }),
    decreases events.len(),
{
    if events.len() > 0 {
        let shorter = events.drop_last();
        transcripts_come_first(run, shorter);
        assert(events[events.len() - 1] == events.last());
        stays_among(StopEventView::TranscriptsDone, events);
        stays_among(StopEventView::TranscriptionCrashed, events);
    }
}

proof fn stays_among(event: StopEventView, events: Seq<StopEventView>)
    requires
        events.len() > 0,
    ensures
        among(event, events.drop_last()) ==> among(event, events),
{
    let shorter = events.drop_last();
    if among(event, shorter) {
        let i = choose|i: int| 0 <= i < shorter.len() && #[trigger] shorter[i] == event;
        assert(events[i] == event);
    }
}

/// Callers are told that a recording has stopped only once its flag is cleared: that notice comes
/// with the word that it is, and at no other step.
pub proof fn flags_are_cleared_first(run: StopRunView, event: StopEventView)
    ensures
        ({
            let (after, step) = stop_step(run, event);
            let told = step.notice matches Some(n) && n.progress == 100;
            &&& told <==> run.stage == StopStage::Clearing && event == StopEventView::Cleared
            &&& run.stage != StopStage::Stopped ==> (told <==> after.stage == StopStage::Stopped)
            &&& run.stage == StopStage::Saving && event is Saved ==> step.task
                == StopTaskView::ClearFlag
        }),
{
}

/// However long transcripts take, waiting for them goes on: no number of seconds makes a stop go
/// on without them.
pub proof fn waiting_has_no_limit(run: StopRunView, elapsed_secs: u64)
    requires
        run.stage == StopStage::AwaitingTranscripts,
    ensures
        stop_step(run, StopEventView::StillWaiting { elapsed_secs }).0 == run,
        stop_step(run, StopEventView::StillWaiting { elapsed_secs }).1.task == StopTaskView::Wait,
{
}

/// Once the streams have stopped, nothing keeps the recording from ending: from there on a stop
/// does not fail.
pub proof fn stops_do_not_fail_late(run: StopRunView, event: StopEventView)
    requires
        run.stage == StopStage::AwaitingTranscripts || run.stage == StopStage::ReadingConfig
            || run.stage == StopStage::Saving || run.stage == StopStage::Clearing,
    ensures
        stop_step(run, event).0.stage != StopStage::Failed,
        !(stop_step(run, event).1.task is Fail),
{
}

/// A recording is stopped step by step: its streams, then its transcripts, the configuration, the
/// recording itself and last its flag; callers are told of each step before it is done, and at the
/// end where the recording is, where both its folder and its name are known.
pub proof fn stops_take_their_course(
    has_recording: bool,
    crashed: bool,
    folder: Option<Seq<char>>,
    name: Option<Seq<char>>,
    reason: Seq<char>,
)
    ensures
        ({
            let run = StopRunView {
                stage: StopStage::Checking,
                has_recording: false,
                folder: None,
                name: None,
            };
            let says = |step: StopStepView, stage: Seq<char>, message: Seq<char>, progress: u32|
                step.notice == Some(NoticeView { stage, message, progress, elapsed_secs: None });
            let (idle, nothing) = stop_step(run, StopEventView::Checked { is_recording: false });
            let (r1, s1) = stop_step(run, StopEventView::Checked { is_recording: true });
            let (broken, failure) = stop_step(r1, StopEventView::StreamsFailed(reason));
            let (r2, s2) = stop_step(r1, StopEventView::StreamsStopped { has_recording });
            let (r3, s3) = stop_step(
                r2,
                if crashed {
                    StopEventView::TranscriptionCrashed
                } else {
                    StopEventView::TranscriptsDone
                },
            );
            let (r4, s4) = stop_step(r3, StopEventView::ConfigRead);
            let (r5, s5) = stop_step(r4, StopEventView::Saved { folder, name });
            let (r6, s6) = stop_step(r5, StopEventView::Cleared);
            &&& nothing.notice is None && nothing.task == StopTaskView::Done
            &&& says(s1, "stopping_audio"@, "Stopping audio capture..."@, 20)
            &&& s1.task == StopTaskView::StopStreams
            &&& failure.notice is None && failure.task == StopTaskView::Fail(
                "Failed to stop audio streams: "@ + reason,
            )
            &&& says(
                s2,
                "processing_transcripts"@,
                "Processing remaining transcript chunks..."@,
                40,
            )
            &&& s2.task == StopTaskView::AwaitTranscripts
            &&& says(s3, "unloading_model"@, "Unloading speech recognition model..."@, 70)
            &&& s3.task == (StopTaskView::ReadConfig { limit_secs: 30 })
            &&& says(s4, "finalizing"@, "Finalizing recording and cleaning up resources..."@, 90)
            &&& s4.task == (StopTaskView::Save { has_recording, limit_secs: 300 })
            &&& s5.notice is None && s5.task == StopTaskView::ClearFlag
            &&& says(s6, "complete"@, "Recording stopped successfully"@, 100)
            &&& folder is Some && name is Some ==> s6.task == (StopTaskView::Finish {
                folder,
                name,
            })
            &&& folder is None || name is None ==> s6.task == (StopTaskView::Finish {
                folder: None,
                name: None,
            })
            &&& r6.stage == StopStage::Stopped && idle.stage == StopStage::Idle && broken.stage
                == StopStage::Failed
        }),
{
}

/// While transcripts are waited for, callers are told for how many seconds.
pub proof fn waiting_is_told_in_seconds(run: StopRunView, elapsed_secs: u64)
    requires
        run.stage == StopStage::AwaitingTranscripts,
    ensures
        stop_step(run, StopEventView::StillWaiting { elapsed_secs }).1.notice == Some(
            NoticeView {
                stage: "processing_transcripts"@,
                message: "Processing transcripts... ("@ + text::numeral(elapsed_secs as nat)
                    + "s elapsed)"@,
                progress: 40,
                elapsed_secs: Some(elapsed_secs),
            },
        ),
{
}

/// What does not belong where a stop is leaves it as it is, and nothing is told or done; that is
/// so of everything once it has ended.
pub proof fn other_events_leave_stops_alone(run: StopRunView, event: StopEventView)
    requires
        match run.stage {
            StopStage::Checking => !(event is Checked),
            StopStage::StoppingStreams => !(event is StreamsStopped) && !(event is StreamsFailed),
            StopStage::AwaitingTranscripts => !(event is StillWaiting) && !(event
                is TranscriptsDone) && !(event is TranscriptionCrashed),
            StopStage::ReadingConfig => !(event is ConfigRead),
            StopStage::Saving => !(event is Saved),
            StopStage::Clearing => !(event is Cleared),
            StopStage::Stopped | StopStage::Idle | StopStage::Failed => true,
        },
    ensures
        stop_step(run, event) == (
            run,
            StopStepView { notice: None, task: StopTaskView::Nothing },
        ),
{
}

} // verus!

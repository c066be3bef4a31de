//! Segments of a running transcript on their way to be translated, one after the other.

use std::collections::{HashSet, VecDeque};

use vstd::prelude::*;
#[allow(unused_imports)]
use vstd::string::StringExecFns;

use crate::text;
use crate::text::{concat2, same, strip_prefix, trim};
use crate::translation;
use crate::translation::{resolve_direction, SettingsView, TranslationSettings};

verus! {

/// After so many tokens a partial translation is shown.
pub const PARTIAL_TOKENS: usize = 8;

/// After so many milliseconds a partial translation is shown.
pub const PARTIAL_MILLIS: u64 = 250;

/// A segment that waits to be translated.
#[derive(Debug)]
pub struct TranslateTask {
    pub text: String,
    pub sequence_id: u64,
}

/// A segment that waits to be translated, as a mathematical value.
pub struct TaskView {
    pub text: Seq<char>,
    pub sequence_id: u64,
}

impl View for TranslateTask {
    type V = TaskView;

    open spec fn view(&self) -> TaskView {
        TaskView { text: self.text@, sequence_id: self.sequence_id }
    }
}

/// The views of tasks.
pub open spec fn task_views(tasks: Seq<TranslateTask>) -> Seq<TaskView> {
    tasks.map_values(|t: TranslateTask| t@)
}

/// A translation to be shown, in part or whole.
#[derive(Debug)]
pub struct TranslateUpdate {
    pub sequence_id: u64,
    pub original_text: String,
    pub translated_text: String,
    pub source_lang: String,
    pub target_lang: String,
    pub is_partial: bool,
}

/// A translation to be shown, as a mathematical value.
pub struct UpdateView {
    pub sequence_id: u64,
    pub original_text: Seq<char>,
    pub translated_text: Seq<char>,
    pub source_lang: Seq<char>,
    pub target_lang: Seq<char>,
    pub is_partial: bool,
}

impl View for TranslateUpdate {
    type V = UpdateView;

    open spec fn view(&self) -> UpdateView {
        UpdateView {
            sequence_id: self.sequence_id,
            original_text: self.original_text@,
            translated_text: self.translated_text@,
            source_lang: self.source_lang@,
            target_lang: self.target_lang@,
            is_partial: self.is_partial,
        }
    }
}

/// Who translates.
#[derive(Debug)]
pub enum TranslationRoute {
    /// The server of the profile with this identifier.
    Custom(String),
    /// The language model.
    Hymt2,
    /// The built-in engine for the job's direction.
    Opus,
}

/// Who translates, as a mathematical value.
pub enum RouteView {
    Custom(Seq<char>),
    Hymt2,
    Opus,
}

impl View for TranslationRoute {
    type V = RouteView;

    open spec fn view(&self) -> RouteView {
        match *self {
            TranslationRoute::Custom(id) => RouteView::Custom(id@),
            TranslationRoute::Hymt2 => RouteView::Hymt2,
            TranslationRoute::Opus => RouteView::Opus,
        }
    }
}

/// Who translates with an engine.
pub open spec fn route_of(engine: Seq<char>) -> RouteView {
    if "custom:"@.is_prefix_of(engine) {
        RouteView::Custom(engine.skip("custom:"@.len() as int))
    } else if engine == "hymt2"@ {
        RouteView::Hymt2
    } else {
        RouteView::Opus
    }
}

/// Who translates with an engine.
pub fn translation_route(engine: &str) -> (r: TranslationRoute)
    ensures
        r@ == route_of(engine@),
{
    match strip_prefix(engine, "custom:") {
        Some(id) => TranslationRoute::Custom(id),
        None => {
            if same(engine, "hymt2") {
                TranslationRoute::Hymt2
            } else {
                TranslationRoute::Opus
            }
        },
    }
}

/// A segment to be translated now.
#[derive(Debug)]
pub struct TranslationJob {
    pub text: String,
    pub sequence_id: u64,
    pub direction: String,
    pub source_lang: String,
    pub target_lang: String,
    pub route: TranslationRoute,
}

/// A segment to be translated now, as a mathematical value.
pub struct JobView {
    pub text: Seq<char>,
    pub sequence_id: u64,
    pub direction: Seq<char>,
    pub source_lang: Seq<char>,
    pub target_lang: Seq<char>,
    pub route: RouteView,
}

impl View for TranslationJob {
    type V = JobView;

    open spec fn view(&self) -> JobView {
        JobView {
            text: self.text@,
            sequence_id: self.sequence_id,
            direction: self.direction@,
            source_lang: self.source_lang@,
            target_lang: self.target_lang@,
            route: self.route@,
        }
    }
}

/// The view of a job, where there is one.
pub open spec fn job_view(job: Option<TranslationJob>) -> Option<JobView> {
    match job {
        Some(j) => Some(j@),
        None => None,
    }
}

/// The view of an update, where there is one.
pub open spec fn update_view(update: Option<TranslateUpdate>) -> Option<UpdateView> {
    match update {
        Some(u) => Some(u@),
        None => None,
    }
}

/// The job that a task becomes; `None` where there is nothing to translate.
pub open spec fn job_for(
    settings: SettingsView,
    supported: Seq<Seq<char>>,
    target: Seq<char>,
    task: TaskView,
) -> Option<JobView> {
    match translation::direction_of(
        settings.engine,
        settings.home,
        supported,
        task.text,
        target,
    ) {
        Some(w) => Some(
            JobView {
                text: task.text,
                sequence_id: task.sequence_id,
                direction: w.0,
                source_lang: w.1,
                target_lang: w.2,
                route: route_of(settings.engine),
            },
        ),
        None => None,
    }
}

/// The segments of a recording that wait to be translated, those that were ever queued, and
/// whether someone is working on them.
#[derive(Debug)]
pub struct TranslationQueue {
    pub tasks: VecDeque<TranslateTask>,
    pub seen: HashSet<u64>,
    pub worker_running: bool,
}

/// The queue as a mathematical value.
pub struct QueueView {
    pub tasks: Seq<TaskView>,
    pub seen: Set<u64>,
    pub worker_running: bool,
}

impl View for TranslationQueue {
    type V = QueueView;

    open spec fn view(&self) -> QueueView {
        QueueView {
            tasks: task_views(self.tasks@),
            seen: self.seen@,
            worker_running: self.worker_running,
        }
    }
}

/// Whether every segment that waits is among those that were queued, and nothing waits without
/// a worker.
pub open spec fn queue_valid(q: QueueView) -> bool {
    &&& forall|i: int|
        0 <= i < q.tasks.len() ==> q.seen.contains((#[trigger] q.tasks[i]).sequence_id)
    &&& q.tasks.len() > 0 ==> q.worker_running
}

/// Whether a segment is to be translated at all: translation is on, it has text, and that text
/// is not in the target language already.
pub open spec fn is_wanted(settings: SettingsView, supported: Seq<Seq<char>>, s: Seq<char>) -> bool {
    settings.enabled && text::trimmed(s).len() > 0 && translation::direction_of(
        settings.engine,
        settings.home,
        supported,
        text::trimmed(s),
        settings.target,
    ) is Some
}

/// Whether a segment that comes is the one for which a worker is started.
pub open spec fn starts_worker(
    q: QueueView,
    settings: SettingsView,
    supported: Seq<Seq<char>>,
    s: Seq<char>,
) -> bool {
    is_wanted(settings, supported, s) && !q.worker_running
}

/// The queue after a segment came.
pub open spec fn after_queueing(
    q: QueueView,
    settings: SettingsView,
    supported: Seq<Seq<char>>,
    s: Seq<char>,
    sequence_id: u64,
) -> QueueView {
    if is_wanted(settings, supported, s) {
        QueueView {
            tasks: q.tasks.push(TaskView { text: text::trimmed(s), sequence_id }),
            seen: q.seen.insert(sequence_id),
            worker_running: true,
        }
    } else {
        q
    }
}

/// The next job of a queue and the tasks that are left behind it.
pub open spec fn next_of(
    tasks: Seq<TaskView>,
    settings: SettingsView,
    supported: Seq<Seq<char>>,
    target: Seq<char>,
) -> (Option<JobView>, Seq<TaskView>)
    decreases tasks.len(),
{
    if tasks.len() == 0 {
        (None, tasks)
    } else {
        match job_for(settings, supported, target, tasks.first()) {
            Some(job) => (Some(job), tasks.drop_first()),
            None => next_of(tasks.drop_first(), settings, supported, target),
        }
    }
}

impl TranslationQueue {
    /// Nothing queued yet.
    pub fn new() -> (r: Self)
        ensures
            r@ == (QueueView { tasks: Seq::empty(), seen: Set::empty(), worker_running: false }),
            queue_valid(r@),
    {
        let q: TranslationQueue = TranslationQueue {
            tasks: VecDeque::new(),
            seen: HashSet::new(),
            worker_running: false,
        };
        assert(task_views(q.tasks@) =~= Seq::empty());
        q
    }

    /// Begins a pass over the queue: gives the language to translate to throughout the pass. Where
    /// translation is off, what waits is dropped and there is no pass.
    pub fn begin_pass(&mut self, settings: &TranslationSettings) -> (r: Option<String>)
        ensures
            text::opt_text(r) == (if settings@.enabled {
                Some(settings@.target)
            } else {
                None
            }),
            final(self)@ == (if settings@.enabled {
                old(self)@
            } else {
                QueueView { tasks: Seq::empty(), ..old(self)@ }
            }),
    {
        if !settings.enabled {
            self.tasks.clear();
            assert(task_views(self.tasks@) =~= Seq::empty());
            return None;
        }
        Some(settings.target.clone())
    }

    /// Takes the next segment that there is something to translate in; what comes before it is
    /// dropped.
    pub fn next_translation(
        &mut self,
        settings: &TranslationSettings,
        supported: &Vec<String>,
        target: &str,
    ) -> (r: Option<TranslationJob>)
        ensures
            (job_view(r), final(self)@.tasks) == next_of(
                old(self)@.tasks,
                settings@,
                text::texts(supported@),
                target@,
            ),
            final(self)@.seen == old(self)@.seen,
            final(self)@.worker_running == old(self)@.worker_running,
    {
        let ghost start = self@;
        loop
            invariant
                self@.seen == start.seen,
                self@.worker_running == start.worker_running,
                next_of(start.tasks, settings@, text::texts(supported@), target@) == next_of(
                    self@.tasks,
                    settings@,
                    text::texts(supported@),
                    target@,
                ),
                start == old(self)@,
            decreases self.tasks@.len(),
        {
            let ghost before = self@.tasks;
            match self.tasks.pop_front() {
                None => {
                    return None;
                },
                Some(task) => {
                    assert(task@ == before.first());
                    assert(self@.tasks =~= before.drop_first());
                    match resolve_direction(
                        settings.engine.as_str(),
                        settings.home.as_str(),
                        supported,
                        task.text.as_str(),
                        target,
                    ) {
                        None => {},
                        Some(way) => {
                            return Some(
                                TranslationJob {
                                    text: task.text,
                                    sequence_id: task.sequence_id,
                                    direction: way.0,
                                    source_lang: way.1,
                                    target_lang: way.2,
                                    route: translation_route(settings.engine.as_str()),
                                },
                            );
                        },
                    }
                },
            }
        }
    }

    /// Ends a worker after a pass, unless something has come in the meantime; says whether the
    /// worker has ended.
    pub fn end_worker(&mut self) -> (r: bool)
        ensures
            r == (old(self)@.tasks.len() == 0),
            final(self)@ == (QueueView {
                worker_running: old(self)@.worker_running && !r,
                ..old(self)@
            }),
    {
        if self.tasks.len() == 0 {
            self.worker_running = false;
            return true;
        }
        false
    }
}

/// Forgets all segments, when a new recording starts to number them anew.
pub fn reset_translation_session(queue: &mut TranslationQueue)
    ensures
        final(queue)@ == (QueueView {
            tasks: Seq::empty(),
            seen: Set::empty(),
            worker_running: old(queue)@.worker_running,
        }),
        queue_valid(final(queue)@),
{
    queue.tasks.clear();
    queue.seen.clear();
    assert(task_views(queue.tasks@) =~= Seq::empty());
}

/// Whether a segment was ever queued.
pub fn translation_seen(queue: &TranslationQueue, sequence_id: u64) -> (r: bool)
    ensures
        r == queue@.seen.contains(sequence_id),
{
    broadcast use vstd::std_specs::hash::group_hash_axioms;

    queue.seen.contains(&sequence_id)
}

/// Starts a worker where translation is on and none is running; says whether the caller is to
/// be it.
pub fn kick_translation_worker(
    queue: &mut TranslationQueue,
    settings: &TranslationSettings,
) -> (r: bool)
    ensures
        r == (settings@.enabled && !old(queue)@.worker_running),
        final(queue)@ == (QueueView {
            worker_running: old(queue)@.worker_running || settings@.enabled,
            ..old(queue)@
        }),
{
    if !settings.enabled {
        return false;
    }
    let first: bool = !queue.worker_running;
    queue.worker_running = true;
    first
}

/// Queues a segment to be translated, unless translation is off or there is nothing to
/// translate in it; says whether the caller is to start a worker.
pub fn queue_translation(
    queue: &mut TranslationQueue,
    settings: &TranslationSettings,
    supported: &Vec<String>,
    text: &str,
    sequence_id: u64,
) -> (r: bool)
    ensures
        final(queue)@ == after_queueing(
            old(queue)@,
            settings@,
            text::texts(supported@),
            text@,
            sequence_id,
        ),
        r == starts_worker(old(queue)@, settings@, text::texts(supported@), text@),
{
    broadcast use vstd::std_specs::hash::group_hash_axioms;

    if !settings.enabled {
        return false;
    }
    let words: String = trim(text);
    if words.as_str().is_empty() {
        return false;
    }
    if resolve_direction(
        settings.engine.as_str(),
        settings.home.as_str(),
        supported,
        words.as_str(),
        settings.target.as_str(),
    ).is_none() {
        return false;
    }
    let ghost before = queue@;
    queue.tasks.push_back(TranslateTask { text: words, sequence_id });
    queue.seen.insert(sequence_id);
    assert(task_views(queue.tasks@) =~= before.tasks.push(
        TaskView { text: words@, sequence_id },
    ));
    kick_translation_worker(queue, settings)
}

/// The translation of a job, to be shown; a failed one shows nothing.
pub open spec fn finished_update(job: JobView, result: Result<Seq<char>, Seq<char>>) -> Option<
    UpdateView,
> {
    match result {
        Ok(translated) => Some(
            UpdateView {
                sequence_id: job.sequence_id,
                original_text: job.text,
                translated_text: translated,
                source_lang: job.source_lang,
                target_lang: job.target_lang,
                is_partial: false,
            },
        ),
        Err(_) => None,
    }
}

/// The translation of a job, to be shown; a failed one shows nothing.
pub fn finish_translation(job: &TranslationJob, result: Result<String, String>) -> (r: Option<
    TranslateUpdate,
>)
    ensures
        update_view(r) == finished_update(job@, text::result_text(result)),
{
    match result {
        Ok(translated) => Some(
            TranslateUpdate {
                sequence_id: job.sequence_id,
                original_text: job.text.clone(),
                translated_text: translated,
                source_lang: job.source_lang.clone(),
                target_lang: job.target_lang.clone(),
                is_partial: false,
            },
        ),
        Err(_) => None,
    }
}

/// A translation that comes token by token.
#[derive(Debug)]
pub struct PartialTranslation {
    pub text: String,
    pub tokens_since_shown: usize,
}

/// A translation that comes token by token, as a mathematical value.
pub struct PartialView {
    pub text: Seq<char>,
    pub tokens_since_shown: int,
}

impl View for PartialTranslation {
    type V = PartialView;

    open spec fn view(&self) -> PartialView {
        PartialView { text: self.text@, tokens_since_shown: self.tokens_since_shown as int }
    }
}

/// Whether a token is the one after which the text so far is shown.
pub open spec fn shows_now(p: PartialView, millis_since_shown: u64) -> bool {
    p.tokens_since_shown + 1 >= PARTIAL_TOKENS || millis_since_shown >= PARTIAL_MILLIS
}

/// A partial translation after one more token.
pub open spec fn after_token(p: PartialView, delta: Seq<char>, millis_since_shown: u64) -> PartialView {
    PartialView {
        text: p.text + delta,
        tokens_since_shown: if shows_now(p, millis_since_shown) {
            0
        } else {
            p.tokens_since_shown + 1
        },
    }
}

impl PartialTranslation {
    /// Nothing has come yet.
    pub fn new() -> (r: Self)
        ensures
            r@ == (PartialView { text: Seq::empty(), tokens_since_shown: 0 }),
    {
        let empty: String = String::new();
        assert(empty@ =~= Seq::empty());
        PartialTranslation { text: empty, tokens_since_shown: 0 }
    }

    /// Takes in a token. The text so far is shown after a number of tokens, or when it was last
    /// shown a while ago.
    pub fn push(&mut self, job: &TranslationJob, delta: &str, millis_since_shown: u64) -> (r:
        Option<TranslateUpdate>)
        requires
            old(self)@.tokens_since_shown < PARTIAL_TOKENS,
        ensures
            final(self)@ == after_token(old(self)@, delta@, millis_since_shown),
            final(self)@.tokens_since_shown < PARTIAL_TOKENS,
            update_view(r) == (if shows_now(old(self)@, millis_since_shown) {
                Some(
                    UpdateView {
                        sequence_id: job@.sequence_id,
                        original_text: job@.text,
                        translated_text: old(self)@.text + delta@,
                        source_lang: job@.source_lang,
                        target_lang: job@.target_lang,
                        is_partial: true,
                    },
                )
            } else {
                None
            }),
    {
        self.text = concat2(self.text.as_str(), delta);
        self.tokens_since_shown += 1;
        if self.tokens_since_shown >= PARTIAL_TOKENS || millis_since_shown >= PARTIAL_MILLIS {
            self.tokens_since_shown = 0;
            return Some(
                TranslateUpdate {
                    sequence_id: job.sequence_id,
                    original_text: job.text.clone(),
                    translated_text: self.text.clone(),
                    source_lang: job.source_lang.clone(),
                    target_lang: job.target_lang.clone(),
                    is_partial: true,
                },
            );
        }
        None
    }
}

/// Whatever waits was queued and has a worker, whichever way the queue is used: queueing a
/// segment, starting a worker, taking the next segment, dropping what waits and ending a worker
/// all keep it so.
pub proof fn queues_stay_valid(
    q: QueueView,
    settings: SettingsView,
    supported: Seq<Seq<char>>,
    s: Seq<char>,
    sequence_id: u64,
    target: Seq<char>,
)
    requires
        queue_valid(q),
    ensures
        queue_valid(after_queueing(q, settings, supported, s, sequence_id)),
        queue_valid(
            QueueView { tasks: next_of(q.tasks, settings, supported, target).1, ..q },
        ),
        queue_valid(QueueView { tasks: Seq::empty(), ..q }),
        queue_valid(QueueView { worker_running: q.worker_running || settings.enabled, ..q }),
        queue_valid(
            QueueView { worker_running: q.worker_running && q.tasks.len() > 0, ..q },
        ),
{
    let after = after_queueing(q, settings, supported, s, sequence_id);
    assert forall|i: int| 0 <= i < after.tasks.len() implies after.seen.contains(
        (#[trigger] after.tasks[i]).sequence_id,
    ) by {
        if i < q.tasks.len() {
            assert(q.seen.contains(q.tasks[i].sequence_id));
        }
    }
    rest_is_a_suffix(q.tasks, settings, supported, target);
    let rest = next_of(q.tasks, settings, supported, target).1;
    let dropped = q.tasks.len() - rest.len();
    assert forall|i: int| 0 <= i < rest.len() implies q.seen.contains(
        (#[trigger] rest[i]).sequence_id,
    ) by {
        assert(rest[i] == q.tasks[i + dropped]);
    }
}

proof fn rest_is_a_suffix(
    tasks: Seq<TaskView>,
    settings: SettingsView,
    supported: Seq<Seq<char>>,
    target: Seq<char>,
)
    ensures
        ({
            let rest = next_of(tasks, settings, supported, target).1;
            rest.len() <= tasks.len() && rest == tasks.skip(tasks.len() - rest.len())
        }),
    decreases tasks.len(),
{
    if tasks.len() == 0 {
        assert(tasks =~= tasks.skip(0));
    } else {
        match job_for(settings, supported, target, tasks.first()) {
            Some(_) => {
                assert(tasks.drop_first() =~= tasks.skip(1));
            },
            None => {
                let shorter = tasks.drop_first();
                rest_is_a_suffix(shorter, settings, supported, target);
                let rest = next_of(shorter, settings, supported, target).1;
                assert(rest =~= tasks.skip(tasks.len() - rest.len()));
            },
        }
    }
}

/// The jobs of a list of tasks, in order; tasks with nothing to translate give none.
pub open spec fn jobs_of(
    tasks: Seq<TaskView>,
    settings: SettingsView,
    supported: Seq<Seq<char>>,
    target: Seq<char>,
) -> Seq<JobView>
    decreases tasks.len(),
{
    if tasks.len() == 0 {
        Seq::empty()
    } else {
        let rest = jobs_of(tasks.drop_first(), settings, supported, target);
        match job_for(settings, supported, target, tasks.first()) {
            Some(job) => seq![job] + rest,
            None => rest,
        }
    }
}

/// Segments are translated in the order in which they came, each once: the next job is the first
/// of those that the queue holds, and what is left holds the others.
pub proof fn segments_are_taken_in_order(
    tasks: Seq<TaskView>,
    settings: SettingsView,
    supported: Seq<Seq<char>>,
    target: Seq<char>,
)
    ensures
        ({
            let (job, rest) = next_of(tasks, settings, supported, target);
            match job {
                Some(j) => jobs_of(tasks, settings, supported, target) == seq![j] + jobs_of(
                    rest,
                    settings,
                    supported,
                    target,
                ) && rest.len() < tasks.len(),
                None => jobs_of(tasks, settings, supported, target) == Seq::<JobView>::empty()
                    && rest.len() == 0,
            }
        }),
    decreases tasks.len(),
{
    if tasks.len() > 0 && job_for(settings, supported, target, tasks.first()) is None {
        segments_are_taken_in_order(tasks.drop_first(), settings, supported, target);
    }
}

/// A segment that is queued is translated, as long as the settings stay as they are: its job is
/// the last of those that the queue then holds.
pub proof fn queued_segments_are_translated(
    q: QueueView,
    settings: SettingsView,
    supported: Seq<Seq<char>>,
    s: Seq<char>,
    sequence_id: u64,
)
    requires
        is_wanted(settings, supported, s),
    ensures
        ({
            let after = after_queueing(q, settings, supported, s, sequence_id);
            let task = TaskView { text: text::trimmed(s), sequence_id };
            let job = job_for(settings, supported, settings.target, task);
            job is Some && jobs_of(after.tasks, settings, supported, settings.target) == jobs_of(
                q.tasks,
                settings,
                supported,
                settings.target,
            ).push(job->0)
        }),
{
    let task = TaskView { text: text::trimmed(s), sequence_id };
    jobs_of_one_more(q.tasks, task, settings, supported, settings.target);
}

proof fn jobs_of_one_more(
    tasks: Seq<TaskView>,
    task: TaskView,
    settings: SettingsView,
    supported: Seq<Seq<char>>,
    target: Seq<char>,
)
    requires
        job_for(settings, supported, target, task) is Some,
    ensures
        jobs_of(tasks.push(task), settings, supported, target) == jobs_of(
            tasks,
            settings,
            supported,
            target,
        ).push(job_for(settings, supported, target, task)->0),
    decreases tasks.len(),
{
    let longer = tasks.push(task);
    let job = job_for(settings, supported, target, task)->0;
    if tasks.len() == 0 {
        assert(longer.drop_first() =~= Seq::empty());
        assert(jobs_of(longer.drop_first(), settings, supported, target) =~= Seq::empty());
        assert(seq![job] + Seq::<JobView>::empty() =~= Seq::<JobView>::empty().push(job));
    } else {
        jobs_of_one_more(tasks.drop_first(), task, settings, supported, target);
        assert(longer.drop_first() =~= tasks.drop_first().push(task));
        let rest = jobs_of(tasks.drop_first(), settings, supported, target);
        match job_for(settings, supported, target, tasks.first()) {
            Some(j) => {
                assert(seq![j] + rest.push(job) =~= (seq![j] + rest).push(job));
            },
            None => {},
        }
    }
}

/// The queue after a run of segments came, each with its number.
pub open spec fn after_segments(
    q: QueueView,
    settings: SettingsView,
    supported: Seq<Seq<char>>,
    segments: Seq<(Seq<char>, u64)>,
) -> QueueView
    decreases segments.len(),
{
    if segments.len() == 0 {
        q
    } else {
        after_queueing(
            after_segments(q, settings, supported, segments.drop_last()),
            settings,
            supported,
            segments.last().0,
            segments.last().1,
        )
    }
}

/// At most one worker runs: however many segments come while one does, nobody is told to start
/// another.
pub proof fn workers_do_not_overlap(
    q: QueueView,
    settings: SettingsView,
    supported: Seq<Seq<char>>,
    segments: Seq<(Seq<char>, u64)>,
    s: Seq<char>,
)
    requires
        q.worker_running,
    ensures
        !starts_worker(after_segments(q, settings, supported, segments), settings, supported, s),
{
    running_workers_keep_running(q, settings, supported, segments);
}

proof fn running_workers_keep_running(
    q: QueueView,
    settings: SettingsView,
    supported: Seq<Seq<char>>,
    segments: Seq<(Seq<char>, u64)>,
)
    requires
        q.worker_running,
    ensures
        after_segments(q, settings, supported, segments).worker_running,
    decreases segments.len(),
{
    if segments.len() > 0 {
        running_workers_keep_running(q, settings, supported, segments.drop_last());
    }
}

/// A partial translation after a run of tokens, each with the time since the text was last shown.
pub open spec fn after_tokens(p: PartialView, tokens: Seq<(Seq<char>, u64)>) -> PartialView
    decreases tokens.len(),
{
    if tokens.len() == 0 {
        p
    } else {
        after_token(after_tokens(p, tokens.drop_last()), tokens.last().0, tokens.last().1)
    }
}

/// However the tokens come, the text is never more than a number of tokens ahead of what was
/// last shown.
pub proof fn partial_texts_keep_up(p: PartialView, tokens: Seq<(Seq<char>, u64)>)
    requires
        0 <= p.tokens_since_shown < PARTIAL_TOKENS,
    ensures
        0 <= after_tokens(p, tokens).tokens_since_shown < PARTIAL_TOKENS,
    decreases tokens.len(),
{
    if tokens.len() > 0 {
        partial_texts_keep_up(p, tokens.drop_last());
    }
}

/// An engine named `custom:` and an identifier is the server of that profile, `hymt2` is the
/// language model, and every other one is built in.
pub proof fn engines_are_told_by_name(engine: Seq<char>, id: Seq<char>)
    ensures
        route_of("custom:"@ + id) == RouteView::Custom(id),
        route_of("hymt2"@) == RouteView::Hymt2,
        !"custom:"@.is_prefix_of(engine) && engine != "hymt2"@ ==> route_of(engine)
            == RouteView::Opus,
{
    reveal_strlit("custom:");
    reveal_strlit("hymt2");
    let named = "custom:"@ + id;
    assert("custom:"@.is_prefix_of(named));
    assert(named.skip(7) =~= id);
    assert("hymt2"@.len() < "custom:"@.len());
}

/// A segment is queued where translation is on, it has text, and there is a way to translate that
/// text to the target; it is queued last, without the white space round it, is among those seen,
/// and has a worker, which is started where none runs. Any other segment leaves the queue as it is.
pub proof fn segments_with_text_are_queued(
    q: QueueView,
    settings: SettingsView,
    supported: Seq<Seq<char>>,
    s: Seq<char>,
    sequence_id: u64,
)
    ensures
        ({
            let after = after_queueing(q, settings, supported, s, sequence_id);
            let words = text::trimmed(s);
            let way = translation::direction_of(
                settings.engine,
                settings.home,
                supported,
                words,
                settings.target,
            );
            if settings.enabled && words.len() > 0 && way is Some {
                &&& after.tasks.len() == q.tasks.len() + 1
                &&& after.tasks.drop_last() == q.tasks
                &&& after.tasks.last().text == words
                &&& after.tasks.last().sequence_id == sequence_id
                &&& forall|n: u64|
                    #[trigger] after.seen.contains(n) <==> n == sequence_id || q.seen.contains(n)
                &&& after.worker_running
                &&& starts_worker(q, settings, supported, s) == !q.worker_running
            } else {
                after == q && !starts_worker(q, settings, supported, s)
            }
        }),
{
    let after = after_queueing(q, settings, supported, s, sequence_id);
    if after != q {
        assert(after.tasks.drop_last() =~= q.tasks);
    }
}

/// The first segment that waits is the next to be translated, by the engine of the settings and to
/// the language of the pass; where there is no way to do so it is dropped, and the next one is
/// looked at.
pub proof fn jobs_carry_their_segment(
    tasks: Seq<TaskView>,
    settings: SettingsView,
    supported: Seq<Seq<char>>,
    target: Seq<char>,
)
    requires
        tasks.len() > 0,
    ensures
        ({
            let (next, rest) = next_of(tasks, settings, supported, target);
            match translation::direction_of(
                settings.engine,
                settings.home,
                supported,
                tasks[0].text,
                target,
            ) {
                Some((direction, source, to)) => {
                    &&& rest == tasks.skip(1)
                    &&& next matches Some(job) && {
                        &&& job.text == tasks[0].text && job.sequence_id == tasks[0].sequence_id
                        &&& job.direction == direction
                        &&& job.source_lang == source && job.target_lang == to
                        &&& job.route == route_of(settings.engine)
                    }
                },
                None => (next, rest) == next_of(tasks.skip(1), settings, supported, target),
            }
        }),
{
    assert(tasks.skip(1) =~= tasks.drop_first());
}

/// A finished translation is shown whole, with its segment and both languages; a failed one is not
/// shown.
pub proof fn finished_translations_are_shown(job: JobView, words: Seq<char>)
    ensures
        finished_update(job, Err(words)) is None,
        finished_update(job, Ok(words)) matches Some(shown) && {
            &&& shown.sequence_id == job.sequence_id && shown.original_text == job.text
            &&& shown.translated_text == words && !shown.is_partial
            &&& shown.source_lang == job.source_lang && shown.target_lang == job.target_lang
        },
{
}

/// The text so far is shown with every eighth token, and with any that comes a quarter of a second
/// after it was last shown; tokens are counted anew from there.
pub proof fn partial_texts_are_shown_in_time(p: PartialView, delta: Seq<char>, millis: u64)
    requires
        0 <= p.tokens_since_shown < 8,
    ensures
        ({
            let after = after_token(p, delta, millis);
            &&& after.text == p.text + delta
            &&& shows_now(p, millis) <==> p.tokens_since_shown == 7 || millis >= 250
            &&& shows_now(p, millis) ==> after.tokens_since_shown == 0
            &&& !shows_now(p, millis) ==> after.tokens_since_shown == p.tokens_since_shown + 1
        }),
{
}

} // verus!

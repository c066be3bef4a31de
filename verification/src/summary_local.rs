//! Meeting summaries written on this computer: by a helper process, or by a server that the user
//! runs.

use vstd::prelude::*;
#[allow(unused_imports)]
use vstd::string::StringExecFns;

use crate::custom_local::LocalModelProfile;
use crate::endpoint;
use crate::endpoint::validate_endpoint;
use crate::summary_client;
use crate::summary_client::{EventKind, EventView, SummaryApiConfig, SummaryStreamEvent};
use crate::text;
use crate::text::{concat2, concat3, contains, same, strip_prefix};

verus! {

/// Tokens written at most where the request names no number.
pub const DEFAULT_LOCAL_TOKENS: u32 = 2048;

/// How much the helper's models read at once, in tokens.
pub const LOCAL_CONTEXT: u32 = 8192;

/// A model of the catalogue that can write summaries.
#[derive(Debug)]
pub struct SummaryModel {
    pub id: String,
    /// The directory it is kept in, where it has one.
    pub dir: Option<String>,
    pub installed: bool,
}

/// A model of the catalogue, as a mathematical value.
pub struct ModelView {
    pub id: Seq<char>,
    pub dir: Option<Seq<char>>,
    pub installed: bool,
}

impl View for SummaryModel {
    type V = ModelView;

    open spec fn view(&self) -> ModelView {
        ModelView { id: self.id@, dir: text::opt_text(self.dir), installed: self.installed }
    }
}

/// The views of a catalogue.
pub open spec fn catalog_view(catalog: Seq<SummaryModel>) -> Seq<ModelView> {
    catalog.map_values(|m: SummaryModel| m@)
}

/// The first model of a catalogue that fits: the one with an identifier, or where none is named,
/// the first that is installed.
pub open spec fn first_fit(catalog: Seq<ModelView>, model_id: Option<Seq<char>>) -> Option<
    ModelView,
>
    decreases catalog.len(),
{
    if catalog.len() == 0 {
        None
    } else if (match model_id {
        Some(id) => catalog.first().id == id,
        None => catalog.first().installed,
    }) {
        Some(catalog.first())
    } else {
        first_fit(catalog.drop_first(), model_id)
    }
}

/// The directory of the model to use.
pub open spec fn model_dir_for(catalog: Seq<ModelView>, model_id: Option<Seq<char>>) -> Result<
    Seq<char>,
    Seq<char>,
> {
    match first_fit(catalog, model_id) {
        Some(ModelView { dir: Some(dir), .. }) => Ok(dir),
        _ => match model_id {
            Some(id) => Err("未知的本地总结模型: "@ + id),
            None => Err("本地总结模型未下载，请先在设置页下载"@),
        },
    }
}

/// The directory of the model to use: the one asked for, which must be in the catalogue, or
/// where none is asked for the first that is installed.
pub fn resolve_model_dir(catalog: &Vec<SummaryModel>, model_id: Option<&str>) -> (r: Result<
    String,
    String,
>)
    ensures
        text::result_text(r) == model_dir_for(catalog_view(catalog@), text::opt_str(model_id)),
{
    let ghost all = catalog_view(catalog@);
    let ghost wanted = text::opt_str(model_id);
    let mut i: usize = 0;
    assert(all.skip(0) =~= all);
    while i < catalog.len()
        invariant
            0 <= i <= catalog@.len(),
            all == catalog_view(catalog@),
            wanted == text::opt_str(model_id),
            first_fit(all, wanted) == first_fit(all.skip(i as int), wanted),
        decreases catalog@.len() - i,
    {
        let fits: bool = match model_id {
            Some(id) => same(catalog[i].id.as_str(), id),
            None => catalog[i].installed,
        };
        assert(all.skip(i as int).first() == catalog@[i as int]@);
        if fits {
            return match &catalog[i].dir {
                Some(dir) => Ok(dir.clone()),
                None => Err(no_model(model_id)),
            };
        }
        assert(all.skip(i as int).drop_first() =~= all.skip(i + 1));
        i += 1;
    }
    Err(no_model(model_id))
}

fn no_model(model_id: Option<&str>) -> (r: String)
    ensures
        r@ == (match model_id {
            Some(id) => "未知的本地总结模型: "@ + id@,
            None => "本地总结模型未下载，请先在设置页下载"@,
        }),
{
    match model_id {
        Some(id) => concat2("未知的本地总结模型: ", id),
        None => "本地总结模型未下载，请先在设置页下载".to_owned(),
    }
}

/// Whether a model is of the Gemma family.
pub open spec fn is_gemma(dir_name: Seq<char>) -> bool {
    text::occurs_in("gemma"@, dir_name)
}

/// The family of a model, by the name of its directory; any that is not Gemma is taken for Qwen.
pub fn model_family(dir_name: &str) -> (r: &'static str)
    ensures
        r@ == (if is_gemma(dir_name@) {
            "gemma"@
        } else {
            "qwen"@
        }),
{
    if contains(dir_name, "gemma") {
        "gemma"
    } else {
        "qwen"
    }
}

/// A prompt in the form that a model expects.
pub open spec fn chat_prompt(dir_name: Seq<char>, prompt: Seq<char>) -> Seq<char> {
    if is_gemma(dir_name) {
        "<start_of_turn>user\n"@ + prompt + "<end_of_turn>\n<start_of_turn>model\n"@
    } else {
        "<|im_start|>system\nYou are a helpful assistant.<|im_end|>\n<|im_start|>user\n"@ + prompt
            + "<|im_end|>\n<|im_start|>assistant\n"@
    }
}

/// The text at which a model is to stop.
pub open spec fn stop_token(dir_name: Seq<char>) -> Seq<char> {
    if is_gemma(dir_name) {
        "<end_of_turn>"@
    } else {
        "<|im_end|>"@
    }
}

/// A prompt in the form that a model expects, and the texts at which it is to stop. Without them
/// some models repeat themselves until they may write no more.
pub fn wrap_chat_prompt(dir_name: &str, prompt: &str) -> (r: (String, Vec<String>))
    ensures
        r.0@ == chat_prompt(dir_name@, prompt@),
        text::texts(r.1@) == seq![stop_token(dir_name@)],
{
    let mut stops: Vec<String> = Vec::new();
    let wrapped: String = if contains(dir_name, "gemma") {
        stops.push("<end_of_turn>".to_owned());
        concat3(
            "<start_of_turn>user\n",
            prompt,
            "<end_of_turn>\n<start_of_turn>model\n",
        )
    } else {
        stops.push("<|im_end|>".to_owned());
        concat3(
            "<|im_start|>system\nYou are a helpful assistant.<|im_end|>\n<|im_start|>user\n",
            prompt,
            "<|im_end|>\n<|im_start|>assistant\n",
        )
    };
    assert(text::texts(stops@) =~= seq![stop_token(dir_name@)]);
    (wrapped, stops)
}

/// What the helper process is asked to write.
#[derive(Debug)]
pub struct GenerateParams {
    pub model_path: String,
    pub prompt: String,
    pub max_tokens: u32,
    pub context_size: u32,
    pub top_k: u32,
    pub stop_tokens: Vec<String>,
    pub stream: bool,
}

/// What the helper process is asked to write, as a mathematical value.
pub struct ParamsView {
    pub model_path: Seq<char>,
    pub prompt: Seq<char>,
    pub max_tokens: u32,
    pub context_size: u32,
    pub top_k: u32,
    pub stop_tokens: Seq<Seq<char>>,
    pub stream: bool,
}

impl View for GenerateParams {
    type V = ParamsView;

    open spec fn view(&self) -> ParamsView {
        ParamsView {
            model_path: self.model_path@,
            prompt: self.prompt@,
            max_tokens: self.max_tokens,
            context_size: self.context_size,
            top_k: self.top_k,
            stop_tokens: text::texts(self.stop_tokens@),
            stream: self.stream,
        }
    }
}

/// What came of a generation.
#[derive(Debug)]
pub enum LocalOutcome {
    /// The text.
    Text(String),
    /// The helper gave this reason for failing.
    Failed(String),
    /// The task that waited for the helper was lost, for this reason.
    Lost(String),
}

/// What came of a generation, as a mathematical value.
pub enum OutcomeView {
    Text(Seq<char>),
    Failed(Seq<char>),
    Lost(Seq<char>),
}

impl View for LocalOutcome {
    type V = OutcomeView;

    open spec fn view(&self) -> OutcomeView {
        match *self {
            LocalOutcome::Text(t) => OutcomeView::Text(t@),
            LocalOutcome::Failed(e) => OutcomeView::Failed(e@),
            LocalOutcome::Lost(e) => OutcomeView::Lost(e@),
        }
    }
}

/// What happens in the course of a local generation.
#[derive(Debug)]
pub enum LocalEvent {
    /// The model's file was looked for.
    ModelFile(Option<String>),
    /// The helper program was looked for; whether a stop had been asked for by then.
    Helper { found: bool, cancelled: bool },
    /// A look at the running generation: whether a stop has been asked for, and what came of it
    /// where it has ended.
    Poll { cancelled: bool, outcome: Option<LocalOutcome> },
}

/// What happens in the course of a local generation, as a mathematical value.
pub enum LocalEventView {
    ModelFile(Option<Seq<char>>),
    Helper { found: bool, cancelled: bool },
    Poll { cancelled: bool, outcome: Option<OutcomeView> },
}

impl View for LocalEvent {
    type V = LocalEventView;

    open spec fn view(&self) -> LocalEventView {
        match *self {
            LocalEvent::ModelFile(path) => LocalEventView::ModelFile(text::opt_text(path)),
            LocalEvent::Helper { found, cancelled } => LocalEventView::Helper { found, cancelled },
            LocalEvent::Poll { cancelled, outcome } => LocalEventView::Poll {
                cancelled,
                outcome: match outcome {
                    Some(o) => Some(o@),
                    None => None,
                },
            },
        }
    }
}

/// What is to be done next.
#[derive(Debug)]
pub enum LocalAction {
    /// Look for the file of the model in this directory.
    FindModel(String),
    /// Look for the helper program.
    FindHelper,
    /// Have the helper write.
    Generate(GenerateParams),
    /// Look again in a tenth of a second.
    Wait,
    /// Report these events; the generation has ended. The helper cannot be interrupted, so a
    /// stopped one is killed.
    Report { events: Vec<SummaryStreamEvent>, kill_helper: bool },
    /// Nothing.
    Nothing,
}

/// What is to be done next, as a mathematical value.
pub enum LocalActionView {
    FindModel(Seq<char>),
    FindHelper,
    Generate(ParamsView),
    Wait,
    Report { events: Seq<EventView>, kill_helper: bool },
    Nothing,
}

impl View for LocalAction {
    type V = LocalActionView;

    open spec fn view(&self) -> LocalActionView {
        match *self {
            LocalAction::FindModel(dir) => LocalActionView::FindModel(dir@),
            LocalAction::FindHelper => LocalActionView::FindHelper,
            LocalAction::Generate(params) => LocalActionView::Generate(params@),
            LocalAction::Wait => LocalActionView::Wait,
            LocalAction::Report { events, kill_helper } => LocalActionView::Report {
                events: summary_client::event_views(events@),
                kill_helper,
            },
            LocalAction::Nothing => LocalActionView::Nothing,
        }
    }
}

/// How far a local generation is.
#[derive(Clone, Copy, Debug, PartialEq, Eq, Structural)]
pub enum LocalStage {
    FindingModel,
    FindingHelper,
    Running,
    Ended,
}

/// A local generation in progress.
#[derive(Debug)]
pub struct LocalRun {
    pub request_id: String,
    pub prompt: String,
    pub max_tokens: Option<u32>,
    pub dir: String,
    pub model_path: String,
    pub stage: LocalStage,
}

/// A local generation as a mathematical value.
pub struct LocalRunView {
    pub request_id: Seq<char>,
    pub prompt: Seq<char>,
    pub max_tokens: Option<u32>,
    pub dir: Seq<char>,
    pub model_path: Seq<char>,
    pub stage: LocalStage,
}

impl View for LocalRun {
    type V = LocalRunView;

    open spec fn view(&self) -> LocalRunView {
        LocalRunView {
            request_id: self.request_id@,
            prompt: self.prompt@,
            max_tokens: self.max_tokens,
            dir: self.dir@,
            model_path: self.model_path@,
            stage: self.stage,
        }
    }
}

/// An event of a local generation.
pub open spec fn local_event(run: LocalRunView, kind: EventKind, words: Seq<char>) -> EventView {
    EventView { request_id: run.request_id, kind, text: words }
}

/// The generation ended with events to report.
pub open spec fn local_end(run: LocalRunView, events: Seq<EventView>, kill_helper: bool) -> (
    LocalRunView,
    LocalActionView,
) {
    (
        LocalRunView { stage: LocalStage::Ended, ..run },
        LocalActionView::Report { events, kill_helper },
    )
}

/// What the helper is asked to write for a generation.
pub open spec fn params_for(run: LocalRunView) -> ParamsView {
    ParamsView {
        model_path: run.model_path,
        prompt: chat_prompt(run.dir, run.prompt),
        max_tokens: match run.max_tokens {
            Some(n) => n,
            None => DEFAULT_LOCAL_TOKENS,
        },
        context_size: LOCAL_CONTEXT,
        top_k: 40,
        stop_tokens: seq![stop_token(run.dir)],
        stream: false,
    }
}

/// The events that report an outcome. The helper does not stream, so the whole text comes as one
/// token before the end.
pub open spec fn outcome_events(run: LocalRunView, outcome: OutcomeView) -> Seq<EventView> {
    match outcome {
        OutcomeView::Text(t) => seq![
            local_event(run, EventKind::Token, t),
            local_event(run, EventKind::Done, t),
        ],
        OutcomeView::Failed(e) => seq![local_event(run, EventKind::Error, e)],
        OutcomeView::Lost(e) => seq![
            local_event(run, EventKind::Error, "本地总结任务失败: "@ + e),
        ],
    }
}

/// The generation after an event, and what is to be done next. A stop ends it normally, without
/// text.
pub open spec fn local_step(run: LocalRunView, event: LocalEventView) -> (
    LocalRunView,
    LocalActionView,
) {
    match (run.stage, event) {
        (LocalStage::FindingModel, LocalEventView::ModelFile(path)) => match path {
            Some(p) => (
                LocalRunView { stage: LocalStage::FindingHelper, model_path: p, ..run },
                LocalActionView::FindHelper,
            ),
            None => local_end(
                run,
                seq![local_event(run, EventKind::Error, "本地总结模型未下载，请先在设置页下载"@)],
                false,
            ),
        },
        (LocalStage::FindingHelper, LocalEventView::Helper { found, cancelled }) => if !found {
            local_end(
                run,
                seq![
                    local_event(
                        run,
                        EventKind::Error,
                        "本地总结引擎（llama-helper）未找到，请重新安装应用"@,
                    ),
                ],
                false,
            )
        } else if cancelled {
            local_end(run, seq![local_event(run, EventKind::Done, Seq::empty())], false)
        } else {
            (
                LocalRunView { stage: LocalStage::Running, ..run },
                LocalActionView::Generate(params_for(run)),
            )
        },
        (LocalStage::Running, LocalEventView::Poll { cancelled, outcome }) => if cancelled {
            local_end(run, seq![local_event(run, EventKind::Done, Seq::empty())], true)
        } else {
            match outcome {
                Some(o) => local_end(run, outcome_events(run, o), false),
                None => (run, LocalActionView::Wait),
            }
        },
        _ => (run, LocalActionView::Nothing),
    }
}

impl LocalRun {
    /// Starts a generation: gives it and what is to be done first. Where there is no model to
    /// use, it has ended with that error.
    pub fn start(
        request_id: &str,
        prompt: &str,
        max_tokens: Option<u32>,
        catalog: &Vec<SummaryModel>,
        model_id: Option<&str>,
    ) -> (r: (Self, LocalAction))
        ensures
            ({
                let (run, action) = r;
                let dir = model_dir_for(catalog_view(catalog@), text::opt_str(model_id));
                &&& run@.request_id == request_id@ && run@.prompt == prompt@ && run@.max_tokens
                    == max_tokens
                &&& match dir {
                    Ok(d) => run@.stage == LocalStage::FindingModel && run@.dir == d && action@
                        == LocalActionView::FindModel(d),
                    Err(e) => run@.stage == LocalStage::Ended && action@
                        == (LocalActionView::Report {
                        events: seq![local_event(run@, EventKind::Error, e)],
                        kill_helper: false,
                    }),
                }
            }),
    {
        let mut run: LocalRun = LocalRun {
            request_id: request_id.to_owned(),
            prompt: prompt.to_owned(),
            max_tokens,
            dir: String::new(),
            model_path: String::new(),
            stage: LocalStage::FindingModel,
        };
        match resolve_model_dir(catalog, model_id) {
            Ok(dir) => {
                run.dir = dir.clone();
                (run, LocalAction::FindModel(dir))
            },
            Err(e) => {
                let action: LocalAction = run.end(EventKind::Error, e, false);
                (run, action)
            },
        }
    }

    fn event(&self, kind: EventKind, words: String) -> (r: SummaryStreamEvent)
        ensures
            r@ == local_event(self@, kind, words@),
    {
        SummaryStreamEvent { request_id: self.request_id.clone(), kind, text: words }
    }

    fn end(&mut self, kind: EventKind, words: String, kill_helper: bool) -> (r: LocalAction)
        ensures
            (final(self)@, r@) == local_end(
                old(self)@,
                seq![local_event(old(self)@, kind, words@)],
                kill_helper,
            ),
    {
        let last: SummaryStreamEvent = self.event(kind, words);
        let ghost shown = last@;
        let mut events: Vec<SummaryStreamEvent> = Vec::new();
        events.push(last);
        assert(summary_client::event_views(events@) =~= seq![shown]);
        self.stage = LocalStage::Ended;
        LocalAction::Report { events, kill_helper }
    }

    fn launch(&mut self) -> (r: LocalAction)
        ensures
            final(self)@ == (LocalRunView { stage: LocalStage::Running, ..old(self)@ }),
            r@ == LocalActionView::Generate(params_for(old(self)@)),
    {
        let (prompt, stop_tokens) = wrap_chat_prompt(self.dir.as_str(), self.prompt.as_str());
        let params: GenerateParams = GenerateParams {
            model_path: self.model_path.clone(),
            prompt,
            max_tokens: match self.max_tokens {
                Some(n) => n,
                None => DEFAULT_LOCAL_TOKENS,
            },
            context_size: LOCAL_CONTEXT,
            top_k: 40,
            stop_tokens,
            stream: false,
        };
        self.stage = LocalStage::Running;
        LocalAction::Generate(params)
    }

    fn deliver(&mut self, words: String) -> (r: LocalAction)
        ensures
            (final(self)@, r@) == local_end(
                old(self)@,
                outcome_events(old(self)@, OutcomeView::Text(words@)),
                false,
            ),
    {
        let whole: SummaryStreamEvent = self.event(EventKind::Token, words.clone());
        let last: SummaryStreamEvent = self.event(EventKind::Done, words);
        let ghost shown = seq![whole@, last@];
        let mut events: Vec<SummaryStreamEvent> = Vec::new();
        events.push(whole);
        events.push(last);
        assert(summary_client::event_views(events@) =~= shown);
        self.stage = LocalStage::Ended;
        LocalAction::Report { events, kill_helper: false }
    }

    fn empty_text() -> (r: String)
        ensures
            r@ == Seq::<char>::empty(),
    {
        let empty: String = String::new();
        assert(empty@ =~= Seq::empty());
        empty
    }

    /// Takes in what happened and says what is to be done next. An event that does not belong
    /// where the generation is changes nothing.
    pub fn advance(&mut self, event: LocalEvent) -> (r: LocalAction)
        ensures
            (final(self)@, r@) == local_step(old(self)@, event@),
    {
        match (self.stage, event) {
            (LocalStage::FindingModel, LocalEvent::ModelFile(path)) => match path {
                Some(p) => {
                    self.model_path = p;
                    self.stage = LocalStage::FindingHelper;
                    LocalAction::FindHelper
                },
                None => self.end(
                    EventKind::Error,
                    "本地总结模型未下载，请先在设置页下载".to_owned(),
                    false,
                ),
            },
            (LocalStage::FindingHelper, LocalEvent::Helper { found, cancelled }) => {
                if !found {
                    self.end(
                        EventKind::Error,
                        "本地总结引擎（llama-helper）未找到，请重新安装应用".to_owned(),
                        false,
                    )
                } else if cancelled {
                    self.end(EventKind::Done, Self::empty_text(), false)
                } else {
                    self.launch()
                }
            },
            (LocalStage::Running, LocalEvent::Poll { cancelled, outcome }) => {
                if cancelled {
                    self.end(EventKind::Done, Self::empty_text(), true)
                } else {
                    match outcome {
                        Some(LocalOutcome::Text(t)) => self.deliver(t),
                        Some(LocalOutcome::Failed(e)) => self.end(EventKind::Error, e, false),
                        Some(LocalOutcome::Lost(e)) => self.end(
                            EventKind::Error,
                            concat2("本地总结任务失败: ", e.as_str()),
                            false,
                        ),
                        None => LocalAction::Wait,
                    }
                }
            },
            _ => LocalAction::Nothing,
        }
    }
}

/// The events that an action reports.
pub open spec fn reported(action: LocalActionView) -> Seq<EventView> {
    match action {
        LocalActionView::Report { events, .. } => events,
        _ => Seq::empty(),
    }
}

/// A local generation after a course of events, and everything it reported.
pub open spec fn local_course(run: LocalRunView, events: Seq<LocalEventView>) -> (
    LocalRunView,
    Seq<EventView>,
)
    decreases events.len(),
{
    if events.len() == 0 {
        (run, Seq::empty())
    } else {
        let (before, shown) = local_course(run, events.drop_last());
        let (after, action) = local_step(before, events.last());
        (after, shown + reported(action))
    }
}

/// A local generation reports nothing while it goes on; once it has ended it has reported
/// exactly one terminal event, the last. A `done` comes with the whole text, as one token before
/// it, or after a stop with no text at all.
pub proof fn local_runs_end_once(run: LocalRunView, events: Seq<LocalEventView>)
    requires
        run.stage != LocalStage::Ended,
    ensures
        ({
            let (after, shown) = local_course(run, events);
            &&& after.stage != LocalStage::Ended ==> shown.len() == 0
            &&& after.stage == LocalStage::Ended ==> {
                &&& shown.len() > 0
                &&& shown.last().kind != EventKind::Token
                &&& forall|i: int|
                    0 <= i < shown.len() - 1 ==> (#[trigger] shown[i]).kind == EventKind::Token
                &&& shown.last().kind == EventKind::Done ==> shown.last().text
                    == Seq::<char>::empty() || (shown.len() == 2 && shown[0].text
                    == shown.last().text)
            }
        }),
    decreases events.len(),
{
    if events.len() > 0 {
        local_runs_end_once(run, events.drop_last());
        let (before, shown) = local_course(run, events.drop_last());
        let (after, action) = local_step(before, events.last());
        if before.stage == LocalStage::Ended {
            assert(shown + reported(action) =~= shown);
        } else {
            assert(shown =~= Seq::empty());
            assert(shown + reported(action) =~= reported(action));
        }
    }
}

/// A stop that is asked for while the helper writes ends the generation at the next look, with
/// the helper killed and nothing more than an empty `done`.
pub proof fn stopping_kills_the_helper(run: LocalRunView, outcome: Option<OutcomeView>)
    requires
        run.stage == LocalStage::Running,
    ensures
        local_step(run, LocalEventView::Poll { cancelled: true, outcome }) == local_end(
            run,
            seq![local_event(run, EventKind::Done, Seq::empty())],
            true,
        ),
{
}

/// Who writes a local summary.
#[derive(Debug)]
pub enum LocalRoute {
    /// The server of the profile with this identifier.
    Custom(String),
    /// The helper process.
    Helper,
}

/// Who writes a local summary: the server of a profile where the model is named `custom:` and
/// the profile's identifier, the helper process otherwise.
pub fn summary_local_generate(model_id: Option<&str>) -> (r: LocalRoute)
    ensures
        match r {
            LocalRoute::Custom(id) => model_id is Some && model_id->0@ == "custom:"@ + id@,
            LocalRoute::Helper => model_id matches Some(m) ==> !"custom:"@.is_prefix_of(m@),
        },
{
    match model_id {
        Some(m) => match strip_prefix(m, "custom:") {
            Some(id) => {
                assert(m@ =~= "custom:"@ + id@);
                LocalRoute::Custom(id)
            },
            None => LocalRoute::Helper,
        },
        None => LocalRoute::Helper,
    }
}

/// How the server of a profile is asked for summaries: as an OpenAI-compatible one, without a
/// key.
pub fn custom_summary_config(profile: &LocalModelProfile) -> (r: Result<SummaryApiConfig, String>)
    ensures
        match endpoint::endpoint_result(profile@.endpoint) {
            Ok(address) => r matches Ok(config) && config.protocol@ == "openai"@
                && config.endpoint@ == address && config.api_key@ == Seq::<char>::empty()
                && config.model@ == profile@.model,
            Err(e) => r matches Err(m) && m@ == e,
        },
{
    match validate_endpoint(profile.endpoint.as_str()) {
        Ok(address) => Ok(
            SummaryApiConfig {
                protocol: "openai".to_owned(),
                endpoint: address,
                api_key: LocalRun::empty_text(),
                model: profile.model.clone(),
            },
        ),
        Err(e) => Err(e),
    }
}

/// Whether a model of the catalogue is one that was asked for: the named one, or where none is
/// named an installed one.
pub open spec fn is_wanted(m: ModelView, model_id: Option<Seq<char>>) -> bool {
    &&& model_id is Some ==> m.id == model_id->0
    &&& model_id is None ==> m.installed
}

/// The model that is used is the first of the catalogue that is wanted, and its directory must be
/// known; where there is none, callers are told which model is unknown, or that none is installed.
pub proof fn the_first_wanted_model_is_used(catalog: Seq<ModelView>, model_id: Option<Seq<char>>)
    ensures
        ({
            let dir = model_dir_for(catalog, model_id);
            let nothing = Err::<Seq<char>, Seq<char>>(
                if model_id is Some {
                    "未知的本地总结模型: "@ + model_id->0
                } else {
                    "本地总结模型未下载，请先在设置页下载"@
                },
            );
            &&& (forall|k: int| 0 <= k < catalog.len() ==> !is_wanted(#[trigger] catalog[k], model_id))
                ==> dir == nothing
            &&& forall|i: int|
                0 <= i < catalog.len() && is_wanted(#[trigger] catalog[i], model_id) && (forall|
                    k: int,
                |
                    0 <= k < i ==> !is_wanted(#[trigger] catalog[k], model_id)) ==> dir == (
                match catalog[i].dir {
                    Some(d) => Ok(d),
                    None => nothing,
                })
        }),
{
    if forall|k: int| 0 <= k < catalog.len() ==> !is_wanted(#[trigger] catalog[k], model_id) {
        nothing_fits(catalog, model_id);
    }
    assert forall|i: int|
        0 <= i < catalog.len() && is_wanted(#[trigger] catalog[i], model_id) && (forall|k: int|
            0 <= k < i ==> !is_wanted(#[trigger] catalog[k], model_id)) implies first_fit(
        catalog,
        model_id,
    ) == Some(catalog[i]) by {
        fits_first(catalog, model_id, i);
    }
}

proof fn nothing_fits(catalog: Seq<ModelView>, model_id: Option<Seq<char>>)
    requires
        forall|k: int| 0 <= k < catalog.len() ==> !is_wanted(#[trigger] catalog[k], model_id),
    ensures
        first_fit(catalog, model_id) is None,
    decreases catalog.len(),
{
    if catalog.len() > 0 {
        let rest = catalog.drop_first();
        assert(!is_wanted(catalog[0], model_id));
        assert forall|k: int| 0 <= k < rest.len() implies !is_wanted(
            #[trigger] rest[k],
            model_id,
        ) by {
            assert(rest[k] == catalog[k + 1]);
        }
        nothing_fits(rest, model_id);
    }
}

proof fn fits_first(catalog: Seq<ModelView>, model_id: Option<Seq<char>>, i: int)
    requires
        0 <= i < catalog.len(),
        is_wanted(catalog[i], model_id),
        forall|k: int| 0 <= k < i ==> !is_wanted(#[trigger] catalog[k], model_id),
    ensures
        first_fit(catalog, model_id) == Some(catalog[i]),
    decreases i,
{
    if i > 0 {
        let rest = catalog.drop_first();
        assert(!is_wanted(catalog[0], model_id));
        assert forall|k: int| 0 <= k < i - 1 implies !is_wanted(#[trigger] rest[k], model_id) by {
            assert(rest[k] == catalog[k + 1]);
        }
        assert(rest[i - 1] == catalog[i]);
        fits_first(rest, model_id, i - 1);
    }
}

/// The helper is asked for the user's prompt between the marks that the model's family knows, and
/// to stop at the family's own mark. It writes as many tokens as were asked for, or 2048, with a
/// context of 8192, and does not stream.
pub proof fn helpers_are_asked_for_the_prompt(run: LocalRunView)
    requires
        run.stage == LocalStage::FindingHelper,
    ensures
        ({
            let (after, action) = local_step(
                run,
                LocalEventView::Helper { found: true, cancelled: false },
            );
            let gemma = exists|i: int|
                0 <= i <= run.dir.len() - 5 && #[trigger] run.dir.subrange(i, i + 5) == "gemma"@;
            &&& after == (LocalRunView { stage: LocalStage::Running, ..run })
            &&& action matches LocalActionView::Generate(asked) && {
                &&& asked.model_path == run.model_path
                &&& asked.max_tokens == (match run.max_tokens {
                    Some(n) => n as int,
                    None => 2048,
                })
                &&& asked.context_size == 8192 && asked.top_k == 40 && !asked.stream
                &&& asked.stop_tokens.len() == 1
                &&& gemma ==> asked.prompt == "<start_of_turn>user\n"@ + run.prompt
                    + "<end_of_turn>\n<start_of_turn>model\n"@ && asked.stop_tokens[0]
                    == "<end_of_turn>"@
                &&& !gemma ==> asked.prompt
                    == "<|im_start|>system\nYou are a helpful assistant.<|im_end|>\n<|im_start|>user\n"@
                    + run.prompt + "<|im_end|>\n<|im_start|>assistant\n"@ && asked.stop_tokens[0]
                    == "<|im_end|>"@
            }
        }),
{
    reveal_strlit("gemma");
    let dir = run.dir;
    let gemma = "gemma"@;
    assert(gemma.len() == 5);
    if is_gemma(dir) {
        let i = choose|i: int|
            #![trigger dir.subrange(i, i + gemma.len())]
            0 <= i && i + gemma.len() <= dir.len() && dir.subrange(i, i + gemma.len()) == gemma;
        assert(dir.subrange(i, i + 5) == gemma);
    }
    if exists|i: int| 0 <= i <= dir.len() - 5 && #[trigger] dir.subrange(i, i + 5) == gemma {
        let i = choose|i: int| 0 <= i <= dir.len() - 5 && #[trigger] dir.subrange(i, i + 5) == gemma;
        assert(dir.subrange(i, i + gemma.len()) == gemma);
    }
}

/// A local generation looks for its model's file, then for the helper, then has it write and looks
/// at it until it has ended; what it ended with is what callers are told, a text as one token and
/// then whole. Whatever is missing is told instead.
pub proof fn local_runs_take_their_course(
    run: LocalRunView,
    path: Seq<char>,
    words: Seq<char>,
    found: bool,
)
    ensures
        ({
            let ended = LocalRunView { stage: LocalStage::Ended, ..run };
            let event = |kind: EventKind, t: Seq<char>|
                EventView { request_id: run.request_id, kind, text: t };
            let tells = |e: LocalEventView, events: Seq<EventView>, kill_helper: bool|
                local_step(run, e) == (
                    ended,
                    LocalActionView::Report { events, kill_helper },
                );
            let seen = |outcome: Option<OutcomeView>|
                LocalEventView::Poll { cancelled: false, outcome };
            &&& run.stage == LocalStage::FindingModel ==> {
                &&& local_step(run, LocalEventView::ModelFile(Some(path))) == (
                    LocalRunView { stage: LocalStage::FindingHelper, model_path: path, ..run },
                    LocalActionView::FindHelper,
                )
                &&& tells(
                    LocalEventView::ModelFile(None),
                    seq![event(EventKind::Error, "本地总结模型未下载，请先在设置页下载"@)],
                    false,
                )
            }
            &&& run.stage == LocalStage::FindingHelper ==> {
                &&& tells(
                    LocalEventView::Helper { found: false, cancelled: found },
                    seq![
                        event(
                            EventKind::Error,
                            "本地总结引擎（llama-helper）未找到，请重新安装应用"@,
                        ),
                    ],
                    false,
                )
                &&& tells(
                    LocalEventView::Helper { found: true, cancelled: true },
                    seq![event(EventKind::Done, Seq::empty())],
                    false,
                )
            }
            &&& run.stage == LocalStage::Running ==> {
                &&& local_step(run, seen(None)) == (run, LocalActionView::Wait)
                &&& tells(
                    seen(Some(OutcomeView::Text(words))),
                    seq![event(EventKind::Token, words), event(EventKind::Done, words)],
                    false,
                )
                &&& tells(
                    seen(Some(OutcomeView::Failed(words))),
                    seq![event(EventKind::Error, words)],
                    false,
                )
                &&& tells(
                    seen(Some(OutcomeView::Lost(words))),
                    seq![event(EventKind::Error, "本地总结任务失败: "@ + words)],
                    false,
                )
                &&& tells(
                    LocalEventView::Poll { cancelled: true, outcome: None },
                    seq![event(EventKind::Done, Seq::empty())],
                    true,
                )
            }
        }),
{
}

/// What does not belong where a local generation is leaves it as it is, and nothing is to be done.
pub proof fn other_events_leave_local_runs_alone(run: LocalRunView, event: LocalEventView)
    requires
        match run.stage {
            LocalStage::FindingModel => !(event is ModelFile),
            LocalStage::FindingHelper => !(event is Helper),
            LocalStage::Running => !(event is Poll),
            LocalStage::Ended => true,
        },
    ensures
        local_step(run, event) == (run, LocalActionView::Nothing),
{
}

} // verus!

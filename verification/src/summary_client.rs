//! Meeting summaries from an OpenAI-compatible or Anthropic server: what is asked of the server
//! and what its answers turn into.

use vstd::prelude::*;
#[allow(unused_imports)]
use vstd::string::StringExecFns;

use crate::http::ClientPolicy;
use crate::json;
use crate::sse;
use crate::sse::{SseStream, StreamEnd, StreamEndView};
use crate::text;
use crate::text::{concat2, concat3, decimal, same, take_chars, trim, trim_end_slashes};

verus! {

/// Tokens asked for where the request names no number.
pub const DEFAULT_MAX_TOKENS: u32 = 4096;

/// Characters of an error body that are shown.
pub const SNIPPET_CHARS: usize = 300;

/// The server that writes summaries.
#[derive(Debug)]
pub struct SummaryApiConfig {
    /// `openai` or `anthropic`
    pub protocol: String,
    pub endpoint: String,
    pub api_key: String,
    pub model: String,
}

/// The server's address without trailing slashes, so that paths can be appended with a single
/// slash.
pub fn base_url(config: &SummaryApiConfig) -> (r: String)
    ensures
        r@ == text::without_trailing_slashes(config.endpoint@),
{
    trim_end_slashes(config.endpoint.as_str())
}

/// How requests to the server are made: without following redirects.
pub open spec fn client_policy(total_timeout: Option<u64>) -> ClientPolicy {
    ClientPolicy {
        connect_timeout_secs: 15,
        timeout_secs: total_timeout,
        follow_redirects: false,
    }
}

/// How requests to the server are made: without following redirects, and with a limit on the
/// whole request where one is given. A stream may run for minutes and gets none.
pub fn http_client(total_timeout: Option<u64>) -> (r: ClientPolicy)
    ensures
        r == client_policy(total_timeout),
{
    ClientPolicy {
        connect_timeout_secs: 15,
        timeout_secs: total_timeout,
        follow_redirects: false,
    }
}

/// The headers that identify the caller.
pub open spec fn auth_spec(protocol: Seq<char>, api_key: Seq<char>) -> Seq<(Seq<char>, Seq<char>)> {
    if protocol == "anthropic"@ {
        seq![("x-api-key"@, api_key), ("anthropic-version"@, "2023-06-01"@)]
    } else if api_key.len() == 0 {
        Seq::empty()
    } else {
        seq![("Authorization"@, "Bearer "@ + api_key)]
    }
}

/// The views of a list of headers.
pub open spec fn header_views(headers: Seq<(String, String)>) -> Seq<(Seq<char>, Seq<char>)> {
    headers.map_values(|h: (String, String)| (h.0@, h.1@))
}

/// The headers that identify the caller: Anthropic's own, or a bearer token where a key is set.
pub fn apply_auth(config: &SummaryApiConfig) -> (r: Vec<(String, String)>)
    ensures
        header_views(r@) == auth_spec(config.protocol@, config.api_key@),
{
    let mut headers: Vec<(String, String)> = Vec::new();
    if same(config.protocol.as_str(), "anthropic") {
        headers.push(("x-api-key".to_owned(), config.api_key.clone()));
        headers.push(("anthropic-version".to_owned(), "2023-06-01".to_owned()));
    } else if !config.api_key.as_str().is_empty() {
        headers.push(("Authorization".to_owned(), concat2("Bearer ", config.api_key.as_str())));
    }
    assert(header_views(headers@) =~= auth_spec(config.protocol@, config.api_key@));
    headers
}

/// An error body cut to a length that can be shown.
pub open spec fn snippet_of(body: Seq<char>) -> Seq<char> {
    let words = text::trimmed(body);
    if words.len() > SNIPPET_CHARS {
        words.take(SNIPPET_CHARS as int) + "…"@
    } else {
        words
    }
}

/// An error body without surrounding white space, cut to a length that can be shown.
pub fn snippet(body: &str) -> (r: String)
    ensures
        r@ == snippet_of(body@),
{
    let words: String = trim(body);
    let start: String = take_chars(words.as_str(), SNIPPET_CHARS);
    let whole: bool = same(start.as_str(), words.as_str());
    proof {
        if words@.len() > SNIPPET_CHARS {
            assert(start@.len() < words@.len());
        }
    }
    if whole {
        words
    } else {
        concat2(start.as_str(), "…")
    }
}

/// The message for an answer with an error status.
pub open spec fn http_error_of(status: int, body: Seq<char>) -> Seq<char> {
    "HTTP "@ + text::numeral(status as nat) + (": "@ + snippet_of(body))
}

/// The message for an answer with an error status.
pub fn http_error(status: u16, body: &str) -> (r: String)
    ensures
        r@ == http_error_of(status as int, body@),
{
    let shown: String = snippet(body);
    concat3("HTTP ", decimal(status as u64).as_str(), concat2(": ", shown.as_str()).as_str())
}

/// A list of models to be asked for.
#[derive(Debug)]
pub struct ModelsRequest {
    pub url: String,
    pub headers: Vec<(String, String)>,
    pub policy: ClientPolicy,
}

/// How the server is asked for its models.
pub fn models_request(config: &SummaryApiConfig) -> (r: ModelsRequest)
    ensures
        header_views(r.headers@) == auth_spec(config.protocol@, config.api_key@),
        r.policy == client_policy(Some(15)),
        r.url@ == text::without_trailing_slashes(config.endpoint@) + (if config.protocol@
            == "anthropic"@ {
            "/v1/models"@
        } else {
            "/models"@
        }),
{
    let base: String = base_url(config);
    let url: String = if same(config.protocol.as_str(), "anthropic") {
        concat2(base.as_str(), "/v1/models")
    } else {
        concat2(base.as_str(), "/models")
    };
    ModelsRequest { url, headers: apply_auth(config), policy: http_client(Some(15)) }
}

/// The place of a listed model's name.
pub open spec fn model_pointer(i: int) -> Seq<char> {
    "/data/"@ + text::numeral(i as nat) + "/id"@
}

/// What each listed model is called, where it has a name.
pub open spec fn model_entries(document: Seq<u8>) -> Seq<Option<Seq<char>>> {
    match json::json_count(document, "/data"@) {
        Some(n) => Seq::new(n, |i: int| json::json_text(document, model_pointer(i))),
        None => Seq::empty(),
    }
}

/// The names among entries; entries without a name are left out.
pub open spec fn names_among(entries: Seq<Option<Seq<char>>>) -> Seq<Seq<char>>
    decreases entries.len(),
{
    if entries.len() == 0 {
        Seq::empty()
    } else {
        let rest = names_among(entries.drop_last());
        match entries.last() {
            Some(name) => rest.push(name),
            None => rest,
        }
    }
}

/// The views of a list of entries.
pub open spec fn entry_views(entries: Seq<Option<String>>) -> Seq<Option<Seq<char>>> {
    entries.map_values(|e: Option<String>| text::opt_text(e))
}

/// The names among entries, in order; entries without a name are left out.
pub fn named_models(entries: &Vec<Option<String>>) -> (r: Vec<String>)
    ensures
        text::texts(r@) == names_among(entry_views(entries@)),
{
    let mut names: Vec<String> = Vec::new();
    let ghost all = entry_views(entries@);
    let mut i: usize = 0;
    assert(text::texts(names@) =~= names_among(all.take(0)));
    while i < entries.len()
        invariant
            0 <= i <= entries@.len(),
            all == entry_views(entries@),
            text::texts(names@) == names_among(all.take(i as int)),
        decreases entries@.len() - i,
    {
        let ghost before = text::texts(names@);
        assert(all.take(i + 1).drop_last() =~= all.take(i as int));
        match &entries[i] {
            Some(name) => {
                names.push(name.clone());
                assert(text::texts(names@) =~= before.push(name@));
            },
            None => {},
        }
        i += 1;
    }
    assert(all.take(all.len() as int) =~= all);
    names
}

/// The models that a successful answer lists. Both protocols answer with `data[].id`; an answer
/// without such a list names none, one that is not JSON is an error.
pub fn models_from_body(body: &[u8]) -> (r: Result<Vec<String>, String>)
    ensures
        match r {
            Ok(names) => json::json_failure(body@) is None && text::texts(names@) == names_among(
                model_entries(body@),
            ),
            Err(e) => json::json_failure(body@) is Some && e@
                == "Invalid response: error decoding response body"@,
        },
{
    if json::parse_failure(body).is_some() {
        return Err("Invalid response: error decoding response body".to_owned());
    }
    let mut entries: Vec<Option<String>> = Vec::new();
    match json::count_at(body, "/data") {
        Some(n) => {
            let mut i: usize = 0;
            while i < n
                invariant
                    0 <= i <= n,
                    entries@.len() == i,
                    forall|k: int|
                        0 <= k < i ==> text::opt_text(#[trigger] entries@[k]) == json::json_text(
                            body@,
                            model_pointer(k),
                        ),
                decreases n - i,
            {
                let place: String = concat3("/data/", decimal(i as u64).as_str(), "/id");
                entries.push(json::text_at(body, place.as_str()));
                i += 1;
            }
        },
        None => {},
    }
    assert(entry_views(entries@) =~= model_entries(body@));
    Ok(named_models(&entries))
}

/// How the request for the models went.
#[derive(Debug)]
pub enum ModelsReply {
    /// It could not be prepared, for this reason.
    Unprepared(String),
    /// It could not be sent, for this reason.
    SendFailed(String),
    /// The server refused: its status and the text it sent.
    Refused { status: u16, body: String },
    /// The answer broke off, for this reason.
    Interrupted(String),
    /// The whole answer.
    Answered(Vec<u8>),
}

/// The views of a list of names or of the reason why there is none.
pub open spec fn names_view(r: Result<Vec<String>, String>) -> Result<Seq<Seq<char>>, Seq<char>> {
    match r {
        Ok(names) => Ok(text::texts(names@)),
        Err(e) => Err(e@),
    }
}

/// The models that a reply lists.
pub open spec fn listed_models(reply: ModelsReply) -> Result<Seq<Seq<char>>, Seq<char>> {
    match reply {
        ModelsReply::Unprepared(e) => Err(e@),
        ModelsReply::SendFailed(e) => Err("Network error: "@ + e@),
        ModelsReply::Refused { status, body } => Err(http_error_of(status as int, body@)),
        ModelsReply::Interrupted(e) => Err("Invalid response: "@ + e@),
        ModelsReply::Answered(body) => if json::json_failure(body@) is Some {
            Err("Invalid response: error decoding response body"@)
        } else {
            Ok(names_among(model_entries(body@)))
        },
    }
}

/// The models that a reply lists.
pub fn summary_list_models(reply: &ModelsReply) -> (r: Result<Vec<String>, String>)
    ensures
        names_view(r) == listed_models(*reply),
{
    match reply {
        ModelsReply::Unprepared(e) => Err(e.clone()),
        ModelsReply::SendFailed(e) => Err(concat2("Network error: ", e.as_str())),
        ModelsReply::Refused { status, body } => Err(http_error(*status, body.as_str())),
        ModelsReply::Interrupted(e) => Err(concat2("Invalid response: ", e.as_str())),
        ModelsReply::Answered(body) => models_from_body(body.as_slice()),
    }
}

/// The message after a connection test: how many models the server has, or why it cannot be
/// used.
pub fn summary_test_connection(reply: &ModelsReply) -> (r: Result<String, String>)
    ensures
        text::result_text(r) == (match listed_models(*reply) {
            Ok(names) => Ok(
                "Connection OK ("@ + text::numeral(names.len()) + " models available)"@,
            ),
            Err(e) => Err(e),
        }),
{
    match summary_list_models(reply) {
        Ok(names) => {
            let count: usize = names.len();
            assert(text::texts(names@).len() == count);
            Ok(concat3("Connection OK (", decimal(count as u64).as_str(), " models available)"))
        },
        Err(e) => Err(e),
    }
}

/// What the request says about the sampling temperature.
#[derive(Clone, Copy, Debug, PartialEq, Eq, Structural)]
pub enum TemperatureField {
    /// The caller's value.
    Given,
    /// The default value.
    Default,
    /// Nothing.
    Omitted,
}

/// A streaming completion to be asked for: one user message, answered token by token.
#[derive(Debug)]
pub struct CompletionRequest {
    pub url: String,
    pub model: String,
    pub stream: bool,
    pub max_tokens: u32,
    pub temperature: TemperatureField,
    /// What the user message says.
    pub prompt: String,
    pub headers: Vec<(String, String)>,
    pub policy: ClientPolicy,
}

/// The completion to ask for. Only the OpenAI protocol has a default temperature.
pub fn completion_request(
    config: &SummaryApiConfig,
    prompt: &str,
    max_tokens: Option<u32>,
    temperature_given: bool,
) -> (r: CompletionRequest)
    ensures
        r.url@ == text::without_trailing_slashes(config.endpoint@) + (if config.protocol@
            == "openai"@ {
            "/chat/completions"@
        } else {
            "/v1/messages"@
        }),
        r.model@ == config.model@,
        r.stream,
        r.max_tokens == (match max_tokens {
            Some(n) => n,
            None => DEFAULT_MAX_TOKENS,
        }),
        max_tokens is None ==> r.max_tokens == 4096,
        r.temperature == (if temperature_given {
            TemperatureField::Given
        } else if config.protocol@ == "openai"@ {
            TemperatureField::Default
        } else {
            TemperatureField::Omitted
        }),
        r.prompt@ == prompt@,
        header_views(r.headers@) == auth_spec(config.protocol@, config.api_key@),
        r.policy == client_policy(None),
{
    let openai: bool = same(config.protocol.as_str(), "openai");
    let base: String = base_url(config);
    let url: String = if openai {
        concat2(base.as_str(), "/chat/completions")
    } else {
        concat2(base.as_str(), "/v1/messages")
    };
    CompletionRequest {
        url,
        model: config.model.clone(),
        stream: true,
        max_tokens: match max_tokens {
            Some(n) => n,
            None => DEFAULT_MAX_TOKENS,
        },
        temperature: if temperature_given {
            TemperatureField::Given
        } else if openai {
            TemperatureField::Default
        } else {
            TemperatureField::Omitted
        },
        prompt: prompt.to_owned(),
        headers: apply_auth(config),
        policy: http_client(None),
    }
}

/// What a progress event reports.
#[derive(Clone, Copy, Debug, PartialEq, Eq, Structural)]
pub enum EventKind {
    /// A piece of text.
    Token,
    /// The whole text; nothing follows.
    Done,
    /// The reason of a failure; nothing follows.
    Error,
}

/// A progress event of one generation.
#[derive(Debug)]
pub struct SummaryStreamEvent {
    pub request_id: String,
    pub kind: EventKind,
    pub text: String,
}

/// The name under which a kind of event is reported.
pub fn kind_name(kind: EventKind) -> (r: String)
    ensures
        r@ == (match kind {
            EventKind::Token => "token"@,
            EventKind::Done => "done"@,
            EventKind::Error => "error"@,
        }),
{
    match kind {
        EventKind::Token => "token".to_owned(),
        EventKind::Done => "done".to_owned(),
        EventKind::Error => "error".to_owned(),
    }
}

/// A progress event as a mathematical value.
pub struct EventView {
    pub request_id: Seq<char>,
    pub kind: EventKind,
    pub text: Seq<char>,
}

impl View for SummaryStreamEvent {
    type V = EventView;

    open spec fn view(&self) -> EventView {
        EventView { request_id: self.request_id@, kind: self.kind, text: self.text@ }
    }
}

/// The views of a list of events.
pub open spec fn event_views(events: Seq<SummaryStreamEvent>) -> Seq<EventView> {
    events.map_values(|e: SummaryStreamEvent| e@)
}

/// What the connection brings in the course of a generation.
#[derive(Debug)]
pub enum StreamInput {
    /// The request could not be prepared, for this reason.
    Unprepared(String),
    /// The request could not be sent, for this reason.
    SendFailed(String),
    /// The server refused: its status and the text it sent.
    Refused { status: u16, body: String },
    /// A piece of the answer.
    Chunk(Vec<u8>),
    /// The answer broke off, for this reason.
    Interrupted(String),
    /// The answer is complete.
    Closed,
}

/// What the connection brings, as a mathematical value.
pub enum StreamInputView {
    Unprepared(Seq<char>),
    SendFailed(Seq<char>),
    Refused { status: u16, body: Seq<char> },
    Chunk(Seq<u8>),
    Interrupted(Seq<char>),
    Closed,
}

impl View for StreamInput {
    type V = StreamInputView;

    open spec fn view(&self) -> StreamInputView {
        match *self {
            StreamInput::Unprepared(e) => StreamInputView::Unprepared(e@),
            StreamInput::SendFailed(e) => StreamInputView::SendFailed(e@),
            StreamInput::Refused { status, body } => StreamInputView::Refused {
                status,
                body: body@,
            },
            StreamInput::Chunk(c) => StreamInputView::Chunk(c@),
            StreamInput::Interrupted(e) => StreamInputView::Interrupted(e@),
            StreamInput::Closed => StreamInputView::Closed,
        }
    }
}

/// One generation in progress.
#[derive(Debug)]
pub struct Generation {
    pub request_id: String,
    pub stream: SseStream,
    pub ended: bool,
}

/// A generation as a mathematical value.
pub struct GenerationView {
    pub request_id: Seq<char>,
    pub is_openai: bool,
    pub pending: Seq<u8>,
    pub accumulated: Seq<char>,
    pub ended: bool,
}

impl View for Generation {
    type V = GenerationView;

    open spec fn view(&self) -> GenerationView {
        GenerationView {
            request_id: self.request_id@,
            is_openai: self.stream.is_openai,
            pending: self.stream.pending@,
            accumulated: self.stream.accumulated@,
            ended: self.ended,
        }
    }
}

/// A generation of which nothing has come yet.
pub open spec fn fresh_generation(request_id: Seq<char>, is_openai: bool) -> GenerationView {
    GenerationView {
        request_id,
        is_openai,
        pending: Seq::empty(),
        accumulated: Seq::empty(),
        ended: false,
    }
}

/// An event of a generation.
pub open spec fn event_of(g: GenerationView, kind: EventKind, text: Seq<char>) -> EventView {
    EventView { request_id: g.request_id, kind, text }
}

/// The generation ended with one last event.
pub open spec fn ending(g: GenerationView, kind: EventKind, text: Seq<char>) -> (
    GenerationView,
    Seq<EventView>,
) {
    (GenerationView { ended: true, ..g }, seq![event_of(g, kind, text)])
}

/// One event per token.
pub open spec fn token_events(g: GenerationView, tokens: Seq<Seq<char>>) -> Seq<EventView> {
    tokens.map_values(|t: Seq<char>| event_of(g, EventKind::Token, t))
}

/// The generation after a piece of the answer, and the events it gives.
pub open spec fn after_chunk(g: GenerationView, chunk: Seq<u8>) -> (
    GenerationView,
    Seq<EventView>,
) {
    let reading = sse::read_lines(g.pending + chunk, g.is_openai);
    let next = GenerationView {
        pending: reading.rest,
        accumulated: g.accumulated + sse::joined(reading.tokens),
        ..g
    };
    let events = token_events(g, reading.tokens);
    match reading.end {
        StreamEndView::Open => (next, events),
        StreamEndView::Stopped => (
            GenerationView { ended: true, ..next },
            events.push(event_of(g, EventKind::Done, next.accumulated)),
        ),
        StreamEndView::Failed(e) => (
            GenerationView { ended: true, ..next },
            events.push(event_of(g, EventKind::Error, e)),
        ),
    }
}

/// The generation after what the connection brought, and the events it gives. A pending request
/// to stop takes effect at the next piece of the answer and ends the generation normally, with
/// the text so far.
pub open spec fn generation_step(
    g: GenerationView,
    input: StreamInputView,
    cancelled: bool,
) -> (GenerationView, Seq<EventView>) {
    if g.ended {
        (g, Seq::empty())
    } else {
        match input {
            StreamInputView::Unprepared(e) => ending(g, EventKind::Error, e),
            StreamInputView::SendFailed(e) => ending(g, EventKind::Error, "Network error: "@ + e),
            StreamInputView::Refused { status, body } => ending(
                g,
                EventKind::Error,
                http_error_of(status as int, body),
            ),
            StreamInputView::Chunk(chunk) => if cancelled {
                ending(g, EventKind::Done, g.accumulated)
            } else {
                after_chunk(g, chunk)
            },
            StreamInputView::Interrupted(e) => if cancelled {
                ending(g, EventKind::Done, g.accumulated)
            } else {
                ending(g, EventKind::Error, "Stream interrupted: "@ + e)
            },
            StreamInputView::Closed => ending(g, EventKind::Done, g.accumulated),
        }
    }
}

impl Generation {
    /// A generation that has just been asked for.
    pub fn new(request_id: &str, config: &SummaryApiConfig) -> (r: Self)
        ensures
            r@ == fresh_generation(request_id@, config.protocol@ == "openai"@),
    {
        Generation {
            request_id: request_id.to_owned(),
            stream: SseStream::new(same(config.protocol.as_str(), "openai")),
            ended: false,
        }
    }

    fn event(&self, kind: EventKind, text: String) -> (r: SummaryStreamEvent)
        ensures
            r@ == event_of(self@, kind, text@),
    {
        SummaryStreamEvent { request_id: self.request_id.clone(), kind, text }
    }

    fn finish(&mut self, kind: EventKind, text: String) -> (r: Vec<SummaryStreamEvent>)
        ensures
            (final(self)@, event_views(r@)) == ending(old(self)@, kind, text@),
    {
        let last: SummaryStreamEvent = self.event(kind, text);
        let mut events: Vec<SummaryStreamEvent> = Vec::new();
        let ghost shown = last@;
        events.push(last);
        self.ended = true;
        assert(event_views(events@) =~= seq![shown]);
        events
    }

    fn take_chunk(&mut self, chunk: &Vec<u8>) -> (r: Vec<SummaryStreamEvent>)
        requires
            !old(self).ended,
        ensures
            (final(self)@, event_views(r@)) == after_chunk(old(self)@, chunk@),
    {
        let ghost before = self@;
        let read: (Vec<String>, StreamEnd) = self.stream.feed(chunk.as_slice());
        let ghost tokens = text::texts(read.0@);
        let mut events: Vec<SummaryStreamEvent> = Vec::new();
        let mut i: usize = 0;
        assert(event_views(events@) =~= token_events(before, tokens.take(0)));
        while i < read.0.len()
            invariant
                0 <= i <= read.0@.len(),
                tokens == text::texts(read.0@),
                self@.request_id == before.request_id,
                event_views(events@) == token_events(before, tokens.take(i as int)),
            decreases read.0@.len() - i,
        {
            let ghost so_far = event_views(events@);
            let next: SummaryStreamEvent = self.event(EventKind::Token, read.0[i].clone());
            let ghost shown = next@;
            events.push(next);
            i += 1;
            assert(event_views(events@) =~= so_far.push(shown));
            assert(tokens.take(i as int) =~= tokens.take(i - 1).push(tokens[i - 1]));
            assert(token_events(before, tokens.take(i as int)) =~= token_events(
                before,
                tokens.take(i - 1),
            ).push(shown));
        }
        assert(tokens.take(tokens.len() as int) =~= tokens);
        let ghost so_far = event_views(events@);
        match read.1 {
            StreamEnd::Open => {},
            StreamEnd::Stopped => {
                let last: SummaryStreamEvent = self.event(
                    EventKind::Done,
                    self.stream.accumulated.clone(),
                );
                let ghost shown = last@;
                events.push(last);
                self.ended = true;
                assert(event_views(events@) =~= so_far.push(shown));
            },
            StreamEnd::Failed(e) => {
                let last: SummaryStreamEvent = self.event(EventKind::Error, e);
                let ghost shown = last@;
                events.push(last);
                self.ended = true;
                assert(event_views(events@) =~= so_far.push(shown));
            },
        }
        events
    }

    /// Takes in what the connection brought; gives the events to report, in order.
    pub fn step(&mut self, input: StreamInput, cancelled: bool) -> (r: Vec<SummaryStreamEvent>)
        ensures
            (final(self)@, event_views(r@)) == generation_step(old(self)@, input@, cancelled),
    {
        if self.ended {
            let none: Vec<SummaryStreamEvent> = Vec::new();
            assert(event_views(none@) =~= Seq::empty());
            return none;
        }
        let so_far: String = self.stream.accumulated.clone();
        match input {
            StreamInput::Unprepared(e) => self.finish(EventKind::Error, e),
            StreamInput::SendFailed(e) => self.finish(
                EventKind::Error,
                concat2("Network error: ", e.as_str()),
            ),
            StreamInput::Refused { status, body } => self.finish(
                EventKind::Error,
                http_error(status, body.as_str()),
            ),
            StreamInput::Chunk(chunk) => {
                if cancelled {
                    self.finish(EventKind::Done, so_far)
                } else {
                    self.take_chunk(&chunk)
                }
            },
            StreamInput::Interrupted(e) => {
                if cancelled {
                    self.finish(EventKind::Done, so_far)
                } else {
                    self.finish(EventKind::Error, concat2("Stream interrupted: ", e.as_str()))
                }
            },
            StreamInput::Closed => self.finish(EventKind::Done, so_far),
        }
    }
}

/// A generation after a course of inputs, each with whether a request to stop was pending, and
/// all the events it gave.
pub open spec fn generation_course(
    g: GenerationView,
    inputs: Seq<(StreamInputView, bool)>,
) -> (GenerationView, Seq<EventView>)
    decreases inputs.len(),
{
    if inputs.len() == 0 {
        (g, Seq::empty())
    } else {
        let (before, events) = generation_course(g, inputs.drop_last());
        let (after, more) = generation_step(before, inputs.last().0, inputs.last().1);
        (after, events + more)
    }
}

/// The texts of events.
pub open spec fn event_texts(events: Seq<EventView>) -> Seq<Seq<char>> {
    events.map_values(|e: EventView| e.text)
}

proof fn joined_concat(a: Seq<Seq<char>>, b: Seq<Seq<char>>)
    ensures
        sse::joined(a + b) == sse::joined(a) + sse::joined(b),
    decreases b.len(),
{
    if b.len() == 0 {
        assert(a + b =~= a);
        assert(sse::joined(a) + sse::joined(b) =~= sse::joined(a));
    } else {
        assert((a + b).drop_last() =~= a + b.drop_last());
        joined_concat(a, b.drop_last());
        assert(sse::joined(a) + (sse::joined(b.drop_last()) + b.last()) =~= (sse::joined(a)
            + sse::joined(b.drop_last())) + b.last());
    }
}

/// A generation reports exactly one terminal event. While it goes on every event is a token, and
/// the text so far is all tokens joined; once it has ended, the last event is its only terminal
/// one, every event before that is a token, and a `done` carries all tokens joined.
pub proof fn one_terminal_event(g: GenerationView, inputs: Seq<(StreamInputView, bool)>)
    requires
        !g.ended,
        g.accumulated == Seq::<char>::empty(),
    ensures
        ({
            let (after, events) = generation_course(g, inputs);
            let front = events.drop_last();
            &&& !after.ended ==> (forall|i: int|
                0 <= i < events.len() ==> (#[trigger] events[i]).kind == EventKind::Token)
                && after.accumulated == sse::joined(event_texts(events))
            &&& after.ended ==> {
                &&& events.len() > 0
                &&& events.last().kind != EventKind::Token
                &&& forall|i: int|
                    0 <= i < events.len() - 1 ==> (#[trigger] events[i]).kind == EventKind::Token
                &&& events.last().kind == EventKind::Done ==> events.last().text == sse::joined(
                    event_texts(front),
                )
            }
            &&& forall|i: int|
                0 <= i < events.len() ==> (#[trigger] events[i]).request_id == g.request_id
            &&& after.request_id == g.request_id
        }),
    decreases inputs.len(),
{
    if inputs.len() == 0 {
        assert(event_texts(Seq::<EventView>::empty()) =~= Seq::empty());
    } else {
        one_terminal_event(g, inputs.drop_last());
        let (before, events) = generation_course(g, inputs.drop_last());
        let (after, more) = generation_step(before, inputs.last().0, inputs.last().1);
        let all = events + more;
        if before.ended {
            assert(all =~= events);
        } else {
            joined_concat(event_texts(events), event_texts(more));
            assert(event_texts(all) =~= event_texts(events) + event_texts(more));
            match inputs.last().0 {
                StreamInputView::Chunk(chunk) if !inputs.last().1 => {
                    let reading = sse::read_lines(before.pending + chunk, before.is_openai);
                    let tokens = token_events(before, reading.tokens);
                    assert(event_texts(tokens) =~= reading.tokens);
                    if reading.end is Open {
                        assert(more =~= tokens);
                    } else {
                        assert(all.drop_last() =~= events + tokens);
                        assert(event_texts(events + tokens) =~= event_texts(events)
                            + reading.tokens);
                        joined_concat(event_texts(events), reading.tokens);
                    }
                },
                _ => {
                    assert(all.drop_last() =~= events);
                },
            }
        }
    }
}

/// Pieces of an answer put together.
pub open spec fn put_together(pieces: Seq<Seq<u8>>) -> Seq<u8>
    decreases pieces.len(),
{
    if pieces.len() == 0 {
        Seq::empty()
    } else {
        put_together(pieces.drop_last()) + pieces.last()
    }
}

/// The inputs that bring pieces of an answer, without a request to stop.
pub open spec fn chunk_inputs(pieces: Seq<Seq<u8>>) -> Seq<(StreamInputView, bool)> {
    pieces.map_values(|p: Seq<u8>| (StreamInputView::Chunk(p), false))
}

/// It does not matter how an answer is cut into pieces: the events are those of the whole answer
/// in one piece, and so is the text so far.
pub proof fn cutting_does_not_matter(g: GenerationView, pieces: Seq<Seq<u8>>)
    requires
        pieces.len() > 0,
        !g.ended,
    ensures
        ({
            let (cut, cut_events) = generation_course(g, chunk_inputs(pieces));
            let (whole, events) = generation_step(
                g,
                StreamInputView::Chunk(put_together(pieces)),
                false,
            );
            &&& cut_events == events
            &&& cut.ended == whole.ended
            &&& cut.accumulated == whole.accumulated
            &&& cut.request_id == whole.request_id
            &&& !cut.ended ==> cut == whole
        }),
    decreases pieces.len(),
{
    let inputs = chunk_inputs(pieces);
    let shorter = pieces.drop_last();
    let last = pieces.last();
    assert(inputs.drop_last() =~= chunk_inputs(shorter));
    assert(inputs.last() == (StreamInputView::Chunk(last), false));
    let (before, so_far) = generation_course(g, chunk_inputs(shorter));
    let (after, more) = generation_step(before, StreamInputView::Chunk(last), false);
    if shorter.len() == 0 {
        assert(put_together(shorter) + last =~= last);
        assert(so_far + more =~= more);
    } else {
        cutting_does_not_matter(g, shorter);
        let start = g.pending + put_together(shorter);
        let all = g.pending + put_together(pieces);
        assert(all =~= start + last);
        let first = sse::read_lines(start, g.is_openai);
        let whole = sse::read_lines(all, g.is_openai);
        if before.ended {
            sse::nothing_is_read_after_the_end(start, last, g.is_openai);
            assert(so_far + more =~= so_far);
        } else {
            sse::pieces_do_not_matter(start, last, g.is_openai);
            let second = sse::read_lines(first.rest + last, g.is_openai);
            joined_concat(first.tokens, second.tokens);
            assert(g.accumulated + (sse::joined(first.tokens) + sse::joined(second.tokens)) =~= (
            g.accumulated + sse::joined(first.tokens)) + sse::joined(second.tokens));
            let tokens = token_events(g, first.tokens);
            let later = token_events(before, second.tokens);
            assert(token_events(g, whole.tokens) =~= tokens + later);
            assert(so_far =~= tokens);
            if second.end is Open {
                assert(so_far + more =~= tokens + later);
            } else {
                let end = more.last();
                assert(more =~= later.push(end));
                assert(so_far + more =~= (tokens + later).push(end));
            }
        }
    }
}

/// When the connection has closed, or has failed in any way, the generation has ended.
pub proof fn closed_generations_have_ended(g: GenerationView, input: StreamInputView, cancelled: bool)
    requires
        !(input is Chunk),
    ensures
        generation_step(g, input, cancelled).0.ended,
{
}

/// A request to stop ends a running generation at the next piece of the answer, as a normal
/// completion with the text so far.
pub proof fn cancelling_keeps_the_text(g: GenerationView, chunk: Seq<u8>)
    requires
        !g.ended,
    ensures
        generation_step(g, StreamInputView::Chunk(chunk), true) == ending(
            g,
            EventKind::Done,
            g.accumulated,
        ),
{
}

/// Which running generations can be stopped: for each request, the ticket under which its stop
/// flag is kept.
#[derive(Debug)]
pub struct CancelTable {
    pub entries: Vec<CancelEntry>,
    pub next_ticket: u64,
}

/// A running generation and its ticket.
#[derive(Debug)]
pub struct CancelEntry {
    pub request_id: String,
    pub ticket: u64,
}

/// The ticket of a request in a list of entries; a later entry hides an earlier one.
pub open spec fn ticket_of(entries: Seq<CancelEntry>, request_id: Seq<char>) -> Option<u64>
    decreases entries.len(),
{
    if entries.len() == 0 {
        None
    } else if entries.last().request_id@ == request_id {
        Some(entries.last().ticket)
    } else {
        ticket_of(entries.drop_last(), request_id)
    }
}

/// The entries without those of a request.
pub open spec fn without_request(entries: Seq<CancelEntry>, request_id: Seq<char>) -> Seq<
    CancelEntry,
> {
    entries.filter(|e: CancelEntry| e.request_id@ != request_id)
}

proof fn forgotten_requests_are_gone(
    entries: Seq<CancelEntry>,
    request_id: Seq<char>,
    other: Seq<char>,
)
    ensures
        ticket_of(without_request(entries, request_id), other) == (if other == request_id {
            None
        } else {
            ticket_of(entries, other)
        }),
    decreases entries.len(),
{
    reveal(Seq::filter);
    if entries.len() > 0 {
        forgotten_requests_are_gone(entries.drop_last(), request_id, other);
        let rest = without_request(entries.drop_last(), request_id);
        if entries.last().request_id@ != request_id {
            assert(without_request(entries, request_id) =~= rest.push(entries.last()));
            assert(rest.push(entries.last()).drop_last() =~= rest);
        } else {
            assert(without_request(entries, request_id) =~= rest);
        }
    }
}

impl CancelTable {
    /// What holds of every table: no two entries share a ticket, and the next ticket is new.
    pub open spec fn valid(&self) -> bool {
        &&& forall|i: int|
            0 <= i < self.entries@.len() ==> (#[trigger] self.entries@[i]).ticket
                < self.next_ticket
        &&& distinct_tickets(self.entries@)
    }

    /// The ticket kept for a request.
    pub open spec fn ticket(&self, request_id: Seq<char>) -> Option<u64> {
        ticket_of(self.entries@, request_id)
    }

    /// No generation running.
    pub fn new() -> (r: Self)
        ensures
            r.valid(),
            forall|id: Seq<char>| #[trigger] r.ticket(id) is None,
            r.next_ticket == 0,
    {
        CancelTable { entries: Vec::new(), next_ticket: 0 }
    }

    /// Forgets a request, when its generation has ended.
    pub fn remove(&mut self, request_id: &str)
        ensures
            old(self).valid() ==> final(self).valid(),
            forall|id: Seq<char>| #[trigger]
                final(self).ticket(id) == (if id == request_id@ {
                    None
                } else {
                    old(self).ticket(id)
                }),
            final(self).next_ticket == old(self).next_ticket,
    {
        let ghost before = self.entries@;
        let ghost keep = |e: CancelEntry| e.request_id@ != request_id@;
        let mut kept: Vec<CancelEntry> = Vec::new();
        let mut taken: Vec<CancelEntry> = Vec::new();
        taken.append(&mut self.entries);
        assert(taken@ =~= before);
        let mut i: usize = 0;
        assert(before.take(0).filter(keep) =~= Seq::empty()) by {
            reveal(Seq::filter);
        }
        while i < taken.len()
            invariant
                0 <= i <= taken@.len(),
                taken@ == before,
                keep == (|e: CancelEntry| e.request_id@ != request_id@),
                self.next_ticket == old(self).next_ticket,
                forall|k: int| 0 <= k < kept@.len() ==> entry_same(
                    #[trigger] kept@[k],
                    before.take(i as int).filter(keep)[k],
                ),
                kept@.len() == before.take(i as int).filter(keep).len(),
                forall|k: int|
                    0 <= k < kept@.len() ==> is_ticket(
                        before.take(i as int),
                        (#[trigger] kept@[k]).ticket,
                    ),
                distinct_tickets(before) ==> distinct_tickets(kept@),
            decreases taken@.len() - i,
        {
            let entry: &CancelEntry = &taken[i];
            let ghost shorter = before.take(i as int);
            let ghost kept_before = kept@;
            if !same(entry.request_id.as_str(), request_id) {
                kept.push(
                    CancelEntry { request_id: entry.request_id.clone(), ticket: entry.ticket },
                );
            }
            i += 1;
            proof {
                reveal(Seq::filter);
                let longer = before.take(i as int);
                assert(longer.drop_last() =~= shorter);
                assert forall|k: int| 0 <= k < kept@.len() implies is_ticket(
                    longer,
                    (#[trigger] kept@[k]).ticket,
                ) by {
                    if k < kept_before.len() {
                        assert(is_ticket(shorter, kept_before[k].ticket));
                        let m = choose|m: int|
                            0 <= m < shorter.len() && (#[trigger] shorter[m]).ticket
                                == kept@[k].ticket;
                        assert(longer[m] == shorter[m]);
                    } else {
                        assert(longer[i - 1].ticket == kept@[k].ticket);
                    }
                }
            }
        }
        assert(before.take(before.len() as int) =~= before);
        self.entries = kept;
        assert forall|id: Seq<char>| #[trigger] self.ticket(id) == (if id == request_id@ {
            None
        } else {
            old(self).ticket(id)
        }) by {
            same_entries_same_tickets(self.entries@, without_request(before, request_id@), id);
            forgotten_requests_are_gone(before, request_id@, id);
        }
    }

    /// Registers a generation that is about to run; a later one for the same request takes the
    /// place of an earlier one.
    pub fn insert(&mut self, request_id: &str) -> (ticket: u64)
        requires
            old(self).next_ticket < u64::MAX,
        ensures
            ticket == old(self).next_ticket,
            final(self).next_ticket == old(self).next_ticket + 1,
            old(self).valid() ==> final(self).valid(),
            forall|id: Seq<char>| #[trigger]
                final(self).ticket(id) == (if id == request_id@ {
                    Some(ticket)
                } else {
                    old(self).ticket(id)
                }),
    {
        let ticket: u64 = self.next_ticket;
        let ghost before = self.entries@;
        self.entries.push(CancelEntry { request_id: request_id.to_owned(), ticket });
        self.next_ticket = ticket + 1;
        assert(self.entries@.drop_last() =~= before);
        ticket
    }
}

/// The ticket whose stop flag is to be set for a request. A request that is not running has
/// none, and nothing is to be done.
pub fn summary_cancel(table: &CancelTable, request_id: &str) -> (r: Option<u64>)
    ensures
        r == table.ticket(request_id@),
{
    let mut i: usize = table.entries.len();
    assert(table.entries@.take(i as int) =~= table.entries@);
    while i > 0
        invariant
            0 <= i <= table.entries@.len(),
            ticket_of(table.entries@, request_id@) == ticket_of(
                table.entries@.take(i as int),
                request_id@,
            ),
        decreases i,
    {
        if same(table.entries[i - 1].request_id.as_str(), request_id) {
            return Some(table.entries[i - 1].ticket);
        }
        assert(table.entries@.take(i as int).drop_last() =~= table.entries@.take(i - 1));
        i -= 1;
    }
    None
}

/// The stop flags after a request was asked to stop: that of its ticket is set, where it runs.
pub open spec fn flags_after_cancel(
    table: CancelTable,
    flags: Map<u64, bool>,
    request_id: Seq<char>,
) -> Map<u64, bool> {
    match table.ticket(request_id) {
        Some(ticket) => flags.insert(ticket, true),
        None => flags,
    }
}

proof fn tickets_have_entries(entries: Seq<CancelEntry>, id: Seq<char>) -> (i: int)
    requires
        ticket_of(entries, id) is Some,
    ensures
        0 <= i < entries.len(),
        entries[i].request_id@ == id,
        ticket_of(entries, id) == Some(entries[i].ticket),
    decreases entries.len(),
{
    if entries.last().request_id@ == id {
        entries.len() - 1
    } else {
        tickets_have_entries(entries.drop_last(), id)
    }
}

/// Two running requests never share a ticket.
pub proof fn tickets_tell_requests_apart(table: CancelTable, a: Seq<char>, b: Seq<char>)
    requires
        table.valid(),
        a != b,
        table.ticket(a) is Some,
    ensures
        table.ticket(a) != table.ticket(b),
{
    if table.ticket(b) is Some {
        let i = tickets_have_entries(table.entries@, a);
        let j = tickets_have_entries(table.entries@, b);
        assert(i != j);
    }
}

/// Asking a request to stop sets its flag and leaves those of all other running requests alone;
/// where it does not run, nothing changes. No flag comes or goes, and asking again changes nothing
/// more.
pub proof fn cancelling_sets_one_flag(
    table: CancelTable,
    flags: Map<u64, bool>,
    request_id: Seq<char>,
    other: Seq<char>,
)
    requires
        table.valid(),
        table.ticket(request_id) matches Some(t) ==> flags.dom().contains(t),
        other != request_id,
    ensures
        ({
            let after = flags_after_cancel(table, flags, request_id);
            &&& after.dom() == flags.dom()
            &&& table.ticket(request_id) matches Some(t) ==> after[t]
            &&& table.ticket(request_id) is None ==> after == flags
            &&& table.ticket(other) matches Some(t) ==> after[t] == flags[t]
            &&& flags_after_cancel(table, after, request_id) == after
        }),
{
    let after = flags_after_cancel(table, flags, request_id);
    if table.ticket(request_id) is Some {
        tickets_tell_requests_apart(table, request_id, other);
        assert(flags_after_cancel(table, after, request_id) =~= after);
    }
    assert(after.dom() =~= flags.dom());
}

/// A generation that has just been registered.
#[derive(Debug)]
pub struct StartedGeneration {
    pub generation: Generation,
    /// The ticket of its stop flag.
    pub ticket: u64,
}

/// Registers a generation and starts it. A server with an unknown protocol is refused, and
/// nothing is registered.
pub fn summary_generate(
    table: &mut CancelTable,
    request_id: &str,
    config: &SummaryApiConfig,
) -> (r: Result<StartedGeneration, String>)
    requires
        old(table).next_ticket < u64::MAX,
    ensures
        match r {
            Ok(started) => {
                &&& config.protocol@ == "openai"@ || config.protocol@ == "anthropic"@
                &&& started.generation@ == fresh_generation(
                    request_id@,
                    config.protocol@ == "openai"@,
                )
                &&& started.ticket == old(table).next_ticket
                &&& final(table).next_ticket == old(table).next_ticket + 1
                &&& old(table).valid() ==> final(table).valid()
                &&& forall|id: Seq<char>| #[trigger]
                    final(table).ticket(id) == (if id == request_id@ {
                        Some(started.ticket)
                    } else {
                        old(table).ticket(id)
                    })
            },
            Err(e) => {
                &&& config.protocol@ != "openai"@ && config.protocol@ != "anthropic"@
                &&& e@ == "Unknown summary protocol: "@ + config.protocol@
                &&& *final(table) == *old(table)
            },
        },
{
    if !same(config.protocol.as_str(), "openai") && !same(config.protocol.as_str(), "anthropic") {
        return Err(concat2("Unknown summary protocol: ", config.protocol.as_str()));
    }
    let ticket: u64 = table.insert(request_id);
    Ok(StartedGeneration { generation: Generation::new(request_id, config), ticket })
}

/// Whether a ticket is that of an entry.
pub open spec fn is_ticket(entries: Seq<CancelEntry>, ticket: u64) -> bool {
    exists|m: int| 0 <= m < entries.len() && (#[trigger] entries[m]).ticket == ticket
}

/// Whether no two entries share a ticket.
pub open spec fn distinct_tickets(entries: Seq<CancelEntry>) -> bool {
    forall|i: int, j: int|
        0 <= i < j < entries.len() ==> (#[trigger] entries[i]).ticket != (
        #[trigger] entries[j]).ticket
}

/// Whether two entries say the same.
pub open spec fn entry_same(a: CancelEntry, b: CancelEntry) -> bool {
    a.request_id@ == b.request_id@ && a.ticket == b.ticket
}

proof fn same_entries_same_tickets(a: Seq<CancelEntry>, b: Seq<CancelEntry>, id: Seq<char>)
    requires
        a.len() == b.len(),
        forall|k: int| 0 <= k < a.len() ==> entry_same(#[trigger] a[k], b[k]),
    ensures
        ticket_of(a, id) == ticket_of(b, id),
    decreases a.len(),
{
    if a.len() > 0 {
        let last: int = a.len() - 1;
        assert(entry_same(a[last], b[last]));
        same_entries_same_tickets(a.drop_last(), b.drop_last(), id);
    }
}

/// The payload of a line that is `data:` and a payload.
pub open spec fn payload_in(line: Seq<u8>, data: Seq<char>) -> bool {
    exists|words: Seq<char>|
        text::trimmed(text::lossy_text(line)) == "data:"@ + words && #[trigger] text::trimmed(words)
            == data
}

/// Every line of an answer is read under the stream's own protocol, from the JSON that follows
/// `data:`. An error that is not null ends the generation with the provider's message. In an
/// OpenAI stream the first choice's content is the next token, and `[DONE]` ends it; in an
/// Anthropic stream the text of a `content_block_delta` is the next token, and a `message_stop`
/// ends it. What ends a generation normally carries all text so far. Anything else is passed over.
pub proof fn lines_are_read_under_their_protocol(
    g: GenerationView,
    line: Seq<u8>,
    rest: Seq<u8>,
    data: Seq<char>,
)
    requires
        !g.ended,
        g.pending == Seq::<u8>::empty(),
        forall|i: int| 0 <= i < line.len() ==> #[trigger] line[i] != 10u8,
        payload_in(line.push(10), data),
    ensures
        ({
            let (after, events) = generation_step(
                g,
                StreamInputView::Chunk(line.push(10) + rest),
                false,
            );
            let (passed_over, others) = generation_step(g, StreamInputView::Chunk(rest), false);
            let document = vstd::utf8::encode_utf8(data);
            let kind = json::json_text(document, "/type"@);
            let delta = if g.is_openai {
                json::json_text(document, "/choices/0/delta/content"@)
            } else if kind == Some("content_block_delta"@) {
                json::json_text(document, "/delta/text"@)
            } else {
                None
            };
            let done = EventView {
                request_id: g.request_id,
                kind: EventKind::Done,
                text: g.accumulated,
            };
            if g.is_openai && data == "[DONE]"@ {
                after.ended && events == seq![done]
            } else if json::json_null(document, "/error"@) == Some(false) {
                let reason = match json::json_text(document, "/error/message"@) {
                    Some(m) => m,
                    None => "unknown provider error"@,
                };
                after.ended && events == seq![
                    EventView {
                        request_id: g.request_id,
                        kind: EventKind::Error,
                        text: "Provider error: "@ + reason,
                    },
                ]
            } else if !g.is_openai && kind == Some("message_stop"@) {
                after.ended && events == seq![done]
            } else {
                match delta {
                    Some(t) if t.len() > 0 => {
                        let next = GenerationView { accumulated: g.accumulated + t, ..g };
                        let (further, more) = generation_step(
                            next,
                            StreamInputView::Chunk(rest),
                            false,
                        );
                        &&& after == further
                        &&& events == seq![
                            EventView { request_id: g.request_id, kind: EventKind::Token, text: t },
                        ] + more
                    },
                    _ => after == passed_over && events == others,
                }
            }
        }),
{
    reveal_strlit("data:");
    reveal_strlit("content_block_delta");
    reveal_strlit("message_stop");
    assert("content_block_delta"@.len() != "message_stop"@.len());
    let words = choose|words: Seq<char>|
        text::trimmed(text::lossy_text(line.push(10))) == "data:"@ + words && #[trigger]
            text::trimmed(words) == data;
    let all = "data:"@ + words;
    assert("data:"@.is_prefix_of(all));
    assert(all.skip(5) =~= words);
    sse::lines_are_read_in_turn(line, rest, g.is_openai);
    let bytes = line.push(10) + rest;
    assert(g.pending + bytes =~= bytes);
    assert(g.pending + rest =~= rest);
    let reading = sse::read_lines(bytes, g.is_openai);
    let later = sse::read_lines(rest, g.is_openai);
    let none = Seq::<Seq<char>>::empty();
    assert(token_events(g, none) =~= Seq::empty());
    assert(g.accumulated + sse::joined(none) =~= g.accumulated);
    let action = sse::line_action(line.push(10), g.is_openai);
    match action {
        Ok(sse::SseActionView::Token(t)) => {
            let next = GenerationView { accumulated: g.accumulated + t, ..g };
            joined_concat(seq![t], later.tokens);
            assert(sse::joined(seq![t]) =~= t) by {
                assert(seq![t].drop_last() =~= none);
                assert(sse::joined(none) =~= Seq::empty());
            }
            assert(g.accumulated + (t + sse::joined(later.tokens)) =~= (g.accumulated + t)
                + sse::joined(later.tokens));
            let first = event_of(g, EventKind::Token, t);
            assert(token_events(g, reading.tokens) =~= seq![first] + token_events(
                next,
                later.tokens,
            ));
            let tail = token_events(next, later.tokens);
            match later.end {
                StreamEndView::Open => {},
                StreamEndView::Stopped => {
                    let last = event_of(
                        g,
                        EventKind::Done,
                        (g.accumulated + t) + sse::joined(later.tokens),
                    );
                    assert((seq![first] + tail).push(last) =~= seq![first] + tail.push(last));
                },
                StreamEndView::Failed(e) => {
                    let last = event_of(g, EventKind::Error, e);
                    assert((seq![first] + tail).push(last) =~= seq![first] + tail.push(last));
                },
            }
        },
        Ok(sse::SseActionView::Stop) => {
            let last = event_of(g, EventKind::Done, g.accumulated);
            assert(Seq::<EventView>::empty().push(last) =~= seq![last]);
        },
        Err(e) => {
            let last = event_of(g, EventKind::Error, e);
            assert(Seq::<EventView>::empty().push(last) =~= seq![last]);
        },
        _ => {},
    }
}

/// A line that does not begin with `data:` is passed over, and so is an incomplete one until the
/// rest of it comes.
pub proof fn other_lines_are_passed_over(g: GenerationView, line: Seq<u8>, rest: Seq<u8>)
    requires
        !g.ended,
        g.pending == Seq::<u8>::empty(),
        forall|i: int| 0 <= i < line.len() ==> #[trigger] line[i] != 10u8,
    ensures
        !"data:"@.is_prefix_of(text::trimmed(text::lossy_text(line.push(10)))) ==> generation_step(
            g,
            StreamInputView::Chunk(line.push(10) + rest),
            false,
        ) == generation_step(g, StreamInputView::Chunk(rest), false),
        generation_step(g, StreamInputView::Chunk(line), false) == (
            GenerationView { pending: line, ..g },
            Seq::<EventView>::empty(),
        ),
{
    sse::lines_are_read_in_turn(line, rest, g.is_openai);
    let bytes = line.push(10) + rest;
    assert(g.pending + bytes =~= bytes);
    assert(g.pending + rest =~= rest);
    assert(g.pending + line =~= line);
    sse::unfinished_lines_wait(line, g.is_openai);
    let none = Seq::<Seq<char>>::empty();
    assert(token_events(g, none) =~= Seq::empty());
    assert(g.accumulated + sse::joined(none) =~= g.accumulated);
}

/// Whatever ends a generation but the answer itself is told in one event: why the request failed,
/// what the server refused it with, or all text so far where the connection closed or a stop was
/// asked for.
pub proof fn ends_are_told(
    g: GenerationView,
    reason: Seq<char>,
    status: u16,
    chunk: Seq<u8>,
    cancelled: bool,
)
    requires
        !g.ended,
    ensures
        ({
            let told = |input: StreamInputView, stopping: bool, kind: EventKind, words: Seq<char>|
                {
                    let (after, events) = generation_step(g, input, stopping);
                    &&& after == (GenerationView { ended: true, ..g })
                    &&& events == seq![EventView { request_id: g.request_id, kind, text: words }]
                };
            &&& told(StreamInputView::Unprepared(reason), cancelled, EventKind::Error, reason)
            &&& told(
                StreamInputView::SendFailed(reason),
                cancelled,
                EventKind::Error,
                "Network error: "@ + reason,
            )
            &&& told(
                StreamInputView::Refused { status, body: reason },
                cancelled,
                EventKind::Error,
                "HTTP "@ + text::numeral(status as nat) + ": "@ + snippet_of(reason),
            )
            &&& told(
                StreamInputView::Interrupted(reason),
                false,
                EventKind::Error,
                "Stream interrupted: "@ + reason,
            )
            &&& told(StreamInputView::Interrupted(reason), true, EventKind::Done, g.accumulated)
            &&& told(StreamInputView::Chunk(chunk), true, EventKind::Done, g.accumulated)
            &&& told(StreamInputView::Closed, cancelled, EventKind::Done, g.accumulated)
        }),
{
    let start = "HTTP "@ + text::numeral(status as nat);
    assert(start + (": "@ + snippet_of(reason)) =~= start + ": "@ + snippet_of(reason));
}

/// A generation begins with nothing read, under the protocol that it was asked for with.
pub proof fn generations_begin_empty(request_id: Seq<char>, is_openai: bool)
    ensures
        ({
            let g = fresh_generation(request_id, is_openai);
            &&& g.request_id == request_id && g.is_openai == is_openai && !g.ended
            &&& g.pending.len() == 0 && g.accumulated.len() == 0
        }),
{
}

/// What is shown of an error body is the body without surrounding white space, or its first three
/// hundred characters and an ellipsis where it is longer.
pub proof fn snippets_are_short(body: Seq<char>)
    ensures
        text::trimmed(body).len() <= 300 ==> snippet_of(body) == text::trimmed(body),
        text::trimmed(body).len() > 300 ==> snippet_of(body).len() == 301 && snippet_of(body).take(
            300,
        ) == text::trimmed(body).take(300) && snippet_of(body).last() == '…',
{
    reveal_strlit("…");
    let words = text::trimmed(body);
    if words.len() > 300 {
        assert(snippet_of(body).take(300) =~= words.take(300));
    }
}

proof fn named_entries_are_kept(entries: Seq<Option<Seq<char>>>)
    ensures
        names_among(entries) == entries.filter(|e: Option<Seq<char>>| e is Some).map_values(
            |e: Option<Seq<char>>| e->0,
        ),
    decreases entries.len(),
{
    reveal(Seq::filter);
    let kept = |e: Option<Seq<char>>| e is Some;
    let name = |e: Option<Seq<char>>| e->0;
    if entries.len() > 0 {
        named_entries_are_kept(entries.drop_last());
        let rest = entries.drop_last().filter(kept);
        if entries.last() is Some {
            assert(entries.filter(kept) =~= rest.push(entries.last()));
            assert(rest.push(entries.last()).map_values(name) =~= rest.map_values(name).push(
                entries.last()->0,
            ));
        }
        assert(names_among(entries) =~= entries.filter(kept).map_values(name));
    } else {
        assert(names_among(entries) =~= entries.filter(kept).map_values(name));
    }
}

/// The models that a server lists are the `id` of each entry of `data`, in order; entries without
/// one are left out, and an answer without such a list names none. Every failure is told.
pub proof fn models_are_listed_by_their_ids(reply: ModelsReply)
    ensures
        match reply {
            ModelsReply::Unprepared(e) => listed_models(reply) == Err::<Seq<Seq<char>>, Seq<char>>(
                e@,
            ),
            ModelsReply::SendFailed(e) => listed_models(reply) == Err::<Seq<Seq<char>>, Seq<char>>(
                "Network error: "@ + e@,
            ),
            ModelsReply::Refused { status, body } => listed_models(reply) == Err::<
                Seq<Seq<char>>,
                Seq<char>,
            >("HTTP "@ + text::numeral(status as nat) + ": "@ + snippet_of(body@)),
            ModelsReply::Interrupted(e) => listed_models(reply) == Err::<
                Seq<Seq<char>>,
                Seq<char>,
            >("Invalid response: "@ + e@),
            ModelsReply::Answered(body) => if json::json_failure(body@) is Some {
                listed_models(reply) == Err::<Seq<Seq<char>>, Seq<char>>(
                    "Invalid response: error decoding response body"@,
                )
            } else {
                let count = match json::json_count(body@, "/data"@) {
                    Some(n) => n,
                    None => 0,
                };
                let ids = Seq::new(
                    count,
                    |i: int|
                        json::json_text(body@, "/data/"@ + text::numeral(i as nat) + "/id"@),
                );
                listed_models(reply) == Ok::<Seq<Seq<char>>, Seq<char>>(
                    ids.filter(|e: Option<Seq<char>>| e is Some).map_values(
                        |e: Option<Seq<char>>| e->0,
                    ),
                )
            },
        },
{
    match reply {
        ModelsReply::Refused { status, body } => {
            let start = "HTTP "@ + text::numeral(status as nat);
            assert(start + (": "@ + snippet_of(body@)) =~= start + ": "@ + snippet_of(body@));
        },
        ModelsReply::Answered(body) => {
            let count = match json::json_count(body@, "/data"@) {
                Some(n) => n,
                None => 0,
            };
            let ids = Seq::new(
                count,
                |i: int| json::json_text(body@, "/data/"@ + text::numeral(i as nat) + "/id"@),
            );
            assert(model_entries(body@) =~= ids);
            named_entries_are_kept(ids);
        },
        _ => {},
    }
}

/// The key goes to the server in the header of its protocol and in no other; without a key an
/// OpenAI-compatible server is sent none.
pub proof fn keys_go_into_their_header(protocol: Seq<char>, api_key: Seq<char>)
    ensures
        ({
            let headers = auth_spec(protocol, api_key);
            if protocol == "anthropic"@ {
                headers.len() == 2 && headers[0] == ("x-api-key"@, api_key) && headers[1] == (
                    "anthropic-version"@,
                    "2023-06-01"@,
                )
            } else if api_key.len() == 0 {
                headers.len() == 0
            } else {
                headers.len() == 1 && headers[0] == ("Authorization"@, "Bearer "@ + api_key)
            }
        }),
{
}

/// Requests follow no redirects, wait fifteen seconds for a connection, and have the limit that
/// was asked for.
pub proof fn requests_are_bounded(limit: Option<u64>)
    ensures
        !client_policy(limit).follow_redirects,
        client_policy(limit).connect_timeout_secs == 15,
        client_policy(limit).timeout_secs == limit,
{
}

} // verus!

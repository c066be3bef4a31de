//! Server-sent events of streaming completions: cutting the byte stream into lines and reading
//! the text deltas out of them.

use vstd::prelude::*;
#[allow(unused_imports)]
use vstd::string::StringExecFns;

use crate::json;
use crate::text;
use crate::text::{concat2, from_utf8_lossy, same, strip_prefix, trim};

verus! {

/// What to do with one `data:` payload.
#[derive(Debug)]
pub enum SseAction {
    /// Nothing.
    Skip,
    /// Append this piece of text.
    Token(String),
    /// The completion has ended.
    Stop,
}

/// What to do with one payload, as a mathematical value.
pub enum SseActionView {
    Skip,
    Token(Seq<char>),
    Stop,
}

impl View for SseAction {
    type V = SseActionView;

    open spec fn view(&self) -> SseActionView {
        match *self {
            SseAction::Skip => SseActionView::Skip,
            SseAction::Token(t) => SseActionView::Token(t@),
            SseAction::Stop => SseActionView::Stop,
        }
    }
}

/// The view of a decision that may be an error.
pub open spec fn action_view(r: Result<SseAction, String>) -> Result<SseActionView, Seq<char>> {
    match r {
        Ok(a) => Ok(a@),
        Err(e) => Err(e@),
    }
}

/// What is read of a payload: the members that carry errors, event kinds and text.
#[derive(Debug)]
pub struct SsePayload {
    /// `error`: whether it is null, where it is there.
    pub error_null: Option<bool>,
    /// `error.message`
    pub error_message: Option<String>,
    /// `choices[0].delta.content`
    pub openai_delta: Option<String>,
    /// `type`
    pub kind: Option<String>,
    /// `delta.text`
    pub anthropic_delta: Option<String>,
}

/// What is read of a payload, as a mathematical value.
pub struct SsePayloadView {
    pub error_null: Option<bool>,
    pub error_message: Option<Seq<char>>,
    pub openai_delta: Option<Seq<char>>,
    pub kind: Option<Seq<char>>,
    pub anthropic_delta: Option<Seq<char>>,
}

impl View for SsePayload {
    type V = SsePayloadView;

    open spec fn view(&self) -> SsePayloadView {
        SsePayloadView {
            error_null: self.error_null,
            error_message: text::opt_text(self.error_message),
            openai_delta: text::opt_text(self.openai_delta),
            kind: text::opt_text(self.kind),
            anthropic_delta: text::opt_text(self.anthropic_delta),
        }
    }
}

/// A delta that is there and not empty is a token; any other is skipped.
pub open spec fn delta_action(delta: Option<Seq<char>>) -> SseActionView {
    match delta {
        Some(t) if t.len() > 0 => SseActionView::Token(t),
        _ => SseActionView::Skip,
    }
}

/// What a payload asks for: an error that is there and not null ends the stream with the
/// provider's message; otherwise the protocol's delta is taken.
pub open spec fn payload_action(p: SsePayloadView, is_openai: bool) -> Result<
    SseActionView,
    Seq<char>,
> {
    if p.error_null == Some(false) {
        Err(
            "Provider error: "@ + match p.error_message {
                Some(m) => m,
                None => "unknown provider error"@,
            },
        )
    } else if is_openai {
        Ok(delta_action(p.openai_delta))
    } else if p.kind == Some("content_block_delta"@) {
        Ok(delta_action(p.anthropic_delta))
    } else if p.kind == Some("message_stop"@) {
        Ok(SseActionView::Stop)
    } else {
        Ok(SseActionView::Skip)
    }
}

/// What is read of a payload's text.
pub open spec fn payload_of(data: Seq<char>) -> SsePayloadView {
    let document = vstd::utf8::encode_utf8(data);
    SsePayloadView {
        error_null: json::json_null(document, "/error"@),
        error_message: json::json_text(document, "/error/message"@),
        openai_delta: json::json_text(document, "/choices/0/delta/content"@),
        kind: json::json_text(document, "/type"@),
        anthropic_delta: json::json_text(document, "/delta/text"@),
    }
}

/// What a payload's text asks for.
pub open spec fn data_action(data: Seq<char>, is_openai: bool) -> Result<SseActionView, Seq<char>> {
    if is_openai && data == "[DONE]"@ {
        Ok(SseActionView::Stop)
    } else {
        payload_action(payload_of(data), is_openai)
    }
}

fn take_delta(delta: Option<String>) -> (r: SseAction)
    ensures
        r@ == delta_action(text::opt_text(delta)),
{
    match delta {
        Some(t) => {
            if t.as_str().is_empty() {
                SseAction::Skip
            } else {
                SseAction::Token(t)
            }
        },
        None => SseAction::Skip,
    }
}

/// Decides on a payload that has been read.
pub fn decide_payload(payload: SsePayload, is_openai: bool) -> (r: Result<SseAction, String>)
    ensures
        action_view(r) == payload_action(payload@, is_openai),
{
    match payload.error_null {
        Some(false) => {
            return Err(
                match payload.error_message {
                    Some(m) => concat2("Provider error: ", m.as_str()),
                    None => concat2("Provider error: ", "unknown provider error"),
                },
            );
        },
        _ => {},
    }
    if is_openai {
        return Ok(take_delta(payload.openai_delta));
    }
    match payload.kind {
        Some(kind) => {
            if same(kind.as_str(), "content_block_delta") {
                Ok(take_delta(payload.anthropic_delta))
            } else if same(kind.as_str(), "message_stop") {
                Ok(SseAction::Stop)
            } else {
                Ok(SseAction::Skip)
            }
        },
        None => Ok(SseAction::Skip),
    }
}

/// Reads a payload's text.
pub fn read_payload(data: &str) -> (r: SsePayload)
    ensures
        r@ == payload_of(data@),
        json::json_failure(vstd::utf8::encode_utf8(data@)) is Some ==> r@ == (SsePayloadView {
            error_null: None,
            error_message: None,
            openai_delta: None,
            kind: None,
            anthropic_delta: None,
        }),
{
    let document: &[u8] = data.as_bytes();
    SsePayload {
        error_null: json::null_at(document, "/error"),
        error_message: json::text_at(document, "/error/message"),
        openai_delta: json::text_at(document, "/choices/0/delta/content"),
        kind: json::text_at(document, "/type"),
        anthropic_delta: json::text_at(document, "/delta/text"),
    }
}

/// Reads a single `data:` payload of either protocol and decides on it. A payload that is not
/// JSON is ignored, but for the end marker of the OpenAI protocol.
pub fn parse_sse_data(data: &str, is_openai: bool) -> (r: Result<SseAction, String>)
    ensures
        action_view(r) == data_action(data@, is_openai),
        json::json_failure(vstd::utf8::encode_utf8(data@)) is Some && !(is_openai && data@
            == "[DONE]"@) ==> action_view(r) == Ok::<SseActionView, Seq<char>>(
            SseActionView::Skip,
        ),
{
    if is_openai && same(data, "[DONE]") {
        return Ok(SseAction::Stop);
    }
    decide_payload(read_payload(data), is_openai)
}

/// What a line of the stream asks for: only `data:` lines do anything.
pub open spec fn line_action(line: Seq<u8>, is_openai: bool) -> Result<SseActionView, Seq<char>> {
    let words = text::trimmed(text::lossy_text(line));
    if "data:"@.is_prefix_of(words) {
        data_action(text::trimmed(words.skip("data:"@.len() as int)), is_openai)
    } else {
        Ok(SseActionView::Skip)
    }
}

/// Decides on one line of the stream.
fn decide_line(line: &[u8], is_openai: bool) -> (r: Result<SseAction, String>)
    ensures
        action_view(r) == line_action(line@, is_openai),
{
    let decoded: String = from_utf8_lossy(line);
    let words: String = trim(decoded.as_str());
    match strip_prefix(words.as_str(), "data:") {
        Some(data) => {
            let data: String = trim(data.as_str());
            parse_sse_data(data.as_str(), is_openai)
        },
        None => Ok(SseAction::Skip),
    }
}

/// Whether and how a stream has ended.
#[derive(Debug)]
pub enum StreamEnd {
    /// It goes on.
    Open,
    /// The completion is complete.
    Stopped,
    /// It failed for this reason.
    Failed(String),
}

/// Whether and how a stream has ended, as a mathematical value.
pub enum StreamEndView {
    Open,
    Stopped,
    Failed(Seq<char>),
}

impl View for StreamEnd {
    type V = StreamEndView;

    open spec fn view(&self) -> StreamEndView {
        match *self {
            StreamEnd::Open => StreamEndView::Open,
            StreamEnd::Stopped => StreamEndView::Stopped,
            StreamEnd::Failed(e) => StreamEndView::Failed(e@),
        }
    }
}

/// What reading bytes gives: the tokens, the bytes of a line that is still incomplete, and
/// whether the stream goes on.
pub struct Reading {
    pub tokens: Seq<Seq<char>>,
    pub rest: Seq<u8>,
    pub end: StreamEndView,
}

/// The place of the first line feed, or the length where there is none.
pub open spec fn line_feed(bytes: Seq<u8>) -> int
    decreases bytes.len(),
{
    if bytes.len() == 0 || bytes[0] == 10u8 {
        0
    } else {
        1 + line_feed(bytes.drop_first())
    }
}

/// Reads the complete lines among the bytes, one after the other, up to the one that ends the
/// stream.
pub open spec fn read_lines(bytes: Seq<u8>, is_openai: bool) -> Reading
    decreases bytes.len(),
{
    let p = line_feed(bytes);
    if p < 0 || p >= bytes.len() {
        Reading { tokens: Seq::empty(), rest: bytes, end: StreamEndView::Open }
    } else {
        let after = bytes.skip(p + 1);
        match line_action(bytes.take(p + 1), is_openai) {
            Err(e) => Reading { tokens: Seq::empty(), rest: after, end: StreamEndView::Failed(e) },
            Ok(SseActionView::Stop) => Reading {
                tokens: Seq::empty(),
                rest: after,
                end: StreamEndView::Stopped,
            },
            Ok(SseActionView::Skip) => read_lines(after, is_openai),
            Ok(SseActionView::Token(t)) => {
                let more = read_lines(after, is_openai);
                Reading { tokens: seq![t] + more.tokens, ..more }
            },
        }
    }
}

/// All tokens joined.
pub open spec fn joined(tokens: Seq<Seq<char>>) -> Seq<char>
    decreases tokens.len(),
{
    if tokens.len() == 0 {
        Seq::empty()
    } else {
        joined(tokens.drop_last()) + tokens.last()
    }
}

/// A stream that is being read.
#[derive(Debug)]
pub struct SseStream {
    pub is_openai: bool,
    /// The bytes of a line that is still incomplete.
    pub pending: Vec<u8>,
    /// All text so far.
    pub accumulated: String,
}

fn find_line_feed(bytes: &Vec<u8>, from: usize) -> (r: usize)
    requires
        from <= bytes@.len(),
    ensures
        r == from + line_feed(bytes@.skip(from as int)),
        from <= r <= bytes@.len(),
        r < bytes@.len() ==> bytes@[r as int] == 10u8,
{
    let mut i: usize = from;
    while i < bytes.len() && bytes[i] != 10u8
        invariant
            from <= i <= bytes@.len(),
            from + line_feed(bytes@.skip(from as int)) == i + line_feed(bytes@.skip(i as int)),
        decreases bytes@.len() - i,
    {
        assert(bytes@.skip(i as int).drop_first() =~= bytes@.skip(i + 1));
        i += 1;
    }
    i
}

impl SseStream {
    /// A stream of which nothing has been read.
    pub fn new(is_openai: bool) -> (r: Self)
        ensures
            r.is_openai == is_openai,
            r.pending@ == Seq::<u8>::empty(),
            r.accumulated@ == Seq::<char>::empty(),
    {
        SseStream { is_openai, pending: Vec::new(), accumulated: String::new() }
    }

    /// Reads another piece of the stream. Gives the tokens in it, in order, and tells whether the
    /// stream has ended with it; a line that is cut off waits for the next piece.
    pub fn feed(&mut self, chunk: &[u8]) -> (r: (Vec<String>, StreamEnd))
        ensures
            ({
                let reading = read_lines(old(self).pending@ + chunk@, old(self).is_openai);
                &&& text::texts(r.0@) == reading.tokens
                &&& r.1@ == reading.end
                &&& final(self).pending@ == reading.rest
                &&& final(self).accumulated@ == old(self).accumulated@ + joined(reading.tokens)
                &&& final(self).is_openai == old(self).is_openai
            }),
    {
        let ghost bytes = self.pending@ + chunk@;
        let mut all: Vec<u8> = Vec::new();
        all.append(&mut self.pending);
        let mut k: usize = 0;
        while k < chunk.len()
            invariant
                0 <= k <= chunk@.len(),
                all@ == old(self).pending@ + chunk@.take(k as int),
                self.is_openai == old(self).is_openai,
                self.accumulated@ == old(self).accumulated@,
            decreases chunk@.len() - k,
        {
            all.push(chunk[k]);
            k += 1;
            assert(chunk@.take(k as int) =~= chunk@.take(k - 1).push(chunk@[k - 1]));
        }
        assert(chunk@.take(chunk@.len() as int) =~= chunk@);
        assert(all@ =~= bytes);
        let mut tokens: Vec<String> = Vec::new();
        let mut end: StreamEnd = StreamEnd::Open;
        let mut from: usize = 0;
        let mut open: bool = true;
        assert(bytes.skip(0) =~= bytes);
        assert(text::texts(tokens@) =~= Seq::empty());
        assert(text::texts(tokens@) + read_lines(bytes, self.is_openai).tokens =~= read_lines(
            bytes,
            self.is_openai,
        ).tokens);
        assert(old(self).accumulated@ + joined(text::texts(tokens@)) =~= self.accumulated@);
        while open && from < all.len()
            invariant
                all@ == bytes,
                0 <= from <= bytes.len(),
                self.is_openai == old(self).is_openai,
                self.accumulated@ == old(self).accumulated@ + joined(text::texts(tokens@)),
                open ==> end@ == StreamEndView::Open,
                ({
                    let whole = read_lines(bytes, self.is_openai);
                    if open {
                        let more = read_lines(bytes.skip(from as int), self.is_openai);
                        &&& whole.tokens == text::texts(tokens@) + more.tokens
                        &&& whole.rest == more.rest
                        &&& whole.end == more.end
                    } else {
                        &&& whole.tokens == text::texts(tokens@)
                        &&& whole.rest == bytes.skip(from as int)
                        &&& whole.end == end@
                    }
                }),
            decreases bytes.len() - from + (if open { 1int } else { 0int }),
        {
            let at: usize = find_line_feed(&all, from);
            let ghost here = bytes.skip(from as int);
            let ghost so_far = text::texts(tokens@);
            if at >= all.len() {
                open = false;
                assert(so_far + Seq::<Seq<char>>::empty() =~= so_far);
            } else {
                let line: &[u8] = vstd::slice::slice_subrange(all.as_slice(), from, at + 1);
                assert(line@ =~= here.take(at + 1 - from));
                assert(here.skip(at + 1 - from) =~= bytes.skip(at + 1));
                match decide_line(line, self.is_openai) {
                    Err(e) => {
                        end = StreamEnd::Failed(e);
                        open = false;
                        assert(so_far + Seq::<Seq<char>>::empty() =~= so_far);
                    },
                    Ok(SseAction::Stop) => {
                        end = StreamEnd::Stopped;
                        open = false;
                        assert(so_far + Seq::<Seq<char>>::empty() =~= so_far);
                    },
                    Ok(SseAction::Skip) => {},
                    Ok(SseAction::Token(t)) => {
                        self.accumulated.append(t.as_str());
                        let ghost word = t@;
                        tokens.push(t);
                        assert(text::texts(tokens@) =~= so_far.push(word));
                        assert(so_far.push(word).drop_last() =~= so_far);
                        let ghost more = read_lines(bytes.skip(at + 1), self.is_openai).tokens;
                        assert(so_far + (seq![word] + more) =~= so_far.push(word) + more);
                        assert(self.accumulated@ =~= old(self).accumulated@ + joined(
                            text::texts(tokens@),
                        ));
                    },
                }
                from = at + 1;
            }
        }
        if open {
            assert(bytes.skip(from as int) =~= Seq::empty());
            assert(text::texts(tokens@) + Seq::<Seq<char>>::empty() =~= text::texts(tokens@));
        }
        let rest: Vec<u8> = vstd::slice::slice_to_vec(
            vstd::slice::slice_subrange(all.as_slice(), from, all.len()),
        );
        assert(rest@ =~= bytes.skip(from as int));
        self.pending = rest;
        (tokens, end)
    }
}

proof fn line_feed_bounds(bytes: Seq<u8>)
    ensures
        0 <= line_feed(bytes) <= bytes.len(),
        line_feed(bytes) < bytes.len() ==> bytes[line_feed(bytes)] == 10u8,
        forall|i: int| 0 <= i < line_feed(bytes) ==> bytes[i] != 10u8,
    decreases bytes.len(),
{
    if bytes.len() > 0 && bytes[0] != 10u8 {
        line_feed_bounds(bytes.drop_first());
        assert forall|i: int| 0 <= i < line_feed(bytes) implies bytes[i] != 10u8 by {
            if i > 0 {
                assert(bytes[i] == bytes.drop_first()[i - 1]);
            }
        }
    }
}

proof fn line_feed_extends(a: Seq<u8>, b: Seq<u8>)
    requires
        line_feed(a) < a.len(),
    ensures
        line_feed(a + b) == line_feed(a),
    decreases a.len(),
{
    assert((a + b)[0] == a[0]);
    if a[0] != 10u8 {
        assert((a + b).drop_first() =~= a.drop_first() + b);
        line_feed_extends(a.drop_first(), b);
    }
}

/// It does not matter how a stream is cut into pieces: reading a first piece, and then the bytes
/// it left over together with a second piece, gives the same tokens, the same rest and the same
/// end as reading both pieces at once, as long as the first does not end the stream.
pub proof fn pieces_do_not_matter(a: Seq<u8>, b: Seq<u8>, is_openai: bool)
    requires
        read_lines(a, is_openai).end is Open,
    ensures
        ({
            let first = read_lines(a, is_openai);
            let second = read_lines(first.rest + b, is_openai);
            let whole = read_lines(a + b, is_openai);
            &&& whole.tokens == first.tokens + second.tokens
            &&& whole.rest == second.rest
            &&& whole.end == second.end
        }),
    decreases a.len(),
{
    line_feed_bounds(a);
    let p = line_feed(a);
    let first = read_lines(a, is_openai);
    let second = read_lines(first.rest + b, is_openai);
    if p >= a.len() {
        assert(first.tokens + second.tokens =~= second.tokens);
    } else {
        line_feed_extends(a, b);
        assert((a + b).take(p + 1) =~= a.take(p + 1));
        assert((a + b).skip(p + 1) =~= a.skip(p + 1) + b);
        pieces_do_not_matter(a.skip(p + 1), b, is_openai);
        if let Ok(SseActionView::Token(t)) = line_action(a.take(p + 1), is_openai) {
            let more = read_lines(a.skip(p + 1), is_openai);
            assert((seq![t] + more.tokens) + second.tokens =~= seq![t] + (more.tokens
                + second.tokens));
        }
    }
}

/// Once a piece ends the stream, what follows it is not read: the tokens and the end stay those
/// of that piece.
pub proof fn nothing_is_read_after_the_end(a: Seq<u8>, b: Seq<u8>, is_openai: bool)
    requires
        !(read_lines(a, is_openai).end is Open),
    ensures
        read_lines(a + b, is_openai).tokens == read_lines(a, is_openai).tokens,
        read_lines(a + b, is_openai).end == read_lines(a, is_openai).end,
    decreases a.len(),
{
    line_feed_bounds(a);
    let p = line_feed(a);
    line_feed_extends(a, b);
    assert((a + b).take(p + 1) =~= a.take(p + 1));
    assert((a + b).skip(p + 1) =~= a.skip(p + 1) + b);
    match line_action(a.take(p + 1), is_openai) {
        Ok(SseActionView::Skip) => {
            nothing_is_read_after_the_end(a.skip(p + 1), b, is_openai);
        },
        Ok(SseActionView::Token(_)) => {
            nothing_is_read_after_the_end(a.skip(p + 1), b, is_openai);
        },
        _ => {},
    }
}

/// Reading goes line by line: what a first line asks for comes first, and what follows it is read
/// as if it stood alone.
pub proof fn lines_are_read_in_turn(line: Seq<u8>, rest: Seq<u8>, is_openai: bool)
    requires
        forall|i: int| 0 <= i < line.len() ==> #[trigger] line[i] != 10u8,
    ensures
        read_lines(line.push(10) + rest, is_openai) == (match line_action(
            line.push(10),
            is_openai,
        ) {
            Err(e) => Reading { tokens: Seq::empty(), rest, end: StreamEndView::Failed(e) },
            Ok(SseActionView::Stop) => Reading {
                tokens: Seq::empty(),
                rest,
                end: StreamEndView::Stopped,
            },
            Ok(SseActionView::Skip) => read_lines(rest, is_openai),
            Ok(SseActionView::Token(t)) => Reading {
                tokens: seq![t] + read_lines(rest, is_openai).tokens,
                ..read_lines(rest, is_openai)
            },
        }),
{
    let bytes = line.push(10) + rest;
    let n = line.len() as int;
    line_feed_bounds(bytes);
    assert(bytes[n] == 10);
    assert forall|i: int| 0 <= i < n implies bytes[i] != 10u8 by {
        assert(bytes[i] == line[i]);
    }
    assert(line_feed(bytes) == n);
    assert(bytes.take(n + 1) =~= line.push(10));
    assert(bytes.skip(n + 1) =~= rest);
}

/// A line that is not complete waits for the rest of it.
pub proof fn unfinished_lines_wait(line: Seq<u8>, is_openai: bool)
    requires
        forall|i: int| 0 <= i < line.len() ==> #[trigger] line[i] != 10u8,
    ensures
        read_lines(line, is_openai) == (Reading {
            tokens: Seq::empty(),
            rest: line,
            end: StreamEndView::Open,
        }),
{
    line_feed_bounds(line);
}

} // verus!

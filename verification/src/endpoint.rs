//! Which addresses a user-run model server may have: those of this computer, and no others.

use url::{Host, Url};
use vstd::prelude::*;
#[allow(unused_imports)]
use vstd::string::StringExecFns;

use crate::text;
use crate::text::{concat2, eq_ignore_ascii_case, same, trim, trim_end_slashes};

verus! {

/// The IPv4 address 127.0.0.1.
pub const LOOPBACK_V4: u32 = 0x7f00_0001;

/// The IPv6 address ::1.
pub const LOOPBACK_V6: u128 = 1;

/// The host that a URL names.
#[derive(Debug)]
pub enum UrlHost {
    Missing,
    Domain(String),
    /// The address, most significant byte first.
    V4(u32),
    /// The address, most significant byte first.
    V6(u128),
}

/// The host that a URL names, as a mathematical value.
pub enum UrlHostView {
    Missing,
    Domain(Seq<char>),
    V4(u32),
    V6(u128),
}

impl View for UrlHost {
    type V = UrlHostView;

    open spec fn view(&self) -> UrlHostView {
        match *self {
            UrlHost::Missing => UrlHostView::Missing,
            UrlHost::Domain(d) => UrlHostView::Domain(d@),
            UrlHost::V4(a) => UrlHostView::V4(a),
            UrlHost::V6(a) => UrlHostView::V6(a),
        }
    }
}

/// The parts of a URL.
#[derive(Debug)]
pub struct UrlParts {
    pub scheme: String,
    pub username: String,
    pub has_password: bool,
    pub has_query: bool,
    pub has_fragment: bool,
    pub host: UrlHost,
    pub path: String,
}

/// The parts of a URL, as a mathematical value.
pub struct UrlPartsView {
    pub scheme: Seq<char>,
    pub username: Seq<char>,
    pub has_password: bool,
    pub has_query: bool,
    pub has_fragment: bool,
    pub host: UrlHostView,
    pub path: Seq<char>,
}

impl View for UrlParts {
    type V = UrlPartsView;

    open spec fn view(&self) -> UrlPartsView {
        UrlPartsView {
            scheme: self.scheme@,
            username: self.username@,
            has_password: self.has_password,
            has_query: self.has_query,
            has_fragment: self.has_fragment,
            host: self.host@,
            path: self.path@,
        }
    }
}

/// The view of a parse.
pub open spec fn parts_view(r: Result<UrlParts, String>) -> Result<UrlPartsView, Seq<char>> {
    match r {
        Ok(parts) => Ok(parts@),
        Err(e) => Err(e@),
    }
}

/// What `url::Url::parse` makes of a text: the parts of the URL, or why it is none.
pub uninterp spec fn parsed_url(text: Seq<char>) -> Result<UrlPartsView, Seq<char>>;

/// Whether a text has neither tabs nor line breaks.
pub open spec fn is_unbroken(s: Seq<char>) -> bool {
    forall|i: int| 0 <= i < s.len() ==> #[trigger] s[i] != '\t' && s[i] != '\n' && s[i] != '\r'
}

/// Whether the parts of a URL are given ones, but for slashes at the end of the path.
pub open spec fn reads_alike(
    again: Result<UrlPartsView, Seq<char>>,
    parts: UrlPartsView,
) -> bool {
    again matches Ok(q) && q == (UrlPartsView { path: q.path, ..parts })
        && text::without_trailing_slashes(q.path) == text::without_trailing_slashes(parts.path)
}

/// `url::Url::parse`, with the parts of the URL taken out by `scheme`, `username`, `password`,
/// `query`, `fragment`, `host` and `path`.
///
/// Of a local service root without tabs and line breaks two things are claimed besides. Slashes at
/// the end of the text belong to the path, since the host ends before the first of them and there
/// is no query or fragment: without them every other part is read as before, and the path is the
/// same but for slashes at its end. And where there are such slashes, no control character or
/// space stands before them: a host or port with one is refused, and in a path it is
/// percent-encoded, which a service root is not. What a host makes of white space beyond ASCII is
/// left unsaid.
#[verifier::external_body]
pub(crate) fn parse_url(text: &str) -> (r: Result<UrlParts, String>)
    ensures
        parts_view(r) == parsed_url(text@),
        r matches Ok(parts) ==> (is_local_service(parts@) && is_unbroken(text@) ==> {
            let bare = text::without_trailing_slashes(text@);
            &&& reads_alike(parsed_url(bare), parts@)
            &&& bare.len() < text@.len() ==> bare.len() > 0 && bare.last() as u32 > 0x20
        }),
{
    let url = Url::parse(text).map_err(|e| e.to_string())?;
    let host = match url.host() {
        None => UrlHost::Missing,
        Some(Host::Domain(name)) => UrlHost::Domain(name.to_string()),
        Some(Host::Ipv4(address)) => UrlHost::V4(address.into()),
        Some(Host::Ipv6(address)) => UrlHost::V6(address.into()),
    };
    Ok(UrlParts {
        scheme: url.scheme().to_string(), username: url.username().to_string(),
        has_password: url.password().is_some(), has_query: url.query().is_some(),
        has_fragment: url.fragment().is_some(), host, path: url.path().to_string(),
    })
}

/// Whether a host is this computer: `localhost`, 127.0.0.1 or ::1.
pub open spec fn is_loopback(host: UrlHostView) -> bool {
    match host {
        UrlHostView::Missing => false,
        UrlHostView::Domain(name) => name.map_values(|c: char| text::ascii_lower(c))
            == "localhost"@.map_values(|c: char| text::ascii_lower(c)),
        UrlHostView::V4(address) => address == LOOPBACK_V4,
        UrlHostView::V6(address) => address == LOOPBACK_V6,
    }
}

/// Whether a URL is plain HTTP, without credentials, query or fragment.
pub open spec fn is_plain_http(parts: UrlPartsView) -> bool {
    parts.scheme == "http"@ && parts.username.len() == 0 && !parts.has_password && !parts.has_query
        && !parts.has_fragment
}

/// Whether a path is that of a service root: nothing, or `/v1`.
pub open spec fn is_service_root(path: Seq<char>) -> bool {
    let root = text::without_trailing_slashes(path);
    root.len() == 0 || root == "/v1"@
}

/// Whether the server at an address may be used.
pub open spec fn is_local_service(parts: UrlPartsView) -> bool {
    is_plain_http(parts) && is_loopback(parts.host) && is_service_root(parts.path)
}

/// An address without surrounding white space and trailing slashes.
pub open spec fn tidy_endpoint(endpoint: Seq<char>) -> Seq<char> {
    text::without_trailing_slashes(text::trimmed(endpoint))
}

/// What becomes of an address, given its parts.
pub open spec fn endpoint_verdict(
    parts: Result<UrlPartsView, Seq<char>>,
    endpoint: Seq<char>,
) -> Result<Seq<char>, Seq<char>> {
    match parts {
        Err(e) => Err("Invalid URL: "@ + e),
        Ok(parts) => if !is_plain_http(parts) {
            Err(
                "Use a plain http://localhost (or 127.0.0.1 / [::1]) endpoint without credentials, query or fragment"@,
            )
        } else if !is_loopback(parts.host) {
            Err(
                "Custom model servers must be bound to loopback; LAN/cloud endpoints are not supported here"@,
            )
        } else if !is_service_root(parts.path) {
            Err("Endpoint must be the server root or /v1 (not a full API method URL)"@)
        } else {
            Ok(tidy_endpoint(endpoint))
        },
    }
}

/// What becomes of an address.
pub open spec fn endpoint_result(endpoint: Seq<char>) -> Result<Seq<char>, Seq<char>> {
    endpoint_verdict(parsed_url(text::trimmed(endpoint)), endpoint)
}

fn loopback(host: &UrlHost) -> (r: bool)
    ensures
        r == is_loopback(host@),
{
    match host {
        UrlHost::Missing => false,
        UrlHost::Domain(name) => eq_ignore_ascii_case(name.as_str(), "localhost"),
        UrlHost::V4(address) => *address == LOOPBACK_V4,
        UrlHost::V6(address) => *address == LOOPBACK_V6,
    }
}

/// Decides on an address whose parts are known. An accepted address is given back without
/// surrounding white space and trailing slashes.
pub fn check_endpoint(parts: &Result<UrlParts, String>, endpoint: &str) -> (r: Result<
    String,
    String,
>)
    ensures
        text::result_text(r) == endpoint_verdict(parts_view(*parts), endpoint@),
{
    match parts {
        Err(e) => Err(concat2("Invalid URL: ", e.as_str())),
        Ok(parts) => {
            if !same(parts.scheme.as_str(), "http") || !parts.username.as_str().is_empty()
                || parts.has_password || parts.has_query || parts.has_fragment {
                return Err(
                    "Use a plain http://localhost (or 127.0.0.1 / [::1]) endpoint without credentials, query or fragment".to_owned(),
                );
            }
            if !loopback(&parts.host) {
                return Err(
                    "Custom model servers must be bound to loopback; LAN/cloud endpoints are not supported here".to_owned(),
                );
            }
            let root: String = trim_end_slashes(parts.path.as_str());
            if !root.as_str().is_empty() && !same(root.as_str(), "/v1") {
                return Err(
                    "Endpoint must be the server root or /v1 (not a full API method URL)".to_owned(),
                );
            }
            Ok(trim_end_slashes(trim(endpoint).as_str()))
        },
    }
}

/// Whether a text does not end in white space beyond ASCII.
pub open spec fn ends_plainly(s: Seq<char>) -> bool {
    s.len() > 0 ==> (s.last() as u32) < 128 || !text::is_white_space(s.last())
}

/// Accepts the address of a service root on this computer, over plain HTTP. The URL is parsed
/// rather than compared by prefix, so user info and deceptive host names do not pass.
///
/// What is given back is the address of such a service root too, and is given back as it is when
/// it is checked again.
pub fn validate_endpoint(endpoint: &str) -> (r: Result<String, String>)
    ensures
        text::result_text(r) == endpoint_result(endpoint@),
        r matches Ok(s) ==> s@ == tidy_endpoint(endpoint@),
        r matches Ok(s) ==> (is_unbroken(endpoint@) ==> (parsed_url(s@) matches Ok(parts)
            && is_local_service(parts))),
        r matches Ok(s) ==> (is_unbroken(endpoint@) && ends_plainly(s@) ==> endpoint_result(s@)
            == Ok::<Seq<char>, Seq<char>>(s@)),
{
    let body: String = trim(endpoint);
    let parts: Result<UrlParts, String> = parse_url(body.as_str());
    let r: Result<String, String> = check_endpoint(&parts, endpoint);
    proof {
        if r is Ok && is_unbroken(endpoint@) {
            let bare = tidy_endpoint(endpoint@);
            trimming_breaks_nothing(endpoint@);
            text::trimming_is_idempotent(endpoint@);
            text::stripping_slashes_is_idempotent(body@);
            assert(reads_alike(parsed_url(bare), parts->Ok_0@));
            if ends_plainly(bare) {
                if bare.len() == body@.len() {
                    assert(bare =~= body@);
                }
                accepted_endpoints_are_kept(endpoint@, bare);
            }
        }
    }
    r
}

proof fn trimming_breaks_nothing(s: Seq<char>)
    requires
        is_unbroken(s),
    ensures
        is_unbroken(text::trimmed(s)),
{
    let ws = |c: char| text::is_white_space(c);
    leading_breaks_nothing(s, ws);
    trailing_breaks_nothing(text::drop_leading(s, ws), ws);
}

proof fn leading_breaks_nothing(s: Seq<char>, kind: spec_fn(char) -> bool)
    requires
        is_unbroken(s),
    ensures
        is_unbroken(text::drop_leading(s, kind)),
    decreases s.len(),
{
    if s.len() > 0 && kind(s.first()) {
        leading_breaks_nothing(s.drop_first(), kind);
    }
}

proof fn trailing_breaks_nothing(s: Seq<char>, kind: spec_fn(char) -> bool)
    requires
        is_unbroken(s),
    ensures
        is_unbroken(text::drop_trailing(s, kind)),
    decreases s.len(),
{
    if s.len() > 0 && kind(s.last()) {
        trailing_breaks_nothing(s.drop_last(), kind);
    }
}

/// An address is accepted exactly where its URL is a service root on this computer, over plain
/// HTTP: what is sent to an accepted address never leaves the computer.
pub proof fn accepted_endpoints_are_local(
    parts: Result<UrlPartsView, Seq<char>>,
    endpoint: Seq<char>,
)
    ensures
        endpoint_verdict(parts, endpoint) is Ok <==> (parts is Ok && is_local_service(parts->Ok_0)),
        endpoint_verdict(parts, endpoint) is Ok ==> endpoint_verdict(parts, endpoint)->Ok_0
            == tidy_endpoint(endpoint),
{
}

proof fn accepted_endpoints_are_kept(endpoint: Seq<char>, accepted: Seq<char>)
    requires
        endpoint_result(endpoint) == Ok::<Seq<char>, Seq<char>>(accepted),
        accepted.len() > 0 ==> !text::is_white_space(accepted.last()),
        parsed_url(accepted) matches Ok(parts) && is_local_service(parts),
    ensures
        tidy_endpoint(accepted) == accepted,
        endpoint_result(accepted) == Ok::<Seq<char>, Seq<char>>(accepted),
{
    let body = text::trimmed(endpoint);
    text::trimming_is_idempotent(endpoint);
    text::stripping_slashes_is_idempotent(body);
    if accepted.len() > 0 {
        assert(accepted.first() == body.first());
    }
    text::bare_texts_are_kept(accepted);
}

/// Whether a text is `localhost`, whatever the case of its letters.
pub open spec fn says_localhost(name: Seq<char>) -> bool {
    name.len() == 9 && forall|i: int|
        0 <= i < 9 ==> #[trigger] name[i] == "localhost"@[i] || name[i] as int + 32
            == "localhost"@[i] as int
}

/// Whether a path is only slashes, or `/v1` and slashes.
pub open spec fn leads_to_root(path: Seq<char>) -> bool {
    ||| forall|i: int| 0 <= i < path.len() ==> #[trigger] path[i] == '/'
    ||| "/v1"@.is_prefix_of(path) && forall|i: int|
        3 <= i < path.len() ==> #[trigger] path[i] == '/'
}

/// The name of this computer is `localhost` in any mix of upper and lower case.
proof fn localhost_by_letters(name: Seq<char>)
    ensures
        is_loopback(UrlHostView::Domain(name)) <==> says_localhost(name),
{
    reveal_strlit("localhost");
    let lower = |c: char| text::ascii_lower(c);
    let wanted = "localhost"@.map_values(lower);
    assert(wanted =~= "localhost"@);
    let folded = name.map_values(lower);
    if says_localhost(name) {
        assert forall|i: int| 0 <= i < 9 implies folded[i] == wanted[i] by {
            assert(name[i] == "localhost"@[i] || name[i] as int + 32 == "localhost"@[i] as int);
        }
        assert(folded =~= wanted);
    }
    if folded == wanted {
        assert(name.len() == 9);
        assert forall|i: int| 0 <= i < 9 implies #[trigger] name[i] == "localhost"@[i]
            || name[i] as int + 32 == "localhost"@[i] as int by {
            assert(folded[i] == wanted[i]);
        }
    }
}

proof fn roots_by_slashes(path: Seq<char>)
    ensures
        is_service_root(path) <==> leads_to_root(path),
{
    reveal_strlit("/v1");
    let v1 = "/v1"@;
    let n = text::stripping_takes_slashes_alone(path);
    let root = text::without_trailing_slashes(path);
    if root.len() == 0 {
        assert(n == 0);
    } else if root == v1 {
        assert(n == 3);
        assert(v1 =~= path.take(3));
        assert(v1.is_prefix_of(path));
    }
    if forall|i: int| 0 <= i < path.len() ==> #[trigger] path[i] == '/' {
        if n > 0 {
            assert(path[n - 1] == '/');
        }
        assert(root.len() == 0);
    } else if leads_to_root(path) {
        assert(path.take(3) =~= v1);
        assert(path[2] == v1[2]);
        if n < 3 {
            assert(path[2] == '/');
        }
        if n > 3 {
            assert(path[n - 1] == '/');
        }
        assert(root =~= v1);
    }
}

/// An address is accepted exactly where its URL has the scheme `http`, neither credentials nor
/// query nor fragment, one of the three names of this computer, and a root as its path. What is
/// given back is the address without the white space round it and the slashes behind it; what is
/// refused is refused for the first of these that fails.
pub proof fn only_this_computer_is_accepted(
    parts: Result<UrlPartsView, Seq<char>>,
    endpoint: Seq<char>,
)
    ensures
        ({
            let verdict = endpoint_verdict(parts, endpoint);
            match parts {
                Err(e) => verdict == Err::<Seq<char>, Seq<char>>("Invalid URL: "@ + e),
                Ok(p) => {
                    let here = match p.host {
                        UrlHostView::Missing => false,
                        UrlHostView::Domain(name) => says_localhost(name),
                        UrlHostView::V4(address) => address == 127 * 0x100_0000 + 1,
                        UrlHostView::V6(address) => address == 1,
                    };
                    if p.scheme != "http"@ || p.username.len() > 0 || p.has_password || p.has_query
                        || p.has_fragment {
                        verdict == Err::<Seq<char>, Seq<char>>(
                            "Use a plain http://localhost (or 127.0.0.1 / [::1]) endpoint without credentials, query or fragment"@,
                        )
                    } else if !here {
                        verdict == Err::<Seq<char>, Seq<char>>(
                            "Custom model servers must be bound to loopback; LAN/cloud endpoints are not supported here"@,
                        )
                    } else if !leads_to_root(p.path) {
                        verdict == Err::<Seq<char>, Seq<char>>(
                            "Endpoint must be the server root or /v1 (not a full API method URL)"@,
                        )
                    } else {
                        verdict matches Ok(s) && s.is_prefix_of(text::trimmed(endpoint)) && (s.len()
                            > 0 ==> s.last() != '/') && forall|i: int|
                            s.len() <= i < text::trimmed(endpoint).len() ==> #[trigger]
                                text::trimmed(endpoint)[i] == '/'
                    }
                },
            }
        }),
{
    match parts {
        Ok(p) => {
            if let UrlHostView::Domain(name) = p.host {
                localhost_by_letters(name);
            }
            roots_by_slashes(p.path);
            let body = text::trimmed(endpoint);
            let n = text::stripping_takes_slashes_alone(body);
        },
        Err(e) => {},
    }
}

} // verus!

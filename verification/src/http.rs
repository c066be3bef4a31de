//! What requests to model servers have in common.

use vstd::prelude::*;

verus! {

/// How a request is made.
#[derive(Clone, Copy, Debug, PartialEq, Eq)]
pub struct ClientPolicy {
    /// How long connecting may take.
    pub connect_timeout_secs: u64,
    /// How long the whole request may take; `None` is without limit.
    pub timeout_secs: Option<u64>,
    /// Whether an answer may send the request elsewhere.
    pub follow_redirects: bool,
}

/// Whether a number is the status of an HTTP answer: it has three digits.
pub open spec fn is_status(status: u16) -> bool {
    100 <= status < 1000
}

/// Whether a status reports success.
pub open spec fn is_success(status: u16) -> bool {
    200 <= status < 300
}

/// Whether a status reports success.
pub fn status_ok(status: u16) -> (r: bool)
    ensures
        r == is_success(status),
        r == (status == 200 || 200 < status <= 299),
{
    200 <= status && status < 300
}

/// A status as `reqwest::StatusCode` shows it: the number and the reason that goes with it.
pub uninterp spec fn status_line_text(status: u16) -> Seq<char>;

/// `reqwest::StatusCode::from_u16` and the `Display` of what it gives, such as `404 Not Found`.
/// The numbers of three digits are those that `from_u16` takes.
#[verifier::external_body]
pub(crate) fn status_line(status: u16) -> (r: String)
    requires
        is_status(status),
    ensures
        r@ == status_line_text(status),
{
    reqwest::StatusCode::from_u16(status).map(|s| s.to_string()).unwrap_or_default()
}

} // verus!

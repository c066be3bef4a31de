//! Times as they are written into names and files.

use vstd::prelude::*;

verus! {

/// Whether a character is a decimal digit.
pub open spec fn is_digit(c: char) -> bool {
    '0' <= c <= '9'
}

/// Whether a text is a date and a time of day, from the year to the second: digits, hyphens in the
/// date, one character between date and time and another within the time. A year of more than
/// four digits has a sign.
pub open spec fn is_date_time(s: Seq<char>, between: char, within: char) -> bool {
    s.len() >= 19 && forall|i: int|
        0 <= i < s.len() ==> {
            let back = s.len() - i;
            let c = #[trigger] s[i];
            if back == 15 || back == 12 {
                c == '-'
            } else if back == 9 {
                c == between
            } else if back == 6 || back == 3 {
                c == within
            } else {
                is_digit(c) || (i == 0 && s.len() > 19 && c == '+')
            }
        }
}

/// Whether a text is a time stamp for names, such as `2025-10-03_08-25-23`.
pub open spec fn is_local_stamp(s: Seq<char>) -> bool {
    is_date_time(s, '_', '-')
}

/// Whether a text is a fraction of a second: nothing, or a point and three, six or nine digits.
pub open spec fn is_fraction(s: Seq<char>) -> bool {
    s.len() == 0 || ((s.len() == 4 || s.len() == 7 || s.len() == 10) && s[0] == '.' && forall|i: int|
        1 <= i < s.len() ==> is_digit(#[trigger] s[i]))
}

/// Whether a text is a time stamp for files whose date and time end before a place, such as
/// `2025-10-03T08:25:23.250+00:00`.
pub open spec fn is_utc_stamp_at(s: Seq<char>, end: int) -> bool {
    &&& 19 <= end <= s.len() - 6
    &&& is_date_time(s.take(end), 'T', ':')
    &&& is_fraction(s.subrange(end, s.len() - 6))
    &&& s.skip(s.len() - 6) == "+00:00"@
}

/// Whether a text is a time stamp for files.
pub open spec fn is_utc_stamp(s: Seq<char>) -> bool {
    exists|end: int| is_utc_stamp_at(s, end)
}

/// `chrono::Local::now` and `DateTime::format` as `%Y-%m-%d_%H-%M-%S`: year, month, day, hour,
/// minute and second in that layout. Which digits they are is the machine's clock and time zone.
#[verifier::external_body]
pub(crate) fn local_stamp() -> (r: String)
    ensures
        is_local_stamp(r@),
{
    chrono::Local::now().format("%Y-%m-%d_%H-%M-%S").to_string()
}

/// `chrono::Utc::now` and `DateTime::to_rfc3339`: date, time, a fraction of a second where there
/// is one, and the offset `+00:00`. Which digits they are is the machine's clock.
#[verifier::external_body]
pub(crate) fn utc_stamp() -> (r: String)
    ensures
        is_utc_stamp(r@),
{
    chrono::Utc::now().to_rfc3339()
}

} // verus!

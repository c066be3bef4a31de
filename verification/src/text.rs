//! Character-level text operations, stated over sequences of characters.

use vstd::prelude::*;
#[allow(unused_imports)]
use vstd::string::StringExecFns;

verus! {

/// The characters with Unicode's `White_Space` property.
pub open spec fn is_white_space(c: char) -> bool {
    ||| 0x09 <= c as u32 <= 0x0d
    ||| c as u32 == 0x20
    ||| c as u32 == 0x85
    ||| c as u32 == 0xa0
    ||| c as u32 == 0x1680
    ||| 0x2000 <= c as u32 <= 0x200a
    ||| c as u32 == 0x2028
    ||| c as u32 == 0x2029
    ||| c as u32 == 0x202f
    ||| c as u32 == 0x205f
    ||| c as u32 == 0x3000
}

/// `char::is_whitespace`: whether the character has Unicode's `White_Space` property.
pub assume_specification[ char::is_whitespace ](c: char) -> (r: bool)
    ensures
        r == is_white_space(c),
;

/// `String::push`: appends one character.
pub assume_specification[ String::push ](s: &mut String, c: char)
    ensures
        final(s)@ == old(s)@.push(c),
;

/// The ASCII letter in lower case; every other character as it is.
pub open spec fn ascii_lower(c: char) -> char {
    if 'A' <= c && c <= 'Z' {
        ((c as u32) + 32) as char
    } else {
        c
    }
}

/// What `str::to_lowercase` makes of a text.
pub uninterp spec fn lowercase_text(s: Seq<char>) -> Seq<char>;

/// `str::to_lowercase`: the lower-case text by Unicode's mapping, which is left unnamed but for
/// ASCII texts, whose letters are mapped one by one.
#[verifier::external_body]
pub(crate) fn lowercase(s: &str) -> (r: String)
    ensures
        r@ == lowercase_text(s@),
        (forall|i: int| 0 <= i < s@.len() ==> (#[trigger] s@[i] as u32) < 128) ==> r@ == s@.map_values(
            |c: char| ascii_lower(c),
        ),
{
    s.to_lowercase()
}

/// The text that `String::from_utf8_lossy` reads out of bytes.
pub uninterp spec fn lossy_text(bytes: Seq<u8>) -> Seq<char>;

/// `String::from_utf8_lossy`: the text that the bytes encode; bytes that encode none are
/// replaced, in a way that is left unnamed.
#[verifier::external_body]
pub(crate) fn from_utf8_lossy(bytes: &[u8]) -> (r: String)
    ensures
        r@ == lossy_text(bytes@),
        vstd::utf8::valid_utf8(bytes@) ==> r@ == vstd::utf8::decode_utf8(bytes@),
{
    String::from_utf8_lossy(bytes).into_owned()
}

/// The text without its trailing characters of a kind.
pub open spec fn drop_trailing(s: Seq<char>, kind: spec_fn(char) -> bool) -> Seq<char>
    decreases s.len(),
{
    if s.len() > 0 && kind(s.last()) {
        drop_trailing(s.drop_last(), kind)
    } else {
        s
    }
}

/// The text without its leading characters of a kind.
pub open spec fn drop_leading(s: Seq<char>, kind: spec_fn(char) -> bool) -> Seq<char>
    decreases s.len(),
{
    if s.len() > 0 && kind(s.first()) {
        drop_leading(s.drop_first(), kind)
    } else {
        s
    }
}

/// The text without surrounding white space.
pub open spec fn trimmed(s: Seq<char>) -> Seq<char> {
    drop_trailing(drop_leading(s, |c: char| is_white_space(c)), |c: char| is_white_space(c))
}

/// The text without its trailing slashes.
pub open spec fn without_trailing_slashes(s: Seq<char>) -> Seq<char> {
    drop_trailing(s, |c: char| c == '/')
}

/// Whether `part` stands somewhere in `s`.
pub open spec fn occurs_in(part: Seq<char>, s: Seq<char>) -> bool {
    exists|i: int| #![trigger s.subrange(i, i + part.len())]
        0 <= i && i + part.len() <= s.len() && s.subrange(i, i + part.len()) == part
}

/// The decimal digit of a number below ten.
pub open spec fn digit(n: nat) -> char {
    (48 + n) as char
}

/// The decimal numeral of a number.
pub open spec fn numeral(n: nat) -> Seq<char>
    decreases n,
{
    if n < 10 {
        seq![digit(n)]
    } else {
        numeral(n / 10).push(digit(n % 10))
    }
}

/// The two-digit numeral of a number below a hundred.
pub open spec fn two_digits(n: nat) -> Seq<char> {
    seq![digit(n / 10), digit(n % 10)]
}

/// The views of a list of texts.
pub open spec fn texts(list: Seq<String>) -> Seq<Seq<char>> {
    list.map_values(|s: String| s@)
}

/// The view of an optional text.
pub open spec fn opt_text(s: Option<String>) -> Option<Seq<char>> {
    match s {
        Some(t) => Some(t@),
        None => None,
    }
}

/// The view of a borrowed text that may be missing.
pub open spec fn opt_str(s: Option<&str>) -> Option<Seq<char>> {
    match s {
        Some(t) => Some(t@),
        None => None,
    }
}

/// The view of an outcome whose value and error are texts.
pub open spec fn result_text(r: Result<String, String>) -> Result<Seq<char>, Seq<char>> {
    match r {
        Ok(t) => Ok(t@),
        Err(e) => Err(e@),
    }
}

/// The view of an outcome that carries nothing but its error's text.
pub open spec fn unit_result(r: Result<(), String>) -> Result<(), Seq<char>> {
    match r {
        Ok(()) => Ok(()),
        Err(e) => Err(e@),
    }
}

/// The characters of a text, in order.
pub fn chars_of(s: &str) -> (r: Vec<char>)
    ensures
        r@ == s@,
{
    let mut out: Vec<char> = Vec::new();
    for c in it: s.chars()
        invariant
            it.seq() == s@,
            out@ == s@.take(it.index() as int),
    {
        out.push(c);
    }
    out
}

/// The text made of the characters from `from` up to `to`.
pub fn text_between(chars: &Vec<char>, from: usize, to: usize) -> (r: String)
    requires
        from <= to <= chars@.len(),
    ensures
        r@ == chars@.subrange(from as int, to as int),
{
    let mut out: String = String::new();
    let mut i: usize = from;
    while i < to
        invariant
            from <= i <= to <= chars@.len(),
            out@ == chars@.subrange(from as int, i as int),
        decreases to - i,
    {
        out.push(chars[i]);
        i += 1;
    }
    out
}

/// Whether two texts are the same.
pub fn same(a: &str, b: &str) -> (r: bool)
    ensures
        r == (a@ == b@),
{
    a.to_owned() == b.to_owned()
}

/// Whether an optional text holds exactly `b`.
pub fn is_text(a: Option<&str>, b: &str) -> (r: bool)
    ensures
        r == (a matches Some(s) && s@ == b@),
{
    match a {
        Some(s) => same(s, b),
        None => false,
    }
}

/// Two texts joined.
pub fn concat2(a: &str, b: &str) -> (r: String)
    ensures
        r@ == a@ + b@,
{
    let mut out: String = a.to_owned();
    out.append(b);
    out
}

/// Three texts joined.
pub fn concat3(a: &str, b: &str, c: &str) -> (r: String)
    ensures
        r@ == a@ + b@ + c@,
{
    let mut out: String = a.to_owned();
    out.append(b);
    out.append(c);
    out
}

/// Whether `s` begins with `prefix`.
pub fn starts_with(s: &str, prefix: &str) -> (r: bool)
    ensures
        r == prefix@.is_prefix_of(s@),
{
    let whole: Vec<char> = chars_of(s);
    let start: Vec<char> = chars_of(prefix);
    if start.len() > whole.len() {
        return false;
    }
    let mut i: usize = 0;
    while i < start.len()
        invariant
            start@.len() <= whole@.len(),
            0 <= i <= start@.len(),
            forall|j: int| 0 <= j < i ==> start@[j] == whole@[j],
            whole@ == s@,
            start@ == prefix@,
        decreases start@.len() - i,
    {
        if start[i] != whole[i] {
            return false;
        }
        i += 1;
    }
    true
}

/// What follows `prefix` in `s`, where `s` begins with it.
pub fn strip_prefix(s: &str, prefix: &str) -> (r: Option<String>)
    ensures
        r is Some <==> prefix@.is_prefix_of(s@),
        r matches Some(rest) ==> rest@ == s@.skip(prefix@.len() as int),
{
    if starts_with(s, prefix) {
        let whole: Vec<char> = chars_of(s);
        let start: Vec<char> = chars_of(prefix);
        let rest: String = text_between(&whole, start.len(), whole.len());
        assert(rest@ =~= s@.skip(prefix@.len() as int));
        Some(rest)
    } else {
        None
    }
}

/// Whether `part` stands somewhere in `s`.
pub fn contains(s: &str, part: &str) -> (r: bool)
    ensures
        r == occurs_in(part@, s@),
{
    let whole: Vec<char> = chars_of(s);
    let piece: Vec<char> = chars_of(part);
    if piece.len() > whole.len() {
        return false;
    }
    let last: usize = whole.len() - piece.len();
    let mut i: usize = 0;
    while i <= last
        invariant
            whole@ == s@,
            piece@ == part@,
            last == whole@.len() - piece@.len(),
            0 <= i <= last + 1,
            forall|k: int| 0 <= k < i ==> #[trigger] s@.subrange(k, k + part@.len()) != part@,
        decreases last + 1 - i,
    {
        let mut j: usize = 0;
        while j < piece.len() && whole[i + j] == piece[j]
            invariant
                i + piece.len() <= whole.len(),
                0 <= j <= piece@.len(),
                forall|k: int| 0 <= k < j ==> whole@[i + k] == piece@[k],
            decreases piece@.len() - j,
        {
            j += 1;
        }
        if j == piece.len() {
            assert(s@.subrange(i as int, i + part@.len()) =~= part@);
            return true;
        }
        assert(s@.subrange(i as int, i + part@.len())[j as int] != part@[j as int]);
        if i == last {
            assert(!occurs_in(part@, s@));
            return false;
        }
        i += 1;
    }
    false
}

/// The text without surrounding white space.
pub fn trim(s: &str) -> (r: String)
    ensures
        r@ == trimmed(s@),
{
    let chars: Vec<char> = chars_of(s);
    let ghost ws = |c: char| is_white_space(c);
    let mut from: usize = 0;
    assert(s@.subrange(0, s@.len() as int) =~= s@);
    while from < chars.len() && chars[from].is_whitespace()
        invariant
            chars@ == s@,
            ws == (|c: char| is_white_space(c)),
            0 <= from <= chars@.len(),
            drop_leading(s@, ws) == drop_leading(s@.subrange(from as int, s@.len() as int), ws),
        decreases chars@.len() - from,
    {
        assert(s@.subrange(from as int, s@.len() as int).drop_first() =~= s@.subrange(
            from + 1,
            s@.len() as int,
        ));
        from += 1;
    }
    let ghost body = s@.subrange(from as int, s@.len() as int);
    assert(drop_leading(s@, ws) == body);
    let mut to: usize = chars.len();
    while to > from && chars[to - 1].is_whitespace()
        invariant
            chars@ == s@,
            ws == (|c: char| is_white_space(c)),
            0 <= from <= to <= chars@.len(),
            drop_trailing(body, ws) == drop_trailing(s@.subrange(from as int, to as int), ws),
        decreases to,
    {
        assert(s@.subrange(from as int, to as int).drop_last() =~= s@.subrange(
            from as int,
            to - 1,
        ));
        to -= 1;
    }
    text_between(&chars, from, to)
}

/// The text without its trailing slashes.
pub fn trim_end_slashes(s: &str) -> (r: String)
    ensures
        r@ == without_trailing_slashes(s@),
{
    let chars: Vec<char> = chars_of(s);
    let ghost slash = |c: char| c == '/';
    let mut to: usize = chars.len();
    assert(s@.subrange(0, s@.len() as int) =~= s@);
    while to > 0 && chars[to - 1] == '/'
        invariant
            chars@ == s@,
            slash == (|c: char| c == '/'),
            0 <= to <= chars@.len(),
            drop_trailing(s@, slash) == drop_trailing(s@.subrange(0, to as int), slash),
        decreases to,
    {
        assert(s@.subrange(0, to as int).drop_last() =~= s@.subrange(0, to - 1));
        to -= 1;
    }
    text_between(&chars, 0, to)
}

/// Whether two texts agree when ASCII letters are compared without their case.
pub fn eq_ignore_ascii_case(a: &str, b: &str) -> (r: bool)
    ensures
        r == (a@.map_values(|c: char| ascii_lower(c)) == b@.map_values(|c: char| ascii_lower(c))),
{
    let left: Vec<char> = chars_of(a);
    let right: Vec<char> = chars_of(b);
    let ghost low_a = a@.map_values(|c: char| ascii_lower(c));
    let ghost low_b = b@.map_values(|c: char| ascii_lower(c));
    if left.len() != right.len() {
        assert(low_a.len() != low_b.len());
        return false;
    }
    let mut i: usize = 0;
    while i < left.len()
        invariant
            left@ == a@,
            right@ == b@,
            left@.len() == right@.len(),
            low_a == a@.map_values(|c: char| ascii_lower(c)),
            low_b == b@.map_values(|c: char| ascii_lower(c)),
            0 <= i <= left@.len(),
            forall|k: int| 0 <= k < i ==> ascii_lower(left@[k]) == ascii_lower(right@[k]),
        decreases left@.len() - i,
    {
        if lower_char(left[i]) != lower_char(right[i]) {
            assert(low_a[i as int] != low_b[i as int]);
            return false;
        }
        i += 1;
    }
    assert(low_a =~= low_b);
    true
}

/// The ASCII letter in lower case; every other character as it is.
pub fn lower_char(c: char) -> (r: char)
    ensures
        r == ascii_lower(c),
{
    if 'A' <= c && c <= 'Z' {
        ((c as u8) + 32) as char
    } else {
        c
    }
}

/// The character of a digit below ten.
fn digit_char(n: u64) -> (r: char)
    requires
        n < 10,
    ensures
        r == digit(n as nat),
{
    ((n as u8) + 48) as char
}

/// The decimal numeral of a number.
pub fn decimal(n: u64) -> (r: String)
    ensures
        r@ == numeral(n as nat),
    decreases n,
{
    if n < 10 {
        let mut out: String = String::new();
        out.push(digit_char(n));
        assert(out@ =~= seq![digit(n as nat)]);
        out
    } else {
        let mut out: String = decimal(n / 10);
        out.push(digit_char(n % 10));
        out
    }
}

/// The two-digit numeral of a number below a hundred.
pub fn two_digit(n: u64) -> (r: String)
    requires
        n < 100,
    ensures
        r@ == two_digits(n as nat),
{
    let mut out: String = String::new();
    out.push(digit_char(n / 10));
    out.push(digit_char(n % 10));
    assert(out@ =~= two_digits(n as nat));
    out
}

/// The first `max` characters of a text, or all of it where it is shorter.
pub fn take_chars(s: &str, max: usize) -> (r: String)
    ensures
        r@ == (if s@.len() <= max { s@ } else { s@.take(max as int) }),
{
    let chars: Vec<char> = chars_of(s);
    let to: usize = if chars.len() <= max { chars.len() } else { max };
    let out: String = text_between(&chars, 0, to);
    assert(out@ =~= s@.take(to as int));
    assert(s@.take(s@.len() as int) =~= s@);
    out
}

/// Whether a text is one of a list.
pub fn listed(list: &Vec<String>, s: &str) -> (r: bool)
    ensures
        r == texts(list@).contains(s@),
{
    let mut i: usize = 0;
    while i < list.len()
        invariant
            0 <= i <= list@.len(),
            forall|k: int| 0 <= k < i ==> (#[trigger] list@[k])@ != s@,
        decreases list@.len() - i,
    {
        if same(list[i].as_str(), s) {
            assert(texts(list@)[i as int] == s@);
            return true;
        }
        i += 1;
    }
    proof {
        if texts(list@).contains(s@) {
            let k = choose|k: int| 0 <= k < texts(list@).len() && texts(list@)[k] == s@;
            assert(list@[k]@ == s@);
        }
    }
    false
}

/// A trimmed text neither begins nor ends with white space, and trimming it again leaves it.
pub proof fn trimming_is_idempotent(s: Seq<char>)
    ensures
        trimmed(trimmed(s)) == trimmed(s),
        trimmed(s).len() > 0 ==> !is_white_space(trimmed(s).first()) && !is_white_space(
            trimmed(s).last(),
        ),
{
    let ws = |c: char| is_white_space(c);
    let body = drop_leading(s, ws);
    leading_is_gone(s, ws);
    trailing_is_gone(body, ws);
    let t = trimmed(s);
    assert(drop_leading(t, ws) == t);
    assert(drop_trailing(t, ws) == t);
}

/// Stripping the trailing slashes of a text leaves none, and doing it again changes nothing.
pub proof fn stripping_slashes_is_idempotent(s: Seq<char>)
    ensures
        without_trailing_slashes(without_trailing_slashes(s)) == without_trailing_slashes(s),
        without_trailing_slashes(s).len() > 0 ==> without_trailing_slashes(s).last() != '/',
        without_trailing_slashes(s).is_prefix_of(s),
{
    trailing_is_gone(s, |c: char| c == '/');
}

/// Trimming keeps a text that neither begins nor ends with white space.
pub proof fn bare_texts_are_kept(s: Seq<char>)
    requires
        s.len() > 0 ==> !is_white_space(s.first()) && !is_white_space(s.last()),
    ensures
        trimmed(s) == s,
{
}

proof fn leading_is_gone(s: Seq<char>, kind: spec_fn(char) -> bool)
    ensures
        drop_leading(s, kind).len() > 0 ==> !kind(drop_leading(s, kind).first()),
    decreases s.len(),
{
    if s.len() > 0 && kind(s.first()) {
        leading_is_gone(s.drop_first(), kind);
    }
}

proof fn trailing_is_gone(s: Seq<char>, kind: spec_fn(char) -> bool)
    ensures
        drop_trailing(s, kind).len() > 0 ==> !kind(drop_trailing(s, kind).last()),
        drop_trailing(s, kind).len() <= s.len(),
        drop_trailing(s, kind).is_prefix_of(s),
        drop_trailing(s, kind).len() > 0 ==> drop_trailing(s, kind).first() == s.first(),
    decreases s.len(),
{
    if s.len() > 0 && kind(s.last()) {
        trailing_is_gone(s.drop_last(), kind);
        let d = drop_trailing(s.drop_last(), kind);
        assert(d.is_prefix_of(s)) by {
            assert forall|i: int| 0 <= i < d.len() implies d[i] == s[i] by {
                assert(d[i] == s.drop_last()[i]);
            }
            assert(d =~= s.subrange(0, d.len() as int));
        }
    } else {
        assert(s =~= s.subrange(0, s.len() as int));
    }
}

/// Trimming takes white space off both ends and nothing else: what is left is a stretch of the
/// text, everything before and after it is white space, and it neither begins nor ends with any.
pub proof fn trimming_takes_white_space_alone(s: Seq<char>) -> (range: (int, int))
    ensures
        0 <= range.0 <= range.1 <= s.len(),
        trimmed(s) == s.subrange(range.0, range.1),
        forall|i: int| 0 <= i < range.0 ==> is_white_space(#[trigger] s[i]),
        forall|i: int| range.1 <= i < s.len() ==> is_white_space(#[trigger] s[i]),
        range.0 < range.1 ==> !is_white_space(s[range.0]) && !is_white_space(s[range.1 - 1]),
{
    let ws = |c: char| is_white_space(c);
    let from = leading_stretch(s, ws);
    let body = s.skip(from);
    let kept = trailing_stretch(body, ws);
    let to = from + kept;
    assert(trimmed(s) =~= s.subrange(from, to));
    assert forall|i: int| to <= i < s.len() implies is_white_space(#[trigger] s[i]) by {
        assert(ws(body[i - from]));
    }
    assert forall|i: int| 0 <= i < from implies is_white_space(#[trigger] s[i]) by {
        assert(ws(s[i]));
    }
    if from < to {
        assert(!ws(s[from]));
        assert(!ws(body[kept - 1]));
    }
    (from, to)
}

proof fn leading_stretch(s: Seq<char>, kind: spec_fn(char) -> bool) -> (n: int)
    ensures
        0 <= n <= s.len(),
        drop_leading(s, kind) == s.skip(n),
        forall|i: int| 0 <= i < n ==> kind(#[trigger] s[i]),
        n < s.len() ==> !kind(s[n]),
    decreases s.len(),
{
    if s.len() > 0 && kind(s.first()) {
        let rest = s.drop_first();
        let n = leading_stretch(rest, kind);
        assert(rest.skip(n) =~= s.skip(n + 1));
        assert forall|i: int| 0 <= i < n + 1 implies kind(#[trigger] s[i]) by {
            if i > 0 {
                assert(kind(rest[i - 1]));
            }
        }
        if n < rest.len() {
            assert(rest[n] == s[n + 1]);
        }
        n + 1
    } else {
        assert(s.skip(0) =~= s);
        0
    }
}

proof fn trailing_stretch(s: Seq<char>, kind: spec_fn(char) -> bool) -> (n: int)
    ensures
        0 <= n <= s.len(),
        drop_trailing(s, kind) == s.take(n),
        forall|i: int| n <= i < s.len() ==> kind(#[trigger] s[i]),
        n > 0 ==> !kind(s[n - 1]),
    decreases s.len(),
{
    if s.len() > 0 && kind(s.last()) {
        let rest = s.drop_last();
        let n = trailing_stretch(rest, kind);
        assert(rest.take(n) =~= s.take(n));
        assert forall|i: int| n <= i < s.len() implies kind(#[trigger] s[i]) by {
            if i < rest.len() {
                assert(kind(rest[i]));
            }
        }
        if n > 0 {
            assert(rest[n - 1] == s[n - 1]);
        }
        n
    } else {
        assert(s.take(s.len() as int) =~= s);
        s.len() as int
    }
}

/// Stripping slashes takes the slashes at the end off and nothing else.
pub proof fn stripping_takes_slashes_alone(s: Seq<char>) -> (n: int)
    ensures
        0 <= n <= s.len(),
        without_trailing_slashes(s) == s.take(n),
        forall|i: int| n <= i < s.len() ==> #[trigger] s[i] == '/',
        n > 0 ==> s[n - 1] != '/',
{
    let slash = |c: char| c == '/';
    let n = trailing_stretch(s, slash);
    assert forall|i: int| n <= i < s.len() implies #[trigger] s[i] == '/' by {
        assert(slash(s[i]));
    }
    if n > 0 {
        assert(!slash(s[n - 1]));
    }
    n
}

/// The number that decimal digits stand for.
pub open spec fn value_of(digits: Seq<char>) -> int
    decreases digits.len(),
{
    if digits.len() == 0 {
        0
    } else {
        10 * value_of(digits.drop_last()) + (digits.last() as u32 - '0' as u32)
    }
}

/// Whether a text is made of decimal digits.
pub open spec fn all_digits(s: Seq<char>) -> bool {
    forall|i: int| 0 <= i < s.len() ==> '0' <= #[trigger] s[i] <= '9'
}

/// A numeral is made of digits, stands for its number and has no needless zeros.
pub proof fn numerals_have_their_value(n: nat)
    ensures
        all_digits(numeral(n)),
        value_of(numeral(n)) == n,
        numeral(n).len() > 0,
        numeral(n).len() > 1 ==> numeral(n)[0] != '0',
    decreases n,
{
    let last = digit(n % 10);
    assert(last as u32 == 48 + n % 10);
    if n >= 10 {
        numerals_have_their_value(n / 10);
        let front = numeral(n / 10);
        assert(numeral(n).drop_last() =~= front);
        if front.len() == 1 {
            assert(value_of(front.drop_last()) == 0);
        }
        assert(numeral(n)[0] == front[0]);
    } else {
        assert(numeral(n).drop_last() =~= Seq::empty());
        assert(value_of(Seq::<char>::empty()) == 0);
    }
}

/// A two-digit numeral has two digits and stands for its number.
pub proof fn two_digits_have_their_value(n: nat)
    requires
        n < 100,
    ensures
        two_digits(n).len() == 2,
        all_digits(two_digits(n)),
        value_of(two_digits(n)) == n,
{
    let s = two_digits(n);
    assert(digit(n / 10) as u32 == 48 + n / 10);
    assert(digit(n % 10) as u32 == 48 + n % 10);
    assert(s.drop_last() =~= seq![digit(n / 10)]);
    assert(s.drop_last().drop_last() =~= Seq::empty());
    assert(value_of(Seq::<char>::empty()) == 0);
    assert(value_of(s.drop_last()) == n / 10);
}

/// A part occurs in a text exactly where the text is something, the part and something else.
pub proof fn parts_occur_between_others(part: Seq<char>, s: Seq<char>)
    ensures
        occurs_in(part, s) <==> exists|a: Seq<char>, b: Seq<char>| s == #[trigger] (a + part + b),
{
    if occurs_in(part, s) {
        let i = choose|i: int|
            #![trigger s.subrange(i, i + part.len())]
            0 <= i && i + part.len() <= s.len() && s.subrange(i, i + part.len()) == part;
        let a = s.take(i);
        let b = s.skip(i + part.len());
        assert(s =~= a + s.subrange(i, i + part.len()) + b);
        assert(s == a + part + b);
    }
    if exists|a: Seq<char>, b: Seq<char>| s == #[trigger] (a + part + b) {
        let (a, b) = choose|a: Seq<char>, b: Seq<char>| s == #[trigger] (a + part + b);
        let i = a.len() as int;
        assert(s.subrange(i, i + part.len()) =~= part);
    }
}

/// In lower case the letters from A to Z are those from a to z, and every other character is
/// itself.
pub proof fn ascii_letters_have_a_lower_case(c: char)
    ensures
        65 <= c as int <= 90 ==> ascii_lower(c) as int == c as int + 32,
        !(65 <= c as int <= 90) ==> ascii_lower(c) == c,
{
}

} // verus!

//! Looking things up in JSON documents.
//!
//! A document is handed over as its bytes; a place in it is named by a JSON pointer
//! (`/choices/0/message/content`). Every function here is a call of `serde_json`.

use vstd::prelude::*;
#[allow(unused_imports)]
use vstd::utf8;

verus! {

/// Why `serde_json` refuses a document, or `None` where it is valid JSON.
pub uninterp spec fn json_failure(document: Seq<u8>) -> Option<Seq<char>>;

/// The string at a place of a document, where there is one.
pub uninterp spec fn json_text(document: Seq<u8>, pointer: Seq<char>) -> Option<Seq<char>>;

/// Whether the value at a place of a document is null, where there is a value.
pub uninterp spec fn json_null(document: Seq<u8>, pointer: Seq<char>) -> Option<bool>;

/// The length of the array at a place of a document, where there is one.
pub uninterp spec fn json_count(document: Seq<u8>, pointer: Seq<char>) -> Option<nat>;

/// `serde_json::from_slice` into a `Value`: the text of its error, or `None` where it succeeds.
#[verifier::external_body]
pub(crate) fn parse_failure(document: &[u8]) -> (r: Option<String>)
    ensures
        crate::text::opt_text(r) == json_failure(document@),
{
    serde_json::from_slice::<serde_json::Value>(document).err().map(|e| e.to_string())
}

/// `Value::pointer` and `Value::as_str` on the parsed document: the string at that place. A
/// document that is not JSON has none.
#[verifier::external_body]
pub(crate) fn text_at(document: &[u8], pointer: &str) -> (r: Option<String>)
    ensures
        crate::text::opt_text(r) == json_text(document@, pointer@),
        json_failure(document@) is Some ==> r is None,
{
    let value: serde_json::Value = serde_json::from_slice(document).ok()?;
    value.pointer(pointer)?.as_str().map(str::to_string)
}

/// `Value::pointer` and `Value::is_null` on the parsed document: whether the value at that place
/// is null. A document that is not JSON has no value there.
#[verifier::external_body]
pub(crate) fn null_at(document: &[u8], pointer: &str) -> (r: Option<bool>)
    ensures
        r == json_null(document@, pointer@),
        json_failure(document@) is Some ==> r is None,
{
    let value: serde_json::Value = serde_json::from_slice(document).ok()?;
    value.pointer(pointer).map(|v| v.is_null())
}

/// `Value::pointer` and `Value::as_array` on the parsed document: the length of the array at
/// that place. A document that is not JSON has none.
#[verifier::external_body]
pub(crate) fn count_at(document: &[u8], pointer: &str) -> (r: Option<usize>)
    ensures
        r matches Some(n) ==> json_count(document@, pointer@) == Some(n as nat),
        r is None ==> json_count(document@, pointer@) is None,
        json_failure(document@) is Some ==> r is None,
{
    let value: serde_json::Value = serde_json::from_slice(document).ok()?;
    value.pointer(pointer)?.as_array().map(|a| a.len())
}

/// The names and texts of a list of members.
pub open spec fn member_views(members: Seq<(String, String)>) -> Seq<(Seq<char>, Seq<char>)> {
    members.map_values(|m: (String, String)| (m.0@, m.1@))
}

/// Whether a name can stand in a JSON pointer as it is.
pub open spec fn is_plain_name(name: Seq<char>) -> bool {
    forall|i: int| 0 <= i < name.len() ==> #[trigger] name[i] != '/' && name[i] != '~'
}

/// Whether a name is that of a member at or after a place of a list.
pub open spec fn is_named(members: Seq<(Seq<char>, Seq<char>)>, from: int, name: Seq<char>) -> bool {
    exists|i: int| from <= i < members.len() && (#[trigger] members[i]).0 == name
}

/// A document with members set to texts, and whether it is an object and so has members; or why
/// it is not JSON.
pub uninterp spec fn json_with_texts(
    document: Seq<char>,
    members: Seq<(Seq<char>, Seq<char>)>,
) -> Result<(Seq<char>, bool), Seq<char>>;

/// The view of a document with members set.
pub open spec fn document_view(r: Result<(String, bool), String>) -> Result<
    (Seq<char>, bool),
    Seq<char>,
> {
    match r {
        Ok(d) => Ok((d.0@, d.1)),
        Err(e) => Err(e@),
    }
}

/// `serde_json::from_str` into a `Value`, `Map::extend` with members that are strings, and
/// `serde_json::to_string_pretty`. A document that is not JSON is refused with the parser's
/// message. In an object each member then has the last text given for it and every other member
/// is kept; anything but an object is written again as it is.
#[verifier::external_body]
pub(crate) fn with_texts(document: &str, members: &Vec<(String, String)>) -> (r: Result<
    (String, bool),
    String,
>)
    ensures
        document_view(r) == json_with_texts(document@, member_views(members@)),
        r matches Err(e) ==> json_failure(utf8::encode_utf8(document@)) == Some(e@),
        r matches Ok(d) ==> json_failure(utf8::encode_utf8(document@)) is None && json_failure(
            utf8::encode_utf8(d.0@),
        ) is None,
        r matches Ok(d) ==> d.1 ==> forall|i: int|
            0 <= i < members@.len() && is_plain_name(members@[i].0@) && !is_named(
                member_views(members@),
                i + 1,
                members@[i].0@,
            ) ==> json_text(utf8::encode_utf8(d.0@), "/"@ + (#[trigger] members@[i]).0@) == Some(
                members@[i].1@,
            ),
        r matches Ok(d) ==> forall|name: Seq<char>|
            is_plain_name(name) && !is_named(member_views(members@), 0, name) ==> #[trigger]
                json_text(utf8::encode_utf8(d.0@), "/"@ + name) == json_text(
                utf8::encode_utf8(document@),
                "/"@ + name,
            ),
{
    let mut value: serde_json::Value = serde_json::from_str(document).map_err(|e| e.to_string())?;
    let is_object = value.is_object();
    if let Some(object) = value.as_object_mut() {
        object.extend(members.iter().map(|(k, v)| (k.clone(), v.clone().into())));
    }
    let text = serde_json::to_string_pretty(&value).map_err(|e| e.to_string())?;
    Ok((text, is_object))
}

} // verus!

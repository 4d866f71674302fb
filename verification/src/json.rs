//! JSON through `serde_json`: reading a document, looking into it, and
//! writing a string as a JSON string literal.
//!
//! A JSON value stays opaque; what the parser and the printer return is given
//! a name, and the contracts of the functions that call them are stated over
//! those names.

use vstd::prelude::*;

verus! {

/// A JSON value of `serde_json`.
#[verifier::external_type_specification]
#[verifier::external_body]
pub struct ExValue(serde_json::Value);

/// The error of `serde_json`'s parser and printer.
#[verifier::external_type_specification]
#[verifier::external_body]
pub struct ExJsonError(serde_json::Error);

/// The JSON value that `serde_json::from_slice` reads from `bytes`; `None`
/// where it reports an error.
pub uninterp spec fn parsed_document(bytes: Seq<u8>) -> Option<serde_json::Value>;

/// What indexing `document` with the string `key` gives: the member of that
/// name where `document` is an object that has one, else the JSON null.
pub uninterp spec fn member_of(document: serde_json::Value, key: Seq<char>) -> serde_json::Value;

/// The characters of `value` where it is a JSON string; `None` for any other
/// kind of value.
pub uninterp spec fn text_of(value: serde_json::Value) -> Option<Seq<char>>;

/// The JSON string literal that `serde_json::to_string` writes for `text`:
/// the text in double quotes, escaped as JSON requires.
pub uninterp spec fn quoted(text: Seq<char>) -> Seq<char>;

/// `serde_json::from_slice` at the type `Value`. The result is a function of
/// the bytes alone, named [`parsed_document`].
#[verifier::external_body]
pub(crate) fn parse_document(bytes: &[u8]) -> (r: Result<serde_json::Value, serde_json::Error>)
    ensures
        r is Ok <==> parsed_document(bytes@) is Some,
        r is Ok ==> r.unwrap() == parsed_document(bytes@).unwrap(),
{
    serde_json::from_slice(bytes)
}

/// `Value`'s index operator with a string key, which never fails: it gives
/// the JSON null where there is no such member. The result is named
/// [`member_of`].
#[verifier::external_body]
pub(crate) fn member<'a>(document: &'a serde_json::Value, key: &str) -> (r: &'a serde_json::Value)
    ensures
        *r == member_of(*document, key@),
{
    &document[key]
}

/// `Value::as_str`: the string slice inside a JSON string, `None` for every
/// other kind of value. The result is named [`text_of`].
pub assume_specification[ serde_json::Value::as_str ](value: &serde_json::Value) -> (r: Option<&str>)
    ensures
        r is Some <==> text_of(*value) is Some,
        r is Some ==> r.unwrap()@ == text_of(*value).unwrap(),
;

/// `serde_json::to_string` on a string slice. It cannot fail: a string
/// serializes as itself, and the text is written into a byte vector, which
/// reports no error. The result is a function of the text alone, named
/// [`quoted`].
#[verifier::external_body]
fn quote(text: &str) -> (r: Result<String, serde_json::Error>)
    ensures
        r is Ok,
        r.unwrap()@ == quoted(text@),
{
    serde_json::to_string(text)
}

/// Writes `text` as a JSON string literal.
pub fn json_string(text: &str) -> (literal: String)
    ensures
        literal@ == quoted(text@),
{
    quote(text).unwrap()
}

/// The member `key` of `document` as an owned string; `None` where the
/// document has no such member or it is no string.
pub fn text_member(document: &serde_json::Value, key: &str) -> (r: Option<String>)
    ensures
        r.deep_view() == text_of(member_of(*document, key@)),
{
    match member(document, key).as_str() {
        Some(text) => Some(text.to_owned()),
        None => None,
    }
}

} // verus!

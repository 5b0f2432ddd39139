//! Trusted boundary to `serde_json`: the JSON value type, the readers that
//! extract the plain parts of one inbound envelope, and the quoting of a
//! method name. Each extracted part is a function of the line's characters
//! alone, so each carries a name that the contracts downstream build on.

use vstd::prelude::*;

verus! {

/// `serde_json::Value` carried through the library as an opaque payload.
#[verifier::external_type_specification]
#[verifier::external_body]
pub struct ExValue(serde_json::Value);

/// The plain part of a parse outcome: whether the line is a JSON document,
/// and whether that document is an object.
pub enum LineShape {
    NotJson,
    NotObject,
    Object,
}

/// The wire form of an envelope's `id` field: absent, an integer, or
/// present in some other form (a string, say) that this client never
/// generates.
pub enum IdShape {
    Absent,
    Integer(i64),
    NonInteger,
}

/// Whether `serde_json` accepts the line as a JSON document, and whether
/// that document is an object.
pub uninterp spec fn line_shape_of(s: Seq<char>) -> LineShape;

/// The `id` field of the line's top-level object: absent, an integer, or of
/// some other form. Absent when the line is not a JSON object at all.
pub uninterp spec fn wire_id_of(s: Seq<char>) -> IdShape;

/// Whether the line's top-level object has a `method` field.
pub uninterp spec fn wire_has_method_of(s: Seq<char>) -> bool;

/// Whether the line's top-level object has a `result` field.
pub uninterp spec fn wire_has_result_of(s: Seq<char>) -> bool;

/// Whether the line's top-level object has an `error` field.
pub uninterp spec fn wire_has_error_of(s: Seq<char>) -> bool;

/// The integer `code` inside the line's `error` field, when the `error`
/// field is there and its code is an integer.
pub uninterp spec fn wire_error_code_of(s: Seq<char>) -> Option<i64>;

/// The string `message` inside the line's `error` field, when the `error`
/// field is there and its message is a string.
pub uninterp spec fn wire_error_message_of(s: Seq<char>) -> Option<Seq<char>>;

/// Relies on `serde_json::from_str::<Value>` with `Value::is_object`,
/// `Value::get` and `Value::as_i64`: reads the line's shape, the form of its
/// `id` field, and whether it has a `method` field. Each is a function of
/// the line's characters alone, stated through the names above.
#[verifier::external_body]
pub(crate) fn read_head(line: &str) -> (r: (LineShape, IdShape, bool))
    ensures
        r.0 == line_shape_of(line@),
        r.1 == wire_id_of(line@),
        r.2 == wire_has_method_of(line@),
{
    match serde_json::from_str::<serde_json::Value>(line) {
        Err(_) => (LineShape::NotJson, IdShape::Absent, false),
        Ok(v) if !v.is_object() => (LineShape::NotObject, IdShape::Absent, false),
        Ok(v) => (
            LineShape::Object,
            match v.get("id") {
                None => IdShape::Absent,
                Some(x) => x.as_i64().map_or(IdShape::NonInteger, IdShape::Integer),
            },
            v.get("method").is_some(),
        ),
    }
}

/// Relies on `serde_json::from_str::<Value>` with `Value::get`: reads the
/// line's `result` payload, if any, and whether it has an `error` field.
/// Which fields the line has is a function of its characters alone, stated
/// through the names above; the payload itself stays opaque.
#[verifier::external_body]
pub(crate) fn read_reply_fields(line: &str) -> (r: (Option<serde_json::Value>, bool))
    ensures
        r.0 is Some <==> wire_has_result_of(line@),
        r.1 == wire_has_error_of(line@),
{
    let v = serde_json::from_str::<serde_json::Value>(line).ok();
    (
        v.as_ref().and_then(|x| x.get("result")).cloned(),
        v.as_ref().and_then(|x| x.get("error")).is_some(),
    )
}

/// Relies on `serde_json::from_str::<Value>` with `Value::get`,
/// `Value::as_i64` and `Value::as_str`: reads the `code` and `message`
/// fields of the line's `error` object, each a function of the line's
/// characters alone, stated through the names above.
#[verifier::external_body]
pub(crate) fn read_error(line: &str) -> (r: (Option<i64>, Option<String>))
    ensures
        r.0 == wire_error_code_of(line@),
        match r.1 {
            Some(t) => wire_error_message_of(line@) == Some(t@),
            None => wire_error_message_of(line@) is None,
        },
{
    let v = serde_json::from_str::<serde_json::Value>(line).ok();
    let err = v.as_ref().and_then(|x| x.get("error"));
    (
        err.and_then(|e| e.get("code")).and_then(serde_json::Value::as_i64),
        err.and_then(|e| e.get("message")).and_then(serde_json::Value::as_str).map(str::to_owned),
    )
}

/// The JSON string literal that encodes the given characters: a quote, the
/// characters with JSON escaping applied, and a closing quote.
pub uninterp spec fn json_quoted(s: Seq<char>) -> Seq<char>;

/// Relies on `serde_json::to_string::<str>`: serializing a string slice
/// yields its JSON string literal and cannot fail.
#[verifier::external_body]
pub(crate) fn json_quote(s: &str) -> (r: String)
    ensures
        r@ == json_quoted(s@),
{
    serde_json::to_string(s).unwrap()
}

} // verus!

//! The JSON documents that the `json` crate reads, and the few questions the
//! decoders ask of them.
use vstd::prelude::*;

verus! {

#[verifier::external_type_specification]
#[verifier::external_body]
pub struct ExJsonValue(json::JsonValue);

/// The document that `json::parse` reads from a text, if the text is JSON.
pub uninterp spec fn json_document(s: Seq<char>) -> Option<json::JsonValue>;

/// The member of an object under a key (null where there is none).
pub uninterp spec fn json_member(v: json::JsonValue, k: Seq<char>) -> json::JsonValue;

/// The element of an array at a position (null where there is none).
pub uninterp spec fn json_element(v: json::JsonValue, i: int) -> json::JsonValue;

/// The number of elements of an array (zero for any other value).
pub uninterp spec fn json_count(v: json::JsonValue) -> nat;

/// The contents of a string value.
pub uninterp spec fn json_str(v: json::JsonValue) -> Option<Seq<char>>;

/// The value of a boolean.
pub uninterp spec fn json_bool(v: json::JsonValue) -> Option<bool>;

/// The value of a non-negative whole number that fits in 64 unsigned bits.
pub uninterp spec fn json_u64(v: json::JsonValue) -> Option<u64>;

/// Whether a value is a number.
pub uninterp spec fn json_is_number(v: json::JsonValue) -> bool;

/// The compact JSON text of a value.
pub uninterp spec fn json_dump(v: json::JsonValue) -> Seq<char>;

/// Relies on `json::parse`: the document depends on the text alone, and the
/// parse fails exactly when the text is not JSON.
#[verifier::external_body]
pub(crate) fn parse_document(s: &str) -> (r: Result<json::JsonValue, json::Error>)
    ensures
        match r {
            Ok(v) => json_document(s@) == Some(v),
            Err(_) => json_document(s@).is_none(),
        },
{
    json::parse(s)
}

/// Relies on `Index<&str> for json::JsonValue`, which never panics.
#[verifier::external_body]
pub(crate) fn member<'a>(v: &'a json::JsonValue, k: &str) -> (r: &'a json::JsonValue)
    ensures
        *r == json_member(*v, k@),
{
    &v[k]
}

/// Relies on `Index<usize> for json::JsonValue`, which never panics.
#[verifier::external_body]
pub(crate) fn element(v: &json::JsonValue, i: usize) -> (r: &json::JsonValue)
    ensures
        *r == json_element(*v, i as int),
{
    &v[i]
}

/// Relies on `json::JsonValue::members`: the elements of an array.
#[verifier::external_body]
pub(crate) fn element_count(v: &json::JsonValue) -> (r: usize)
    ensures
        r as nat == json_count(*v),
{
    v.members().len()
}

/// Relies on `json::JsonValue::as_str`.
#[verifier::external_body]
pub(crate) fn as_text(v: &json::JsonValue) -> (r: Option<String>)
    ensures
        match r {
            Some(s) => json_str(*v) == Some(s@),
            None => json_str(*v).is_none(),
        },
{
    v.as_str().map(|s| s.to_string())
}

/// Relies on `json::JsonValue::as_bool`.
#[verifier::external_body]
pub(crate) fn as_flag(v: &json::JsonValue) -> (r: Option<bool>)
    ensures
        r == json_bool(*v),
{
    v.as_bool()
}

/// Relies on `json::JsonValue::as_u64`.
#[verifier::external_body]
pub(crate) fn as_whole(v: &json::JsonValue) -> (r: Option<u64>)
    ensures
        r == json_u64(*v),
{
    v.as_u64()
}

/// Relies on `json::JsonValue::is_number`.
#[verifier::external_body]
pub(crate) fn is_number(v: &json::JsonValue) -> (r: bool)
    ensures
        r == json_is_number(*v),
{
    v.is_number()
}

/// Relies on `json::JsonValue::dump`: the compact JSON text of a value.
#[verifier::external_body]
pub(crate) fn dump(v: &json::JsonValue) -> (r: String)
    ensures
        r@ == json_dump(*v),
{
    v.dump()
}

/// The text of a string member, empty where the member is absent or no
/// string.
pub open spec fn text_or_empty(v: json::JsonValue) -> Seq<char> {
    match json_str(v) {
        Some(s) => s,
        None => seq![],
    }
}

/// The text of a string value, or the empty string.
pub fn text_of(v: &json::JsonValue) -> (r: String)
    ensures
        r@ == text_or_empty(*v),
{
    match as_text(v) {
        Some(s) => s,
        None => String::new(),
    }
}

/// The text of the string member under `k`, or the empty string.
pub fn member_text(v: &json::JsonValue, k: &str) -> (r: String)
    ensures
        r@ == text_or_empty(json_member(*v, k@)),
{
    text_of(member(v, k))
}

} // verus!

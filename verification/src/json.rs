//! JSON documents: a mathematical model, and the trusted boundary to
//! `serde_json`.
//!
//! The library never looks inside a `serde_json::Value` itself. It parses,
//! prints, reads members and builds objects through the wrappers below, and
//! its contracts speak of the document that a value holds. The wrappers, the
//! specification of `clone` and the spec functions without a body are
//! believed, not proved: each says what `serde_json` documents of the
//! function that it stands for.
use vstd::prelude::*;

verus! {

/// `serde_json::Value`, carried through as an opaque value. What it holds is
/// given by `json_view`.
#[verifier::external_type_specification]
#[verifier::external_body]
pub struct ExValue(serde_json::Value);

/// `serde_json::Error`, carried through as an opaque value.
#[verifier::external_type_specification]
#[verifier::external_body]
pub struct ExJsonError(serde_json::Error);

/// A JSON number: an integer, or a binary floating point number given by its
/// IEEE 754 bit pattern.
pub enum JsonNumber {
    Integer(int),
    Real(u64),
}

/// A JSON document as a mathematical value.
pub enum JsonView {
    Null,
    Bool(bool),
    Number(JsonNumber),
    Text(Seq<char>),
    Array(Seq<JsonView>),
    Object(Map<Seq<char>, JsonView>),
}

/// The member of `doc` under `key`: present only in an object that has the key.
pub open spec fn member_of(doc: JsonView, key: Seq<char>) -> Option<JsonView> {
    match doc {
        JsonView::Object(members) => if members.contains_key(key) {
            Some(members[key])
        } else {
            None
        },
        _ => None,
    }
}

/// The members of an object; anything else has none.
pub open spec fn members_of(doc: JsonView) -> Map<Seq<char>, JsonView> {
    match doc {
        JsonView::Object(members) => members,
        _ => Map::empty(),
    }
}

/// The document as a signed 64-bit integer: present only for an integer
/// number in that range.
pub open spec fn signed_of(doc: JsonView) -> Option<i64> {
    match doc {
        JsonView::Number(JsonNumber::Integer(n)) => if i64::MIN <= n <= i64::MAX {
            Some(n as i64)
        } else {
            None
        },
        _ => None,
    }
}

/// The document that a `serde_json::Value` holds.
pub uninterp spec fn json_view(value: serde_json::Value) -> JsonView;

/// What `serde_json::from_str` makes of a text: the document, or `None`
/// where it reports an error.
pub uninterp spec fn parsed_text(text: Seq<char>) -> Option<JsonView>;

/// What `serde_json::from_slice` makes of bytes: the document, or `None`
/// where it reports an error.
pub uninterp spec fn parsed_bytes(bytes: Seq<u8>) -> Option<JsonView>;

/// What `serde_json::to_string_pretty` writes for a document: the text, or
/// `None` where it reports an error.
pub uninterp spec fn pretty_text(doc: JsonView) -> Option<Seq<char>>;

/// Calls `serde_json::from_str` for a `Value`. Success and the document read
/// are those that `parsed_text` names.
#[verifier::external_body]
pub(crate) fn parse_text(text: &str) -> (r: Result<serde_json::Value, serde_json::Error>)
    ensures
        r is Ok <==> parsed_text(text@) is Some,
        r matches Ok(v) ==> Some(json_view(v)) == parsed_text(text@),
{
    serde_json::from_str(text)
}

/// Calls `serde_json::from_slice` for a `Value`. Success and the document
/// read are those that `parsed_bytes` names.
#[verifier::external_body]
pub(crate) fn parse_bytes(bytes: &[u8]) -> (r: Result<serde_json::Value, serde_json::Error>)
    ensures
        r is Ok <==> parsed_bytes(bytes@) is Some,
        r matches Ok(v) ==> Some(json_view(v)) == parsed_bytes(bytes@),
{
    serde_json::from_slice(bytes)
}

/// Calls `serde_json::to_string_pretty` on a `Value`. Success and the text
/// written are those that `pretty_text` names.
#[verifier::external_body]
pub(crate) fn to_pretty_text(value: &serde_json::Value) -> (r: Result<String, serde_json::Error>)
    ensures
        r is Ok <==> pretty_text(json_view(*value)) is Some,
        r matches Ok(text) ==> Some(text@) == pretty_text(json_view(*value)),
{
    serde_json::to_string_pretty(value)
}

/// Calls `Value::get` with a string key. As documented, the result is the
/// member under that key where the value is an object that has it, else
/// `None`.
#[verifier::external_body]
pub(crate) fn json_member<'a>(value: &'a serde_json::Value, key: &str) -> (r: Option<
    &'a serde_json::Value,
>)
    ensures
        r is Some <==> member_of(json_view(*value), key@) is Some,
        r matches Some(m) ==> Some(json_view(*m)) == member_of(json_view(*value), key@),
{
    value.get(key)
}

/// Calls `Value::as_i64`. As documented, an integer that fits `i64` is
/// returned, anything else gives `None`.
#[verifier::external_body]
pub(crate) fn json_as_i64(value: &serde_json::Value) -> (r: Option<i64>)
    ensures
        r == signed_of(json_view(*value)),
{
    value.as_i64()
}

/// Makes `Value::Null`.
#[verifier::external_body]
pub(crate) fn json_null() -> (r: serde_json::Value)
    ensures
        json_view(r) == JsonView::Null,
{
    serde_json::Value::Null
}

/// Calls `Value::from` on an `i64`, which makes the integer number `n`.
#[verifier::external_body]
pub(crate) fn json_integer(n: i64) -> (r: serde_json::Value)
    ensures
        json_view(r) == JsonView::Number(JsonNumber::Integer(n as int)),
{
    serde_json::Value::from(n)
}

/// Assigns through `Value`'s `IndexMut` with a string key: `object[key] =
/// member`. As documented, the value must be an object, or `null`, which is
/// treated like an empty object; anything else panics. Afterwards the value
/// is an object that holds `member` under `key`, and under every other key
/// what it held before.
#[verifier::external_body]
pub(crate) fn json_set_member(object: &mut serde_json::Value, key: &str, member: serde_json::Value)
    requires
        json_view(*old(object)) is Object || json_view(*old(object)) is Null,
    ensures
        json_view(*final(object)) == JsonView::Object(
            members_of(json_view(*old(object))).insert(key@, json_view(member)),
        ),
{
    object[key] = member;
}

/// `Value::clone` copies the document.
pub assume_specification[ <serde_json::Value as Clone>::clone ](
    value: &serde_json::Value,
) -> (r: serde_json::Value)
    ensures
        json_view(r) == json_view(*value),
;

} // verus!

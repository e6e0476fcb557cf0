//! The crate's trusted boundary: declarations of the outside types the
//! server handles opaquely (parsed JSON requests, the clock), and one small
//! wrapper per outside function it calls. Nothing here is verified; every
//! wrapper's body is one call plus plain conversion.

use vstd::prelude::*;

verus! {

#[verifier::external_type_specification]
#[verifier::external_body]
pub struct ExValue(serde_json::Value);

#[verifier::external_type_specification]
#[verifier::external_body]
pub struct ExJsonError(serde_json::Error);

/// Whether `serde_json` accepts this text as one JSON document: a function
/// of the characters alone.
pub uninterp spec fn json_parses(s: Seq<char>) -> bool;

/// Relies on `serde_json::from_str::<Value>`: parses one JSON text, or
/// reports why it cannot. Acceptance depends on the text alone; the
/// parser never panics (malformed input and over-deep nesting return
/// `Err`).
#[verifier::external_body]
pub(crate) fn parse_json(s: &str) -> (r: Result<serde_json::Value, serde_json::Error>)
    ensures
        r is Ok <==> json_parses(s@),
{
    serde_json::from_str(s)
}

/// Relies on `serde_json::Error`'s `Display` impl for the parse error's
/// description.
#[verifier::external_body]
pub(crate) fn json_error_text(e: &serde_json::Error) -> String {
    format!("{e}")
}

/// Relies on `serde_json::Value::get` with a string index: the value under
/// that key when this is an object that has it.
#[verifier::external_body]
pub(crate) fn value_get<'a>(v: &'a serde_json::Value, key: &str) -> Option<&'a serde_json::Value> {
    v.get(key)
}

/// Relies on `serde_json::Value::as_str`: the text when the value is a
/// JSON string.
#[verifier::external_body]
pub(crate) fn value_as_str(v: &serde_json::Value) -> Option<String> {
    v.as_str().map(|s| s.to_string())
}

/// Relies on `serde_json::Value::as_u64`: the number when the value is an
/// unsigned integer.
#[verifier::external_body]
pub(crate) fn value_as_u64(v: &serde_json::Value) -> Option<u64> {
    v.as_u64()
}

/// Relies on `serde_json::Value::as_bool`: the value when it is a JSON
/// boolean.
#[verifier::external_body]
pub(crate) fn value_as_bool(v: &serde_json::Value) -> Option<bool> {
    v.as_bool()
}

/// Relies on `serde_json::Value::as_array`: the elements when the value is
/// a JSON array.
#[verifier::external_body]
pub(crate) fn value_as_array(v: &serde_json::Value) -> Option<Vec<serde_json::Value>> {
    v.as_array().cloned()
}

/// Relies on `serde_json::to_string`: the compact JSON text of the value.
/// It cannot fail for `Value`, whose map keys are always strings.
#[verifier::external_body]
pub(crate) fn value_to_text(v: &serde_json::Value) -> String {
    match serde_json::to_string(v) {
        Ok(s) => s,
        Err(_) => String::new(),
    }
}

/// Relies on `serde_json::to_string_pretty`: the indented JSON text of the
/// value. It cannot fail for `Value`, whose map keys are always strings.
#[verifier::external_body]
pub(crate) fn value_to_pretty_text(v: &serde_json::Value) -> String {
    match serde_json::to_string_pretty(v) {
        Ok(s) => s,
        Err(_) => String::new(),
    }
}

#[verifier::external_type_specification]
#[verifier::external_body]
pub struct ExTimeDelta(chrono::TimeDelta);

/// An instant on the UTC clock, opaque to the verifier; `chrono` cannot be
/// declared here directly because its timestamp type is generic over an
/// outside trait.
#[verifier::external_body]
pub struct Timestamp {
    inner: chrono::DateTime<chrono::Utc>,
}

/// Relies on `chrono::Utc::now` for the current instant. Nothing can be
/// promised of it; it aborts only on a system clock before the Unix epoch.
#[verifier::external_body]
pub(crate) fn now_utc() -> Timestamp {
    Timestamp { inner: chrono::Utc::now() }
}

/// Relies on `chrono::TimeDelta::days`, which accepts one day without
/// overflow.
#[verifier::external_body]
pub(crate) fn one_day() -> chrono::TimeDelta {
    chrono::TimeDelta::days(1)
}

/// Relies on `chrono::DateTime::checked_sub_signed`: the instant the given
/// span earlier, when it is representable.
#[verifier::external_body]
pub(crate) fn datetime_minus(t: &Timestamp, d: chrono::TimeDelta) -> Option<Timestamp> {
    t.inner.checked_sub_signed(d).map(|inner| Timestamp { inner })
}

/// Relies on `chrono::DateTime::to_rfc3339` for the instant's RFC 3339
/// text.
#[verifier::external_body]
pub(crate) fn rfc3339_text(t: &Timestamp) -> String {
    t.inner.to_rfc3339()
}

} // verus!

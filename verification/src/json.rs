//! The trusted boundary to the JSON decoder.
//!
//! A response body is parsed once, by [`read_envelope`], which also
//! extracts the mandatory response envelope — the success flag and the
//! error and warning code strings — as plain values tied to named
//! results, so that the decoders' contracts can speak of the body text
//! itself.  The method-specific payload stays an opaque JSON value;
//! every decision taken on it is made by verified code through the
//! accessor wrappers below.

use vstd::prelude::*;

verus! {

#[verifier::external_type_specification]
#[verifier::external_body]
pub struct ExValue(serde_json::Value);

/// Whether the JSON decoder accepts the text.  Acceptance is a function
/// of the text alone.
pub uninterp spec fn spec_body_parses(s: Seq<char>) -> bool;

/// The boolean the body's top-level `ok` field holds; `None` when the
/// body holds no boolean there.  A function of the body text alone.
pub uninterp spec fn spec_ok_flag(s: Seq<char>) -> Option<bool>;

/// The text the body's top-level `error` field holds; `None` when the
/// body holds no string there.  A function of the body text alone.
pub uninterp spec fn spec_error_code(s: Seq<char>) -> Option<Seq<char>>;

/// The text the body's top-level `warning` field holds; `None` when the
/// body holds no string there.  A function of the body text alone.
pub uninterp spec fn spec_warning(s: Seq<char>) -> Option<Seq<char>>;

/// The view of an optional owned text.
pub open spec fn spec_opt_string_view(o: Option<String>) -> Option<Seq<char>> {
    match o {
        Some(s) => Some(s@),
        None => None,
    }
}

/// Relies on `serde_json::from_str` and `serde_json::Value`'s `get`,
/// `as_bool` and `as_str`: parses a response body and copies out its
/// envelope — the `ok` flag and the `error` and `warning` strings —
/// beside the parsed value.  `None` exactly when the body is not valid
/// JSON; each envelope component is the named function of the body
/// text.
#[verifier::external_body]
pub fn read_envelope(body: &str) -> (r: Option<
    (serde_json::Value, Option<bool>, Option<String>, Option<String>),
>)
    ensures
        r is Some <==> spec_body_parses(body@),
        r is Some ==> (r->0).1 == spec_ok_flag(body@),
        r is Some ==> spec_opt_string_view((r->0).2) == spec_error_code(body@),
        r is Some ==> spec_opt_string_view((r->0).3) == spec_warning(body@),
{
    let v: serde_json::Value = match serde_json::from_str(body) {
        Ok(v) => v,
        Err(_) => return None,
    };
    let ok = v.get("ok").and_then(serde_json::Value::as_bool);
    let error = v.get("error").and_then(serde_json::Value::as_str).map(str::to_owned);
    let warning = v.get("warning").and_then(serde_json::Value::as_str).map(str::to_owned);
    Some((v, ok, error, warning))
}

/// Relies on `serde_json::Value::get`: looks a key up in a JSON object,
/// `None` when the key is absent or the value is not an object.
#[verifier::external_body]
pub fn json_get<'a>(v: &'a serde_json::Value, key: &str) -> (r: Option<&'a serde_json::Value>) {
    v.get(key)
}

/// Relies on `serde_json::Value::as_bool`: the boolean a JSON value
/// holds, `None` when it is not a boolean.
#[verifier::external_body]
pub fn json_as_bool(v: &serde_json::Value) -> (r: Option<bool>) {
    v.as_bool()
}

/// Relies on `serde_json::Value::as_str`: the text a JSON string value
/// holds, copied out; `None` when the value is not a string.
#[verifier::external_body]
pub fn json_as_string(v: &serde_json::Value) -> (r: Option<String>) {
    v.as_str().map(|s| s.to_owned())
}

/// Relies on `serde_json::Value::as_u64`: the unsigned integer a JSON
/// number holds, `None` when it is not representable as one.
#[verifier::external_body]
pub fn json_as_u64(v: &serde_json::Value) -> (r: Option<u64>) {
    v.as_u64()
}

/// Relies on `serde_json::Value::as_array`: the element vector of a JSON
/// array, `None` when the value is not an array.
#[verifier::external_body]
pub fn json_as_array<'a>(v: &'a serde_json::Value) -> (r: Option<&'a Vec<serde_json::Value>>) {
    v.as_array()
}

/// Relies on `serde_json::Value::is_number`: whether the value is a JSON
/// number.
#[verifier::external_body]
pub fn json_is_number(v: &serde_json::Value) -> (r: bool) {
    v.is_number()
}

/// Relies on `serde_json::Value`'s `Display` implementation: the JSON
/// text of the value.  Used to keep a number's literal text without
/// rounding it through a machine float.
#[verifier::external_body]
pub fn json_to_text(v: &serde_json::Value) -> (r: String) {
    v.to_string()
}

/// Relies on `serde_json::Value::clone`.
#[verifier::external_body]
pub fn json_clone(v: &serde_json::Value) -> (r: serde_json::Value) {
    v.clone()
}

} // verus!

//! The operations carry their property payloads as semi-structured JSON
//! values of the serde_json crate. The value itself is opaque here; only
//! its serialized text matters to the requests, and that text is given a
//! name and produced by one trusted call.

use vstd::prelude::*;

verus! {

#[verifier::external_type_specification]
#[verifier::external_body]
pub struct ExValue(serde_json::Value);

/// The JSON text that serializing `v` produces.
pub uninterp spec fn json_text_of(v: serde_json::Value) -> Seq<char>;

/// A payload that could not be serialized: the sole construction-time
/// failure, kept apart from the request-time error taxonomy.
#[derive(Debug, PartialEq, Eq)]
pub struct PayloadError;

/// Relies on serde_json::to_string. Serializing a `Value` always
/// succeeds: the two ways serialization can fail are a map with
/// non-string keys and a failing `Serialize` impl, and a `Value` has
/// neither (object keys are `String`, and its `Serialize` impl only
/// passes the serializer's own errors through, which never arise when
/// writing into a byte vector). The text produced is a function of the
/// value alone: the default object map keeps its keys sorted.
#[verifier::external_body]
pub(crate) fn json_value_to_text(v: &serde_json::Value) -> (r: Option<String>)
    ensures
        r is Some,
        r matches Some(s) ==> s@ == json_text_of(*v),
{
    match serde_json::to_string(v) {
        Ok(s) => Some(s),
        Err(_) => None,
    }
}

} // verus!

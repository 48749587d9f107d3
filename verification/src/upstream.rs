//! The trusted view of upstream reply decoding, done by serde_json.
//!
//! The gateway never inspects JSON text itself: what a reply body means is
//! whatever serde_json says of it, named here so contracts can speak of it.

use vstd::prelude::*;

verus! {

/// The `result` string member of `body` when `body` is a JSON object
/// holding one, exactly as serde_json extracts it; `None` when the body
/// does not parse, is not an object with a `result` member, or holds a
/// non-string one. A function of the body text alone.
pub uninterp spec fn balance_result_of(body: Seq<char>) -> Option<Seq<char>>;

/// Whether `body` parses as a JSON value under serde_json.
pub uninterp spec fn is_json_value(body: Seq<char>) -> bool;

/// Relies on serde_json::from_str, Value::get and Value::as_str: together
/// they deserialize the one shape the balance call expects, a JSON object
/// with a string `result` member, and their outcome depends on the body
/// text alone.
#[verifier::external_body]
pub(crate) fn decode_result_field(body: &str) -> (r: Option<String>)
    ensures
        match r {
            Option::Some(s) => balance_result_of(body@) == Option::Some(s@),
            Option::None => balance_result_of(body@) is None,
        },
{
    match serde_json::from_str::<serde_json::Value>(body) {
        Ok(v) => match v.get("result") {
            Some(res) => res.as_str().map(|s| s.to_string()),
            None => None,
        },
        Err(_) => None,
    }
}

/// Relies on serde_json::from_str: whether `body` is valid JSON, an
/// outcome that depends on the body text alone.
#[verifier::external_body]
pub(crate) fn parses_as_json(body: &str) -> (r: bool)
    ensures
        r == is_json_value(body@),
{
    serde_json::from_str::<serde_json::Value>(body).is_ok()
}

} // verus!

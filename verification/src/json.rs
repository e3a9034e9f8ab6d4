//! Trusted wrappers around serde_json. Each one reads one textual field out
//! of a JSON frame, and what it returns is a function of the frame text
//! alone, so the result carries a name that the decoders' contracts can
//! speak of exactly: two parses of one frame are equal by contract.

use vstd::prelude::*;

verus! {

/// The string field under the given key of a top-level JSON object, if the
/// text parses as such an object and the field is a string.
pub uninterp spec fn json_text_field(raw: Seq<char>, key: Seq<char>) -> Option<Seq<char>>;

/// The string element at the given index of a top-level JSON array, if the
/// text parses as such an array and the element is a string.
pub uninterp spec fn json_text_at(raw: Seq<char>, index: int) -> Option<Seq<char>>;

/// The first element, a string, of the array under the given key of the
/// object at index 1 of a top-level JSON array — the shape a Kraken ticker
/// frame keeps its quotes in — if the text parses that far.
pub uninterp spec fn json_quote_text(raw: Seq<char>, key: Seq<char>) -> Option<Seq<char>>;

/// Relies on serde_json::from_str, Value::get and Value::as_str: the string
/// field under a key of a top-level JSON object. The result depends on the
/// frame text and the key alone.
#[verifier::external_body]
pub(crate) fn json_get_text(raw: &str, key: &str) -> (r: Option<String>)
    ensures
        r.is_some() == json_text_field(raw@, key@).is_some(),
        r.is_some() ==> r.unwrap()@ == json_text_field(raw@, key@).unwrap(),
{
    let v: serde_json::Value = serde_json::from_str(raw).ok()?;
    let s = v.get(key)?.as_str()?;
    Some(s.to_owned())
}

/// Relies on serde_json::from_str, Value::get and Value::as_str: the string
/// element at an index of a top-level JSON array. The result depends on the
/// frame text and the index alone.
#[verifier::external_body]
pub(crate) fn json_get_text_at(raw: &str, index: usize) -> (r: Option<String>)
    ensures
        r.is_some() == json_text_at(raw@, index as int).is_some(),
        r.is_some() ==> r.unwrap()@ == json_text_at(raw@, index as int).unwrap(),
{
    let v: serde_json::Value = serde_json::from_str(raw).ok()?;
    let s = v.get(index)?.as_str()?;
    Some(s.to_owned())
}

/// Relies on serde_json::from_str, Value::get and Value::as_str: the first
/// element of the array under a key of the object at index 1 of a top-level
/// JSON array. The result depends on the frame text and the key alone.
#[verifier::external_body]
pub(crate) fn json_get_quote_text(raw: &str, key: &str) -> (r: Option<String>)
    ensures
        r.is_some() == json_quote_text(raw@, key@).is_some(),
        r.is_some() ==> r.unwrap()@ == json_quote_text(raw@, key@).unwrap(),
{
    let v: serde_json::Value = serde_json::from_str(raw).ok()?;
    let s = v.get(1)?.get(key)?.get(0)?.as_str()?;
    Some(s.to_owned())
}

} // verus!

//! JSON documents, read by `serde_json`.
//!
//! A document is a `serde_json::Value`: a tree in which an object holds members under keys and
//! an array holds items in order. Verus sees nothing inside one. What the library reads from
//! a document it reads through the functions below, and each has a name in specifications for
//! what it hands out. Nothing here is proved: the contracts say only that a call returns what
//! the name stands for, which holds because each of these functions computes its result from
//! its arguments alone.

use vstd::prelude::*;

verus! {

/// Makes `serde_json::Value` known to Verus as a type without visible contents.
#[verifier::external_type_specification]
#[verifier::external_body]
pub struct ExValue(serde_json::Value);

/// The document that `serde_json::from_str` reads from a text; `None` where it reports an
/// error.
pub uninterp spec fn json_document(text: Seq<char>) -> Option<serde_json::Value>;

/// The member that `serde_json::Value::get` finds under a string key; `None` where the
/// value is no object or has no such key.
pub uninterp spec fn json_member(value: serde_json::Value, key: Seq<char>) -> Option<
    serde_json::Value,
>;

/// The boolean that `serde_json::Value::as_bool` returns; `None` for a value of another kind.
pub uninterp spec fn json_bool(value: serde_json::Value) -> Option<bool>;

/// The text that `serde_json::Value::as_str` returns; `None` for a value of another kind.
pub uninterp spec fn json_text(value: serde_json::Value) -> Option<Seq<char>>;

/// The items that `serde_json::Value::as_array` returns, in order; `None` for a value of
/// another kind.
pub uninterp spec fn json_items(value: serde_json::Value) -> Option<Seq<serde_json::Value>>;

/// Calls `serde_json::from_str` for a `serde_json::Value` and drops the error's detail. The
/// contract claims that the outcome depends on the text alone.
#[verifier::external_body]
pub(crate) fn parse_document(text: &str) -> (document: Option<serde_json::Value>)
    ensures
        document == json_document(text@),
{
    serde_json::from_str::<serde_json::Value>(text).ok()
}

/// Calls `serde_json::Value::get` with a string key. The contract claims that the member
/// found depends on the value and the key alone.
#[verifier::external_body]
pub(crate) fn member<'a>(value: &'a serde_json::Value, key: &str) -> (found: Option<
    &'a serde_json::Value,
>)
    ensures
        match found {
            Some(m) => json_member(*value, key@) == Some(*m),
            None => json_member(*value, key@) is None,
        },
{
    value.get(key)
}

/// Calls `serde_json::Value::as_bool`. The contract claims that the result depends on the
/// value alone.
#[verifier::external_body]
pub(crate) fn as_bool(value: &serde_json::Value) -> (flag: Option<bool>)
    ensures
        flag == json_bool(*value),
{
    value.as_bool()
}

/// Calls `serde_json::Value::as_str`. The contract claims that the result depends on the
/// value alone.
#[verifier::external_body]
pub(crate) fn as_text<'a>(value: &'a serde_json::Value) -> (text: Option<&'a str>)
    ensures
        match text {
            Some(s) => json_text(*value) == Some(s@),
            None => json_text(*value) is None,
        },
{
    value.as_str()
}

/// Calls `serde_json::Value::as_array`. The contract claims that the items handed out, and
/// their order, depend on the value alone.
#[verifier::external_body]
pub(crate) fn as_items<'a>(value: &'a serde_json::Value) -> (items: Option<&'a Vec<serde_json::Value>>)
    ensures
        match items {
            Some(list) => json_items(*value) == Some(list@),
            None => json_items(*value) is None,
        },
{
    value.as_array()
}

} // verus!

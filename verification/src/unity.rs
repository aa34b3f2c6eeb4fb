//! Components that a scene file carries along.
//!
//! A scene node may hold extra text: a JSON object whose member `bevity`
//! lists the components that the node is to get.

use serde_json::Value;
use vstd::prelude::*;

verus! {

/// A JSON document, as `serde_json` holds it. Its inside is not looked
/// at here.
#[verifier::external_type_specification]
#[verifier::external_body]
pub struct ExValue(serde_json::Value);

/// The error of `serde_json`. Its inside is not looked at here.
#[verifier::external_type_specification]
#[verifier::external_body]
pub struct ExJsonError(serde_json::Error);

/// The document that `serde_json::from_str` reads from `text`, or `None`
/// where it reports an error.
pub uninterp spec fn json_parse(text: Seq<char>) -> Option<Value>;

/// The member `key` of the object `value`, as `serde_json::Value::get`
/// finds it; `None` where `value` is no object or has no such member.
pub uninterp spec fn json_member(value: Value, key: Seq<char>) -> Option<Value>;

/// The elements of the array `value`, as `serde_json::Value::as_array`
/// gives them; `None` where `value` is no array.
pub uninterp spec fn json_items(value: Value) -> Option<Seq<Value>>;

/// Calls `serde_json::from_str` to read one document from `text`.
///
/// Trusted: the outcome depends on the text alone, and is the document
/// named by [`json_parse`].
#[verifier::external_body]
fn parse(text: &str) -> (outcome: Result<Value, serde_json::Error>)
    ensures
        match outcome {
            Ok(document) => json_parse(text@) == Some(document),
            Err(_) => json_parse(text@).is_none(),
        },
{
    serde_json::from_str::<Value>(text)
}

/// Calls `serde_json::Value::get` with a string key, and copies what it
/// finds.
///
/// Trusted: the outcome is the member named by [`json_member`].
#[verifier::external_body]
fn member(value: &Value, key: &str) -> (found: Option<Value>)
    ensures
        found == json_member(*value, key@),
{
    value.get(key).cloned()
}

/// Calls `serde_json::Value::as_array`, and copies what it finds.
///
/// Trusted: the outcome holds the elements named by [`json_items`], in
/// their order.
#[verifier::external_body]
fn items(value: &Value) -> (found: Option<Vec<Value>>)
    ensures
        match found {
            Some(elements) => json_items(*value) == Some(elements@),
            None => json_items(*value).is_none(),
        },
{
    value.as_array().cloned()
}

/// Why the extra text of a node yields no components.
#[derive(Clone, Copy, Debug, PartialEq, Eq, Structural)]
pub enum ExtrasError {
    /// The text is not JSON.
    Malformed,
    /// The text is JSON, but no object with an array `bevity` in it.
    NoComponents,
}

/// The components that a document lists: the elements of the array that
/// is its member `bevity`.
pub open spec fn components_in(document: Value) -> Option<Seq<Value>> {
    match json_member(document, "bevity"@) {
        Some(list) => json_items(list),
        None => None,
    }
}

/// The components that `document` lists, in their order; `None` where it
/// is no object, has no member `bevity`, or that member is no array.
pub fn components_of(document: &Value) -> (components: Option<Vec<Value>>)
    ensures
        match components {
            Some(list) => components_in(*document) == Some(list@),
            None => components_in(*document).is_none(),
        },
{
    match member(document, "bevity") {
        Some(list) => items(&list),
        None => None,
    }
}

/// Reads the extra text of a scene node and returns the components that
/// the node is to get, in their order.
///
/// Text that is not JSON is `Malformed`. JSON that is not an object, or
/// has no member `bevity`, or whose member `bevity` is no array, has
/// `NoComponents`.
pub fn apply_bevity_components(extras: &str) -> (components: Result<Vec<Value>, ExtrasError>)
    ensures
        match components {
            Ok(list) => json_parse(extras@).is_some() && components_in(
                json_parse(extras@).unwrap(),
            ) == Some(list@),
            Err(ExtrasError::Malformed) => json_parse(extras@).is_none(),
            Err(ExtrasError::NoComponents) => json_parse(extras@).is_some() && components_in(
                json_parse(extras@).unwrap(),
            ).is_none(),
        },
{
    match parse(extras) {
        Ok(document) => match components_of(&document) {
            Some(list) => Ok(list),
            None => Err(ExtrasError::NoComponents),
        },
        Err(_) => Err(ExtrasError::Malformed),
    }
}

} // verus!

//! What the library takes from serde_json: its value type, carried through
//! unread, and the parse of a tool call's argument text.

use vstd::prelude::*;
use std::collections::HashMap;

verus! {

#[verifier::external_type_specification]
#[verifier::external_body]
pub struct ExValue(serde_json::Value);

/// Relies on serde_json's `Clone` for `Value`, which the types that carry a
/// schema or an argument use; nothing is claimed of the copy.
pub assume_specification[ <serde_json::Value as Clone>::clone ](v: &serde_json::Value) -> serde_json::Value;

/// Whether serde_json reads `text` as one JSON object (a map from strings to
/// values); this depends on the text alone.
pub uninterp spec fn is_json_object_text(text: Seq<char>) -> bool;

/// The map that serde_json reads from `text` where it holds one JSON object;
/// this depends on the text alone.
pub uninterp spec fn json_object_of(text: Seq<char>) -> Map<String, serde_json::Value>;

/// Relies on serde_json::from_str into a map from strings to values: it
/// succeeds exactly on the texts that hold one JSON object.
#[verifier::external_body]
fn parse_object(text: &str) -> (r: Option<HashMap<String, serde_json::Value>>)
    ensures
        r is Some <==> is_json_object_text(text@),
        r is Some ==> r.unwrap()@ == json_object_of(text@),
{
    serde_json::from_str::<HashMap<String, serde_json::Value>>(text).ok()
}

/// The arguments of a tool call read from their JSON text; an empty map where
/// the text is not one JSON object.
pub fn tool_arguments(text: &str) -> (r: HashMap<String, serde_json::Value>)
    ensures
        is_json_object_text(text@) ==> r@ == json_object_of(text@),
        !is_json_object_text(text@) ==> r@ == Map::<String, serde_json::Value>::empty(),
{
    match parse_object(text) {
        Some(m) => m,
        None => HashMap::new(),
    }
}

} // verus!

//! Governance objects by kind.

use vstd::prelude::*;
use crate::text::same_text;

verus! {

/// The unsigned number under a key of a text read as JSON: none where the
/// text is no JSON, holds no object, or has no unsigned number under the key.
pub uninterp spec fn json_number_field(data: Seq<char>, key: Seq<char>) -> Option<u64>;

/// Reads the unsigned number under a key of a JSON text.
///
/// Trusted: calls `serde_json::from_str` for a `serde_json::Value`, then
/// `Value::get` with the key and `Value::as_u64` on what is found. The
/// result depends on the text and the key alone; the contract names it.
#[verifier::external_body]
fn number_field(data: &str, key: &str) -> (r: Option<u64>)
    ensures
        r == json_number_field(data@, key@),
{
    match serde_json::from_str::<serde_json::Value>(data) {
        Ok(value) => match value.get(key) {
            Some(found) => found.as_u64(),
            None => None,
        },
        Err(_) => None,
    }
}

/// Key under which the data of a governance object holds its type.
pub open spec fn type_key() -> Seq<char> {
    "type"@
}

/// Whether an object whose data has the type `data_type` is of the kind
/// asked for: proposals have type one, triggers type two, and any other
/// kind asked for selects everything.
pub open spec fn kind_selects(kind: Seq<char>, data_type: Option<u64>) -> bool {
    if kind == "proposal"@ {
        data_type == Some(1u64)
    } else if kind == "trigger"@ {
        data_type == Some(2u64)
    } else {
        true
    }
}

/// Tests a data type against the kind asked for.
pub fn type_selected(kind: &str, data_type: Option<u64>) -> (r: bool)
    ensures
        r == kind_selects(kind@, data_type),
{
    if same_text(kind, "proposal") {
        match data_type {
            Some(t) => t == 1,
            None => false,
        }
    } else if same_text(kind, "trigger") {
        match data_type {
            Some(t) => t == 2,
            None => false,
        }
    } else {
        true
    }
}

/// Tests an object's data against the kind asked for.
pub fn object_selected(kind: &str, data_string: &str) -> (r: bool)
    ensures
        r == kind_selects(kind@, json_number_field(data_string@, type_key())),
{
    type_selected(kind, number_field(data_string, "type"))
}

} // verus!

//! Values in the interchange format, and their text.

use serde_json::Value;
use vstd::prelude::*;

verus! {

/// `serde_json::Value`, of which nothing is known but its text.
#[verifier::external_type_specification]
#[verifier::external_body]
pub struct ExValue(Value);

/// The compact JSON text of a value.
pub uninterp spec fn json_text(value: Value) -> Seq<char>;

/// `Value::to_string`, which writes the value as compact JSON: the text is
/// the same for the same value.
#[verifier::external_body]
pub(crate) fn render(value: &Value) -> (text: String)
    ensures
        text@ == json_text(*value),
{
    value.to_string()
}

} // verus!

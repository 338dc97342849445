//! The opaque JSON payload values that descriptors carry out-of-band, and the
//! one textual reading of them that the token encoder needs.

use vstd::prelude::*;

verus! {

#[verifier::external_type_specification]
#[verifier::external_body]
pub struct ExValue(serde_json::Value);

/// The compact JSON text of a value.  What it is on a given value is stated
/// nowhere; it is a function of the value alone.
pub uninterp spec fn json_text_of(v: serde_json::Value) -> Seq<char>;

/// Relies on `serde_json::Value`'s `Display` impl: `to_string` serializes the
/// value as compact JSON, a function of the value alone.
#[verifier::external_body]
pub(crate) fn json_value_text(v: &serde_json::Value) -> (r: String)
    ensures
        r@ == json_text_of(*v),
{
    v.to_string()
}

} // verus!

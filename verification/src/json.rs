//! The two types of `serde_json` that the codec hands through: the raw
//! structured value, and the error with which a shape turns a raw value down.
//! Both are opaque here: nothing in this crate looks inside either.

use vstd::prelude::*;

verus! {

/// `serde_json::Value`, the raw structured value.
#[verifier::external_type_specification]
#[verifier::external_body]
pub struct ExValue(serde_json::Value);

/// `serde_json::Error`, what a failed attempt to read a raw value returns.
#[verifier::external_type_specification]
#[verifier::external_body]
pub struct ExError(serde_json::Error);

/// `text` is what `failure` prints as: the string that `to_string` gives for it.
pub open spec fn prints_as(failure: serde_json::Error, text: Seq<char>) -> bool {
    exists|s: String|
        #[trigger] vstd::string::to_string_from_display_ensures::<serde_json::Error>(&failure, s)
            && s@ == text
}

} // verus!

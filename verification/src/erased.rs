//! The error type of type-erased decode functions.

use vstd::prelude::*;

verus! {

/// The error with which a type-erased decoder fails. Nothing inside it is
/// visible here; it is carried through and its message read.
#[verifier::external_type_specification]
#[verifier::external_body]
pub struct ExErasedError(erased_serde::Error);

/// The message that an erased error displays.
pub uninterp spec fn error_text(e: erased_serde::Error) -> Seq<char>;

/// The error with which a resolver says that it knows no decode function for
/// a key. Built by `erased_serde::Error::custom`, which keeps the message it
/// is given, so the error displays as "unknown deserialization key".
#[verifier::external_body]
pub fn unknown_key() -> (e: erased_serde::Error)
    ensures
        error_text(e) == "unknown deserialization key"@,
{
    <erased_serde::Error as serde::de::Error>::custom("unknown deserialization key")
}

/// The message of an erased error, as its `Display` impl in `erased_serde`
/// writes it.
#[verifier::external_body]
pub(crate) fn describe(e: &erased_serde::Error) -> (message: String)
    ensures
        message@ == error_text(*e),
{
    e.to_string()
}

} // verus!

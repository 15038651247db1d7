//! The ways in which reading an envelope fails.

use vstd::prelude::*;

verus! {

/// Why an envelope could not be decoded. `K` is the type of the tag's value.
#[derive(Debug, PartialEq, Eq)]
pub enum DecodeError<K> {
    /// The record ended and the named field never appeared.
    MissingField(&'static str),
    /// The named field appeared a second time.
    DuplicateField(&'static str),
    /// No decode function is registered for this key.
    UnknownKey(K),
    /// A positional record ended before the element at this index.
    InvalidLength(usize),
    /// The decode function of the key refused the content; its message.
    PayloadDecodeFailed(String),
    /// Any other failure, by its message.
    Custom(String),
}

} // verus!

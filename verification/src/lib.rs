//! Keyed envelopes: a value of one of several shapes travels as a record of
//! two fields, a tag that names the shape and the content in that shape.
//!
//! The crate holds the rules of such a record. [`field`] tells field names
//! apart. [`envelope`] says what a record, given by its fields in their
//! order, asks of its reader: which key to resolve and which payload to
//! decode, or with which error to fail. [`machine`] decides the same field by
//! field, for a reader that cannot look ahead, and [`reading`] shows that it
//! follows the record. [`visitor`] decodes with a
//! caller's function, [`registry`] with the function registered for the key,
//! [`replay`] from content that was buffered. [`absent`] answers a decode
//! function where the record has no content. [`encode`] lays out the record
//! to write. [`laws`] states what holds of all records.

pub mod absent;
pub mod encode;
pub mod envelope;
pub mod erased;
pub mod error;
pub mod field;
pub mod laws;
pub mod machine;
pub mod reading;
pub mod registry;
pub mod replay;
pub mod visitor;

pub use crate::encode::{serialize_with_key, ErasedSerdeSerializeWrapper, SerializationMap};
pub use crate::erased::unknown_key;
pub use crate::error::DecodeError;
pub use crate::registry::DeserializationMap;
pub use crate::visitor::{deserialize_by_key, KeyValueVisitor};

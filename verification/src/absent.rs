//! What a decode function is told when the record has no content field.

use vstd::prelude::*;
use crate::error::DecodeError;

verus! {

/// The shape of value that a decode function asks its decoder for.
#[derive(Clone, Copy, Debug, PartialEq, Eq)]
pub enum Query {
    Any,
    Bool,
    Integer,
    Float,
    Char,
    Str,
    Bytes,
    Option,
    Unit,
    UnitStruct,
    NewtypeStruct,
    Sequence,
    Tuple,
    TupleStruct,
    Mapping,
    Struct,
    Enum,
    Identifier,
    IgnoredAny,
}

/// What a decoder without content hands to the visitor of a decode function.
#[derive(Clone, Copy, Debug, PartialEq, Eq)]
pub enum Absent {
    /// The unit value.
    Unit,
    /// An option that holds nothing.
    Nothing,
}

/// Stands in for the content of a record that has none. The field is the
/// name under which the content was expected.
#[derive(Clone, Copy, Debug)]
pub struct MissingFieldDeserializer(pub &'static str);

/// What a query for a value of shape `query` is answered with where the
/// content field `field` is absent: a unit, or an option that holds nothing,
/// can be had from nothing; any other shape misses the field.
pub open spec fn absent_answer<K>(field: &'static str, query: Query) -> Result<Absent, DecodeError<K>> {
    match query {
        Query::Unit | Query::UnitStruct => Ok(Absent::Unit),
        Query::Option => Ok(Absent::Nothing),
        _ => Err(DecodeError::MissingField(field)),
    }
}

impl MissingFieldDeserializer {
    /// Answers one query of a decode function.
    pub fn answer<K>(&self, query: Query) -> (r: Result<Absent, DecodeError<K>>)
        ensures
            r == absent_answer::<K>(self.0, query),
            r is Ok <==> (query == Query::Unit || query == Query::UnitStruct || query == Query::Option),
    {
        match query {
            Query::Unit => Ok(Absent::Unit),
            Query::UnitStruct => Ok(Absent::Unit),
            Query::Option => Ok(Absent::Nothing),
            _ => Err(DecodeError::MissingField(self.0)),
        }
    }
}

} // verus!

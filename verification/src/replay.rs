//! Buffered content: a payload that was read before its key was known is
//! kept as a format-neutral value and decoded from it later.

use std::hash::Hash;
use vstd::prelude::*;
use crate::envelope::{envelope_request, relevant, request, Field, Request};
use crate::error::DecodeError;
use crate::registry::{can_invoke, resolves, DeserializationMap};

verus! {

/// A buffered value of any shape, as `serde_value` keeps it. Nothing inside
/// it is visible here.
#[verifier::external_type_specification]
#[verifier::external_body]
pub struct ExValue(serde_value::Value);

/// A decoder that reads from a buffered value. Nothing inside it is visible
/// here.
#[verifier::external_type_specification]
#[verifier::external_body]
#[verifier::reject_recursive_types(E)]
pub struct ExValueDeserializer<E>(serde_value::ValueDeserializer<E>);

/// The decoder that `serde_value` makes for a buffered value.
pub uninterp spec fn replay_of(content: serde_value::Value) -> serde_value::ValueDeserializer<erased_serde::Error>;

/// A decoder that reads from `content` as if it were read from the record.
/// This is `serde_value::ValueDeserializer::new`, which stores the value it
/// is given and nothing else, so the same value gives the same decoder.
#[verifier::external_body]
pub(crate) fn replay(content: serde_value::Value) -> (d: serde_value::ValueDeserializer<erased_serde::Error>)
    ensures
        d == replay_of(content),
{
    serde_value::ValueDeserializer::new(content)
}

/// The request `req` with its buffered payload, if it has one, turned into
/// a decoder.
pub open spec fn replayed<K>(req: Request<K, serde_value::Value>) -> Request<
    K,
    serde_value::ValueDeserializer<erased_serde::Error>,
> {
    match req {
        Request::Fail(e) => Request::Fail(e),
        Request::Decode { key, payload, tail } => Request::Decode {
            key,
            payload: match payload {
                Some(content) => Some(replay_of(content)),
                None => None,
            },
            tail,
        },
    }
}

/// Makes the payload of a request ready to be decoded.
pub fn replayable<K>(req: Request<K, serde_value::Value>) -> (r: Request<
    K,
    serde_value::ValueDeserializer<erased_serde::Error>,
>)
    ensures
        r == replayed(req),
{
    match req {
        Request::Fail(e) => Request::Fail(e),
        Request::Decode { key, payload, tail } => {
            let payload = match payload {
                Some(content) => Some(replay(content)),
                None => None,
            };
            Request::Decode { key, payload, tail }
        },
    }
}

impl<K, F> DeserializationMap<K, F> where K: Eq + Hash {
    /// Decodes a record whose content was buffered: finds the function of
    /// the key and lets `invoke` apply it to a decoder that replays the
    /// content, or to `None` where the record has no content field.
    pub fn deserialize_buffered<V, I>(&self, fields: Vec<Field<K, serde_value::Value>>, invoke: I) -> (res: Result<
        V,
        DecodeError<K>,
    >) where
        I: Fn(&F, Option<serde_value::ValueDeserializer<erased_serde::Error>>) -> Result<V, erased_serde::Error>,

        requires
            can_invoke::<K, F, serde_value::ValueDeserializer<erased_serde::Error>, V, I>(
                invoke,
                replayed(request(relevant(fields@), self.names())),
            ),
        ensures
            resolves(self@, invoke, self.names(), replayed(request(relevant(fields@), self.names())), res),
    {
        let names = self.visitor();
        let req = replayable(envelope_request(fields, &names));
        self.resolve(req, invoke)
    }
}

} // verus!

//! The registry: which decode function belongs to which key.

use std::collections::HashMap;
use std::hash::Hash;
use vstd::prelude::*;
use vstd::std_specs::hash::obeys_key_model;
use crate::envelope::{
    conclude, concluded, envelope_request, positional_request, relevant, request,
    sequence_request, Field, Request,
};
use crate::erased::{describe, error_text};
use crate::error::DecodeError;
use crate::field::TagContentOtherFieldVisitor;

verus! {

/// Maps each key to its decode function. `F` is the type of the functions:
/// the registry stores and finds them, and whoever decodes calls them.
pub struct DeserializationMap<K, F> {
    record_name: &'static str,
    field_names: &'static [&'static str; 2],
    map: HashMap<K, F>,
}

/// Whether `res` is the outcome `out` of a decode function as this library
/// reports it: a value as it is, a failure as `PayloadDecodeFailed` with the
/// message of the erased error.
pub open spec fn payload_outcome<K, V>(out: Result<V, erased_serde::Error>, res: Result<V, DecodeError<K>>) -> bool {
    match out {
        Ok(v) => res == Ok::<V, DecodeError<K>>(v),
        Err(e) => match res {
            Err(DecodeError::PayloadDecodeFailed(message)) => message@ == error_text(e),
            _ => false,
        },
    }
}

/// Whether `res` answers `request` from the registry `registered`: a failing
/// request gives its error; a key without a function gives `UnknownKey`;
/// otherwise `res` is what `invoke` made of the function and the payload,
/// settled against the rest of the record. What depends on finding the key
/// holds for key types whose hashing and equality agree.
pub open spec fn resolves<K, F, C, V, I>(
    registered: Map<K, F>,
    invoke: I,
    names: TagContentOtherFieldVisitor,
    request: Request<K, C>,
    res: Result<V, DecodeError<K>>,
) -> bool where I: Fn(&F, Option<C>) -> Result<V, erased_serde::Error> {
    match request {
        Request::Fail(e) => res == Err::<V, DecodeError<K>>(e),
        Request::Decode { key, payload, tail } => obeys_key_model::<K>() ==> if !registered.contains_key(key) {
            res == Err::<V, DecodeError<K>>(DecodeError::UnknownKey(key))
        } else {
            exists|out: Result<V, erased_serde::Error>, got: Result<V, DecodeError<K>>|
                {
                    &&& #[trigger] call_ensures(invoke, (&registered[key], payload), out)
                    &&& #[trigger] payload_outcome(out, got)
                    &&& res == concluded(got, tail, names)
                }
        },
    }
}

/// Whether `invoke` can be called with the payload that `request` asks to
/// decode, whichever function is found for the key. A request that fails
/// asks for no call.
pub open spec fn can_invoke<K, F, C, V, I>(invoke: I, request: Request<K, C>) -> bool where
    I: Fn(&F, Option<C>) -> Result<V, erased_serde::Error>,
 {
    match request {
        Request::Fail(_) => true,
        Request::Decode { key, payload, tail } => forall|f: &F| call_requires(invoke, (f, payload)),
    }
}

/// The decode of a key that has no payload: `unit` is what came of reading
/// the content as a unit. Where that failed, the failure stands; where it
/// succeeded, `produce` makes the value.
pub fn after_unit<V, P>(unit: Result<(), erased_serde::Error>, produce: P) -> (r: Result<V, erased_serde::Error>) where
    P: Fn() -> Result<V, erased_serde::Error>,

    requires
        call_requires(produce, ()),
    ensures
        match unit {
            Err(e) => r == Err::<V, erased_serde::Error>(e),
            Ok(_) => call_ensures(produce, (), r),
        },
{
    match unit {
        Err(e) => Err(e),
        Ok(_) => produce(),
    }
}

impl<K, F> DeserializationMap<K, F> {
    /// The functions that are registered, by key.
    pub closed spec fn view(&self) -> Map<K, F> {
        self.map@
    }

    /// The name of the records that this registry reads.
    pub closed spec fn spec_record_name(&self) -> &'static str {
        self.record_name
    }

    /// The names of the tag and of the content field.
    pub closed spec fn names(&self) -> TagContentOtherFieldVisitor {
        TagContentOtherFieldVisitor { tag: self.field_names[0], content: self.field_names[1] }
    }

    /// An empty registry for records called `record_name`, whose tag is named
    /// by the first of `field_names` and whose content by the second.
    pub fn new(record_name: &'static str, field_names: &'static [&'static str; 2]) -> (r: DeserializationMap<K, F>)
        ensures
            r@ == Map::<K, F>::empty(),
            r.spec_record_name() == record_name,
            r.names().tag == field_names[0],
            r.names().content == field_names[1],
    {
        DeserializationMap { record_name, field_names, map: HashMap::new() }
    }

    /// The name of the records that this registry reads.
    pub fn record_name(&self) -> (r: &'static str)
        ensures
            r == self.spec_record_name(),
    {
        self.record_name
    }

    /// The names of the tag and of the content field, in this order.
    pub fn field_names(&self) -> (r: &'static [&'static str; 2])
        ensures
            r[0] == self.names().tag,
            r[1] == self.names().content,
    {
        self.field_names
    }

    /// The classifier of this registry's field names.
    pub fn visitor(&self) -> (r: TagContentOtherFieldVisitor)
        ensures
            r == self.names(),
    {
        TagContentOtherFieldVisitor { tag: self.field_names[0], content: self.field_names[1] }
    }
}

impl<K, F> DeserializationMap<K, F> where K: Eq + Hash {
    /// Registers `f` for `key`; a function registered for it before is
    /// replaced.
    pub fn insert_fn(&mut self, key: K, f: F)
        ensures
            obeys_key_model::<K>() ==> final(self)@ == old(self)@.insert(key, f),
            final(self).names() == old(self).names(),
            final(self).spec_record_name() == old(self).spec_record_name(),
    {
        self.map.insert(key, f);
    }

    /// The function registered for `key`, if there is one.
    pub fn get(&self, key: &K) -> (r: Option<&F>)
        ensures
            obeys_key_model::<K>() ==> r == (if self@.contains_key(*key) {
                Some(&self@[*key])
            } else {
                None
            }),
    {
        broadcast use vstd::std_specs::hash::group_hash_axioms;
        self.map.get(key)
    }

    /// The function registered for `key`, or `UnknownKey` with the key.
    pub fn lookup_or_fail(&self, key: K) -> (r: Result<&F, DecodeError<K>>)
        ensures
            obeys_key_model::<K>() ==> r == (if self@.contains_key(key) {
                Ok::<&F, DecodeError<K>>(&self@[key])
            } else {
                Err::<&F, DecodeError<K>>(DecodeError::UnknownKey(key))
            }),
    {
        let found = self.get(&key);
        match found {
            Some(f) => Ok(f),
            None => Err(DecodeError::UnknownKey(key)),
        }
    }

    /// Carries out a request: finds the function of the key and lets `invoke`
    /// apply it to the payload.
    pub fn resolve<C, V, I>(&self, req: Request<K, C>, invoke: I) -> (res: Result<V, DecodeError<K>>) where
        I: Fn(&F, Option<C>) -> Result<V, erased_serde::Error>,

        requires
            can_invoke::<K, F, C, V, I>(invoke, req),
        ensures
            resolves(self@, invoke, self.names(), req, res),
    {
        match req {
            Request::Fail(e) => Err(e),
            Request::Decode { key, payload, tail } => {
                match self.lookup_or_fail(key) {
                    Err(e) => Err(e),
                    Ok(f) => {
                        let out = invoke(f, payload);
                        let ghost returned = out;
                        let got = match out {
                            Ok(v) => Ok(v),
                            Err(e) => Err(DecodeError::PayloadDecodeFailed(describe(&e))),
                        };
                        proof {
                            assert(call_ensures(invoke, (f, payload), returned));
                            assert(payload_outcome(returned, got));
                        }
                        let names = self.visitor();
                        conclude(got, tail, &names)
                    },
                }
            },
        }
    }

    /// Decodes a record given by its named fields, in whatever order they
    /// stand, with the function registered for its key.
    pub fn deserialize_by_key<C, V, I>(&self, fields: Vec<Field<K, C>>, invoke: I) -> (res: Result<V, DecodeError<K>>) where
        I: Fn(&F, Option<C>) -> Result<V, erased_serde::Error>,

        requires
            can_invoke::<K, F, C, V, I>(invoke, request(relevant(fields@), self.names())),
        ensures
            resolves(
                self@,
                invoke,
                self.names(),
                request(relevant(fields@), self.names()),
                res,
            ),
    {
        let names = self.visitor();
        let req = envelope_request(fields, &names);
        self.resolve(req, invoke)
    }

    /// Decodes a positional record, the key first and the payload second,
    /// with the function registered for its key.
    pub fn deserialize_seq_by_key<C, V, I>(&self, first: Option<K>, second: Option<C>, invoke: I) -> (res: Result<V, DecodeError<K>>) where
        I: Fn(&F, Option<C>) -> Result<V, erased_serde::Error>,

        requires
            can_invoke::<K, F, C, V, I>(invoke, positional_request(first, second)),
        ensures
            resolves(
                self@,
                invoke,
                self.names(),
                positional_request(first, second),
                res,
            ),
    {
        let req = sequence_request(first, second);
        self.resolve(req, invoke)
    }
}

} // verus!

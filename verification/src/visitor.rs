//! Decoding a record with a caller's decode function.

use std::marker::PhantomData;
use vstd::prelude::*;
use vstd::pervasive::unreached;
use crate::envelope::{
    conclude, concluded, positional_request, relevant, request, sequence_request, Field, Part,
    Request,
};
use crate::error::DecodeError;
use crate::field::TagContentOtherFieldVisitor;
use crate::machine::{Action, Event, Machine, Source};
use crate::reading::{lemma_step_keeps_track, on_track, rank};

verus! {

/// Reads an envelope and decodes its payload with `deserialization_fn`, which
/// is given the key and the payload (`None` where the record has no content
/// field) and resolves the key itself.
pub struct KeyValueVisitor<F, K, T> {
    pub deserialization_fn: F,
    pub key_name: &'static str,
    pub value_name: &'static str,
    pub _dummy: PhantomData<(K, T)>,
}

/// Whether `res` answers `request` with the decode function `f`: a failing
/// request gives its error; a decode gives what `f` returned for the key and
/// the payload, settled against the rest of the record.
pub open spec fn answers<F, K, C, T>(
    f: F,
    names: TagContentOtherFieldVisitor,
    request: Request<K, C>,
    res: Result<T, DecodeError<K>>,
) -> bool where F: Fn(K, Option<C>) -> Result<T, DecodeError<K>> {
    match request {
        Request::Fail(e) => res == Err::<T, DecodeError<K>>(e),
        Request::Decode { key, payload, tail } => exists|out: Result<T, DecodeError<K>>| #[trigger]
            call_ensures(f, (key, payload), out) && res == concluded(out, tail, names),
    }
}

/// Whether the decode function `f` can be called with what `request` asks
/// for. A request that fails asks for no call.
pub open spec fn accepts<F, K, C, T>(f: F, request: Request<K, C>) -> bool where
    F: Fn(K, Option<C>) -> Result<T, DecodeError<K>>,
 {
    match request {
        Request::Fail(_) => true,
        Request::Decode { key, payload, tail } => call_requires(f, (key, payload)),
    }
}

/// The elements of `v` in the opposite order.
fn reversed<X>(v: Vec<X>) -> (r: Vec<X>)
    ensures
        r@ == v@.reverse(),
{
    let ghost all = v@;
    let mut v = v;
    let mut r: Vec<X> = Vec::new();
    while v.len() > 0
        invariant
            v@ == all.take(v@.len() as int),
            v@.len() <= all.len(),
            r@.len() + v@.len() == all.len(),
            forall|i: int| 0 <= i < r@.len() ==> r@[i] == all[all.len() - 1 - i],
        decreases v@.len(),
    {
        match v.pop() {
            Some(x) => {
                r.push(x);
            },
            None => {},
        }
        proof {
            assert(v@ =~= all.take(v@.len() as int));
        }
    }
    proof {
        assert(r@ =~= all.reverse());
    }
    r
}

impl<F, K, T> KeyValueVisitor<F, K, T> {
    /// The two field names of the envelope.
    pub open spec fn names(&self) -> TagContentOtherFieldVisitor {
        TagContentOtherFieldVisitor { tag: self.key_name, content: self.value_name }
    }

    /// Carries out a request with the decode function.
    pub fn fulfil<C>(&self, req: Request<K, C>) -> (res: Result<T, DecodeError<K>>) where
        F: Fn(K, Option<C>) -> Result<T, DecodeError<K>>,

        requires
            accepts(self.deserialization_fn, req),
        ensures
            answers(self.deserialization_fn, self.names(), req, res),
    {
        match req {
            Request::Fail(e) => Err(e),
            Request::Decode { key, payload, tail } => {
                let names = TagContentOtherFieldVisitor { tag: self.key_name, content: self.value_name };
                let out = (self.deserialization_fn)(key, payload);
                conclude(out, tail, &names)
            },
        }
    }

    /// Decodes a record given by its named fields, in whatever order they
    /// stand. The fields are read one by one, as the machine asks for them.
    pub fn visit_map<C>(&self, map: Vec<Field<K, C>>) -> (res: Result<T, DecodeError<K>>) where
        F: Fn(K, Option<C>) -> Result<T, DecodeError<K>>,

        requires
            accepts(self.deserialization_fn, request(relevant(map@), self.names())),
        ensures
            answers(self.deserialization_fn, self.names(), request(relevant(map@), self.names()), res),
    {
        let names = TagContentOtherFieldVisitor { tag: self.key_name, content: self.value_name };
        let ghost all = relevant(map@);
        let ghost mut rem = map@;
        let mut rest = reversed(map);
        let mut machine = Machine::<K, C, T>::new(names);
        let mut action = Action::NextField;
        loop
            invariant
                all == relevant(map@),
                rest@ == rem.reverse(),
                machine.names == names,
                names == self.names(),
                on_track(self.deserialization_fn, machine, action, all, rem),
                accepts(self.deserialization_fn, request(all, names)),
            decreases rem.len(), rank(action),
        {
            let ghost before = rem;
            let event = match action {
                Action::NextField => {
                    let n = rest.len();
                    if n == 0 {
                        Event::End
                    } else {
                        Event::Field(rest[n - 1].classify())
                    }
                },
                Action::SkipValue => {
                    let _ = rest.pop();
                    proof {
                        rem = rem.skip(1);
                        assert(rest@ =~= rem.reverse());
                    }
                    Event::Skipped
                },
                Action::ReadKey => match rest.pop() {
                    Some(Field::Tag(k)) => {
                        proof {
                            rem = rem.skip(1);
                            assert(rest@ =~= rem.reverse());
                        }
                        Event::Key(k)
                    },
                    _ => unreached(),
                },
                Action::BufferContent => match rest.pop() {
                    Some(Field::Content(c)) => {
                        proof {
                            rem = rem.skip(1);
                            assert(rest@ =~= rem.reverse());
                        }
                        Event::Buffered(c)
                    },
                    _ => unreached(),
                },
                Action::Decode { key, source } => {
                    let payload = match source {
                        Source::Direct => match rest.pop() {
                            Some(Field::Content(c)) => {
                                proof {
                                    rem = rem.skip(1);
                                    assert(rest@ =~= rem.reverse());
                                    assert(all =~= seq![Part::Tag(key), Part::Content(c)] + relevant(rem));
                                }
                                Some(c)
                            },
                            _ => unreached(),
                        },
                        Source::Replay(c) => Some(c),
                        Source::Absent => None,
                    };
                    match (self.deserialization_fn)(key, payload) {
                        Ok(v) => Event::Decoded(v),
                        Err(e) => {
                            return Err(e);
                        },
                    }
                },
                Action::Finish(v) => {
                    return Ok(v);
                },
                Action::Fail(e) => {
                    return Err(e);
                },
            };
            proof {
                lemma_step_keeps_track(self.deserialization_fn, machine, action, event, all, before, rem);
            }
            let (next, then) = machine.step(event);
            machine = next;
            action = then;
        }
    }

    /// Decodes a positional record: the key first, the payload second.
    pub fn visit_seq<C>(&self, first: Option<K>, second: Option<C>) -> (res: Result<T, DecodeError<K>>) where
        F: Fn(K, Option<C>) -> Result<T, DecodeError<K>>,

        requires
            accepts(self.deserialization_fn, positional_request(first, second)),
        ensures
            answers(self.deserialization_fn, self.names(), positional_request(first, second), res),
    {
        let req = sequence_request(first, second);
        self.fulfil(req)
    }
}

/// Decodes the record `fields`, whose tag and content are named by
/// `field_names`, with the decode function `f`.
pub fn deserialize_by_key<K, C, V, F>(
    record_name: &'static str,
    field_names: &'static [&'static str; 2],
    f: F,
    fields: Vec<Field<K, C>>,
) -> (res: Result<V, DecodeError<K>>) where F: Fn(K, Option<C>) -> Result<V, DecodeError<K>>
    requires
        accepts(
            f,
            request(
                relevant(fields@),
                (TagContentOtherFieldVisitor { tag: field_names[0], content: field_names[1] }),
            ),
        ),
    ensures
        answers(
            f,
            (TagContentOtherFieldVisitor { tag: field_names[0], content: field_names[1] }),
            request(
                relevant(fields@),
                (TagContentOtherFieldVisitor { tag: field_names[0], content: field_names[1] }),
            ),
            res,
        ),
{
    let visitor = KeyValueVisitor::<F, K, V> {
        deserialization_fn: f,
        key_name: field_names[0],
        value_name: field_names[1],
        _dummy: PhantomData,
    };
    visitor.visit_map(fields)
}

} // verus!

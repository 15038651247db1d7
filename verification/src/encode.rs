//! Writing an envelope: the key first, then the payload.

use std::marker::PhantomData;
use vstd::prelude::*;
use crate::envelope::Field;
use crate::field::TagContentOtherFieldVisitor;

verus! {

/// A payload on its way to an encoder that does not know its type: the
/// reference is passed on as it is, and the encoder writes the value through
/// its type-erased form.
pub struct ErasedSerdeSerializeWrapper<'a, V: ?Sized>(pub &'a V);

/// An envelope ready to be written: a record called `record_name` of exactly
/// `len` fields, first `key` under the name `tag_name`, then `payload` under
/// the name `content_name`.
pub struct Envelope<K, C> {
    pub record_name: &'static str,
    pub len: usize,
    pub tag_name: &'static str,
    pub key: K,
    pub content_name: &'static str,
    pub payload: C,
}

/// Writes envelopes for values of type `V`, whose key `key_fn` computes.
pub struct SerializationMap<K, V: ?Sized, F> {
    record_name: &'static str,
    field_names: &'static [&'static str; 2],
    key_fn: F,
    _dummy: PhantomData<(K, Box<V>)>,
}

/// The fields of the record that holds `key` and `payload`.
pub open spec fn envelope_fields<K, C>(key: K, payload: C) -> Seq<Field<K, C>> {
    seq![Field::Tag(key), Field::Content(payload)]
}

/// Whether `e` is the envelope of `key` and `value` in a record called
/// `record_name` with the field names `names`.
pub open spec fn is_envelope_of<'a, K, V: ?Sized>(
    e: Envelope<K, ErasedSerdeSerializeWrapper<'a, V>>,
    record_name: &'static str,
    names: TagContentOtherFieldVisitor,
    key: K,
    value: &'a V,
) -> bool {
    &&& e.record_name == record_name
    &&& e.len == 2
    &&& e.tag_name == names.tag
    &&& e.content_name == names.content
    &&& e.key == key
    &&& e.payload.0 == value
}

impl<K, C> Envelope<K, C> {
    /// The fields of this envelope as a reader meets them.
    pub open spec fn spec_fields(self) -> Seq<Field<K, C>> {
        envelope_fields(self.key, self.payload)
    }

    /// The names of the two fields.
    pub open spec fn names(self) -> TagContentOtherFieldVisitor {
        TagContentOtherFieldVisitor { tag: self.tag_name, content: self.content_name }
    }

    /// The fields of this envelope in the order in which they are written:
    /// the tag, then the content.
    pub fn fields(self) -> (r: Vec<Field<K, C>>)
        ensures
            r@ == self.spec_fields(),
    {
        let mut r: Vec<Field<K, C>> = Vec::new();
        r.push(Field::Tag(self.key));
        r.push(Field::Content(self.payload));
        proof {
            assert(r@ =~= envelope_fields(self.key, self.payload));
        }
        r
    }
}

impl<K, V: ?Sized, F> SerializationMap<K, V, F> {
    /// The name of the records that are written.
    pub closed spec fn spec_record_name(&self) -> &'static str {
        self.record_name
    }

    /// The names of the tag and of the content field.
    pub closed spec fn names(&self) -> TagContentOtherFieldVisitor {
        TagContentOtherFieldVisitor { tag: self.field_names[0], content: self.field_names[1] }
    }

    /// The function that computes a value's key.
    pub closed spec fn spec_key_fn(&self) -> F {
        self.key_fn
    }

    /// A writer of records called `record_name`, whose tag is named by the
    /// first of `field_names` and whose content by the second.
    pub fn new(record_name: &'static str, field_names: &'static [&'static str; 2], key_fn: F) -> (r: SerializationMap<K, V, F>)
        where F: Fn(&V) -> K + 'static
        ensures
            r.spec_record_name() == record_name,
            r.names().tag == field_names[0],
            r.names().content == field_names[1],
            r.spec_key_fn() == key_fn,
    {
        SerializationMap { record_name, field_names, key_fn, _dummy: PhantomData }
    }

    /// The envelope of `v`: its key as `key_fn` computes it, and `v` itself
    /// as the payload.
    pub fn serialize_with_key<'a>(&self, v: &'a V) -> (e: Envelope<K, ErasedSerdeSerializeWrapper<'a, V>>)
        where F: Fn(&V) -> K
        requires
            call_requires(self.spec_key_fn(), (v,)),
        ensures
            call_ensures(self.spec_key_fn(), (v,), e.key),
            is_envelope_of(e, self.spec_record_name(), self.names(), e.key, v),
    {
        let key = (self.key_fn)(v);
        Envelope {
            record_name: self.record_name,
            len: 2,
            tag_name: self.field_names[0],
            key,
            content_name: self.field_names[1],
            payload: ErasedSerdeSerializeWrapper(v),
        }
    }
}

/// The envelope of `key` and `value` in a record called `record_name`, whose
/// tag is named by the first of `field_names` and whose content by the
/// second.
pub fn serialize_with_key<'a, K: ?Sized, V: ?Sized>(
    record_name: &'static str,
    field_names: &'static [&'static str; 2],
    key: &'a K,
    value: &'a V,
) -> (e: Envelope<&'a K, ErasedSerdeSerializeWrapper<'a, V>>)
    ensures
        is_envelope_of(
            e,
            record_name,
            (TagContentOtherFieldVisitor { tag: field_names[0], content: field_names[1] }),
            key,
            value,
        ),
{
    Envelope {
        record_name,
        len: 2,
        tag_name: field_names[0],
        key,
        content_name: field_names[1],
        payload: ErasedSerdeSerializeWrapper(value),
    }
}

} // verus!

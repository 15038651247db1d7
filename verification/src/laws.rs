//! What holds of every record, whatever its fields.

use vstd::prelude::*;
use vstd::std_specs::hash::obeys_key_model;
use crate::encode::envelope_fields;
use crate::envelope::{concluded, positional_request, relevant, request, Field, Part, Request};
use crate::error::DecodeError;
use crate::field::{TagContentOtherFieldVisitor, TagOrContentField};
use crate::registry::resolves;
use crate::visitor::answers;

verus! {

/// The envelope fields of the record that an encoder writes for `key` and
/// `payload` are the tag and then the content.
pub proof fn lemma_written_parts<K, C>(key: K, payload: C)
    ensures
        relevant(envelope_fields(key, payload)) == seq![Part::Tag(key), Part::Content(payload)],
{
    let fields = envelope_fields(key, payload);
    let rest = fields.skip(1);
    assert(rest.skip(1) =~= Seq::<Field<K, C>>::empty());
    assert(relevant(rest.skip(1)) =~= Seq::<Part<K, C>>::empty());
    assert(relevant(rest) =~= seq![Part::Content(payload)]);
    assert(relevant(fields) =~= seq![Part::Tag(key), Part::Content(payload)]);
}

/// Round trip: the record written for `key` and `payload` asks its reader for
/// exactly the decode of `payload` under `key`, with nothing after it. So a
/// reader with the decode function `f` returns `res` for that record exactly
/// when `f` can return `res` for `key` and `payload`.
pub proof fn lemma_round_trip<F, K, C, T>(
    f: F,
    key: K,
    payload: C,
    names: TagContentOtherFieldVisitor,
    res: Result<T, DecodeError<K>>,
) where F: Fn(K, Option<C>) -> Result<T, DecodeError<K>>
    ensures
        request(relevant(envelope_fields(key, payload)), names) == (Request::Decode {
            key,
            payload: Some(payload),
            tail: None,
        }),
        answers(f, names, request(relevant(envelope_fields(key, payload)), names), res)
            <==> call_ensures(f, (key, Some(payload)), res),
{
    lemma_written_parts(key, payload);
    let req = request(relevant(envelope_fields(key, payload)), names);
    assert forall|out: Result<T, DecodeError<K>>|
        concluded(out, None, names) == out by {}
    if call_ensures(f, (key, Some(payload)), res) {
        assert(res == concluded(res, None, names));
    }
}

/// Field order: a record whose tag comes before its content and one whose
/// content comes before its tag ask for the same decode, whatever other
/// fields stand between them and whatever envelope fields `rest` follow.
pub proof fn lemma_field_order<K, C>(
    tag_first: Seq<Field<K, C>>,
    content_first: Seq<Field<K, C>>,
    key: K,
    payload: C,
    rest: Seq<Part<K, C>>,
    names: TagContentOtherFieldVisitor,
)
    requires
        relevant(tag_first) == seq![Part::Tag(key), Part::Content(payload)] + rest,
        relevant(content_first) == seq![Part::Content(payload), Part::Tag(key)] + rest,
    ensures
        request(relevant(tag_first), names) == request(relevant(content_first), names),
        request(relevant(tag_first), names) == (Request::Decode {
            key,
            payload: Some(payload),
            tail: if rest.len() > 0 {
                Some(rest[0].which())
            } else {
                None
            },
        }),
{
}

/// Field order, for the record of two fields: content before tag asks for
/// what tag before content asks for.
pub proof fn lemma_two_fields_in_either_order<K, C>(key: K, payload: C, names: TagContentOtherFieldVisitor)
    ensures
        request(relevant(seq![Field::Content(payload), Field::Tag(key)]), names) == request(
            relevant(seq![Field::Tag(key), Field::Content(payload)]),
            names,
        ),
        request(relevant(seq![Field::Content(payload), Field::Tag(key)]), names) == (Request::Decode {
            key,
            payload: Some(payload),
            tail: None,
        }),
{
    let content_first = seq![Field::Content(payload), Field::Tag(key)];
    let rest = content_first.skip(1);
    assert(rest.skip(1) =~= Seq::<Field<K, C>>::empty());
    assert(relevant(rest.skip(1)) =~= Seq::<Part<K, C>>::empty());
    assert(relevant(rest) =~= seq![Part::Tag(key)]);
    assert(relevant(content_first) =~= seq![Part::Content(payload), Part::Tag(key)]);
    lemma_written_parts(key, payload);
    assert(seq![Field::Tag(key), Field::Content(payload)] =~= envelope_fields(key, payload));
}

/// Other fields are ignored: a field that is neither tag nor content, put
/// anywhere into a record, leaves its envelope fields and so its request as
/// they were.
pub proof fn lemma_other_field_is_ignored<K, C>(
    fields: Seq<Field<K, C>>,
    at: int,
    names: TagContentOtherFieldVisitor,
)
    requires
        0 <= at <= fields.len(),
    ensures
        relevant(fields.insert(at, Field::Other)) == relevant(fields),
        request(relevant(fields.insert(at, Field::Other)), names) == request(relevant(fields), names),
    decreases at,
{
    let wider = fields.insert(at, Field::Other);
    if at == 0 {
        assert(wider.skip(1) =~= fields);
    } else {
        lemma_other_field_is_ignored(fields.skip(1), at - 1, names);
        assert(wider.skip(1) =~= fields.skip(1).insert(at - 1, Field::Other));
        assert(wider[0] == fields[0]);
    }
}

/// Records with the same envelope fields ask for the same: nothing but the
/// tag and content fields, in their order, decides what a reader does.
pub proof fn lemma_only_envelope_fields_count<K, C>(
    a: Seq<Field<K, C>>,
    b: Seq<Field<K, C>>,
    names: TagContentOtherFieldVisitor,
)
    requires
        relevant(a) == relevant(b),
    ensures
        request(relevant(a), names) == request(relevant(b), names),
{
}

/// Unknown keys: a record that asks for a decode under a key without a
/// registered function is answered with `UnknownKey` of that key, whether
/// its fields were named or positional, and whatever follows the two fields.
/// This is stated for key types whose hashing and equality agree, as a hash
/// map needs them.
pub proof fn lemma_unknown_key<K, F, C, V, I>(
    registered: Map<K, F>,
    invoke: I,
    names: TagContentOtherFieldVisitor,
    fields: Seq<Field<K, C>>,
    key: K,
    payload: C,
    named: Result<V, DecodeError<K>>,
    positional: Result<V, DecodeError<K>>,
) where I: Fn(&F, Option<C>) -> Result<V, erased_serde::Error>
    requires
        obeys_key_model::<K>(),
        !registered.contains_key(key),
        request(relevant(fields), names) is Decode,
        request(relevant(fields), names)->Decode_key == key,
        resolves(registered, invoke, names, request(relevant(fields), names), named),
        resolves(registered, invoke, names, positional_request(Some(key), Some(payload)), positional),
    ensures
        named == Err::<V, DecodeError<K>>(DecodeError::UnknownKey(key)),
        positional == named,
{
}

/// A record that ends after its tag asks for a decode without payload, so
/// the decode function of the key decides whether the record is complete.
pub proof fn lemma_tag_alone<K, C>(fields: Seq<Field<K, C>>, key: K, names: TagContentOtherFieldVisitor)
    requires
        relevant(fields) == seq![Part::<K, C>::Tag(key)],
    ensures
        request(relevant(fields), names) == (Request::<K, C>::Decode { key, payload: None, tail: None }),
{
}

/// The envelope fields of a record without a tag are content fields.
pub proof fn lemma_parts_without_tag<K, C>(fields: Seq<Field<K, C>>)
    requires
        forall|i: int| 0 <= i < fields.len() ==> !(fields[i] is Tag),
    ensures
        forall|j: int| 0 <= j < relevant(fields).len() ==> relevant(fields)[j] is Content,
    decreases fields.len(),
{
    if fields.len() > 0 {
        lemma_parts_without_tag(fields.skip(1));
    }
}

/// A record without a tag never asks for a decode: it fails with
/// `MissingField` of the tag's name where it has at most one content field,
/// and with `DuplicateField` of the content's name where it has more.
pub proof fn lemma_missing_tag<K, C>(fields: Seq<Field<K, C>>, names: TagContentOtherFieldVisitor)
    requires
        forall|i: int| 0 <= i < fields.len() ==> !(fields[i] is Tag),
    ensures
        request(relevant(fields), names) == (if relevant(fields).len() <= 1 {
            Request::<K, C>::Fail(DecodeError::MissingField(names.tag))
        } else {
            Request::<K, C>::Fail(DecodeError::DuplicateField(names.content))
        }),
{
    lemma_parts_without_tag(fields);
    let parts = relevant(fields);
    if parts.len() == 1 {
        assert(parts[0] is Content);
    } else if parts.len() > 1 {
        assert(parts[0] is Content);
        assert(parts[1] is Content);
    }
}

/// Only envelopes decode: where a reader returns a value for a record, the
/// record has exactly one tag among its envelope fields and at most one
/// content field, and nothing of the envelope after them.
pub proof fn lemma_decoded_records_are_envelopes<F, K, C, T>(
    f: F,
    fields: Seq<Field<K, C>>,
    names: TagContentOtherFieldVisitor,
    value: T,
) where F: Fn(K, Option<C>) -> Result<T, DecodeError<K>>
    requires
        answers(f, names, request(relevant(fields), names), Ok::<T, DecodeError<K>>(value)),
    ensures
        ({
            let parts = relevant(fields);
            ||| parts.len() == 1 && parts[0] is Tag
            ||| parts.len() == 2 && parts[0] is Tag && parts[1] is Content
            ||| parts.len() == 2 && parts[0] is Content && parts[1] is Tag
        }),
{
}

/// Duplicates: where the second envelope field of a record repeats the
/// first, the record fails with `DuplicateField` of that field's name and
/// nothing is decoded. Where a third envelope field follows a tag and a
/// content field, in either order, a decode that succeeds is answered with
/// `DuplicateField` of the third field's name.
pub proof fn lemma_duplicate_field<K, C, T>(
    fields: Seq<Field<K, C>>,
    names: TagContentOtherFieldVisitor,
    value: T,
)
    requires
        relevant(fields).len() >= 2,
    ensures
        relevant(fields)[0].which() == relevant(fields)[1].which() ==> request(relevant(fields), names)
            == Request::<K, C>::Fail(
            DecodeError::DuplicateField(names.spec_name_of(relevant(fields)[1].which())),
        ),
        relevant(fields)[0].which() != relevant(fields)[1].which() && relevant(fields).len() >= 3 ==> {
            &&& request(relevant(fields), names) is Decode
            &&& concluded(Ok::<T, DecodeError<K>>(value), request(relevant(fields), names)->Decode_tail, names)
                == Err::<T, DecodeError<K>>(
                DecodeError::DuplicateField(names.spec_name_of(relevant(fields)[2].which())),
            )
        },
{
}

/// Positional and named records agree: the positional record of a key and a
/// payload asks for what the named record of the same two asks for.
pub proof fn lemma_positional_as_named<K, C>(key: K, payload: C, names: TagContentOtherFieldVisitor)
    ensures
        positional_request(Some(key), Some(payload)) == request(
            relevant(envelope_fields(key, payload)),
            names,
        ),
{
    lemma_written_parts(key, payload);
}

/// A positional record that ends early fails with the index of the element
/// that is missing: 0 for the key, 1 for the payload.
pub proof fn lemma_positional_length<K, C>(key: K)
    ensures
        positional_request::<K, C>(None, None) == Request::<K, C>::Fail(DecodeError::InvalidLength(0)),
        positional_request::<K, C>(Some(key), None) == Request::<K, C>::Fail(DecodeError::InvalidLength(1)),
{
}

} // verus!

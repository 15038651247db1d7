//! The envelope as data: the fields of a record in the order in which they
//! were written, and what such a record asks its reader to do.

use vstd::prelude::*;
use crate::error::DecodeError;
use crate::field::{TagContentOtherField, TagContentOtherFieldVisitor, TagOrContentField};

verus! {

/// One field of a record. A tag carries the decoded key, a content field the
/// payload as it was found, not yet interpreted; of any other field nothing
/// is kept.
#[derive(Debug, PartialEq, Eq)]
pub enum Field<K, C> {
    Tag(K),
    Content(C),
    Other,
}

/// A field that belongs to the envelope.
#[derive(Debug, PartialEq, Eq)]
pub enum Part<K, C> {
    Tag(K),
    Content(C),
}

/// What a record asks of its reader: to fail at once, or to hand `payload` to
/// the decode function of `key`. `tail` is the envelope field, if any, that
/// follows the two that were used; `payload` is `None` where the record ended
/// after its tag.
#[derive(Debug, PartialEq, Eq)]
pub enum Request<K, C> {
    Fail(DecodeError<K>),
    Decode { key: K, payload: Option<C>, tail: Option<TagOrContentField> },
}

/// The first two envelope fields of a record and the class of the third.
pub struct Leading<K, C> {
    pub first: Option<Part<K, C>>,
    pub second: Option<Part<K, C>>,
    pub third: Option<TagOrContentField>,
}

impl<K, C> Field<K, C> {
    /// The class of this field's name.
    pub open spec fn class(self) -> TagContentOtherField {
        match self {
            Field::Tag(_) => TagContentOtherField::Tag,
            Field::Content(_) => TagContentOtherField::Content,
            Field::Other => TagContentOtherField::Other,
        }
    }

    /// The class of this field's name.
    pub fn classify(&self) -> (r: TagContentOtherField)
        ensures
            r == self.class(),
    {
        match self {
            Field::Tag(_) => TagContentOtherField::Tag,
            Field::Content(_) => TagContentOtherField::Content,
            Field::Other => TagContentOtherField::Other,
        }
    }

    /// This field as a part of the envelope, if it is one.
    pub open spec fn part(self) -> Option<Part<K, C>> {
        match self {
            Field::Tag(k) => Some(Part::Tag(k)),
            Field::Content(c) => Some(Part::Content(c)),
            Field::Other => None,
        }
    }
}

impl<K, C> Part<K, C> {
    /// Which of the two envelope fields this is.
    pub open spec fn which(self) -> TagOrContentField {
        match self {
            Part::Tag(_) => TagOrContentField::Tag,
            Part::Content(_) => TagOrContentField::Content,
        }
    }

    /// Which of the two envelope fields this is.
    pub fn kind(&self) -> (r: TagOrContentField)
        ensures
            r == self.which(),
    {
        match self {
            Part::Tag(_) => TagOrContentField::Tag,
            Part::Content(_) => TagOrContentField::Content,
        }
    }
}

/// The envelope fields of a record, in their order, with every other field
/// left out.
pub open spec fn relevant<K, C>(fields: Seq<Field<K, C>>) -> Seq<Part<K, C>>
    decreases fields.len(),
{
    if fields.len() == 0 {
        Seq::empty()
    } else {
        match fields[0].part() {
            Some(p) => seq![p] + relevant(fields.skip(1)),
            None => relevant(fields.skip(1)),
        }
    }
}

/// The start of a sequence of envelope fields.
pub open spec fn leading<K, C>(parts: Seq<Part<K, C>>) -> Leading<K, C> {
    Leading {
        first: if parts.len() > 0 { Some(parts[0]) } else { None },
        second: if parts.len() > 1 { Some(parts[1]) } else { None },
        third: if parts.len() > 2 { Some(parts[2].which()) } else { None },
    }
}

/// What the envelope fields `parts` of a record ask of the reader.
///
/// A record without envelope fields, or with a content field alone, misses
/// its tag. A field that repeats the one before it is a duplicate. A tag
/// alone asks for a decode without payload. A tag and a content field, in
/// either order, ask for a decode of that payload under that key.
pub open spec fn request<K, C>(parts: Seq<Part<K, C>>, names: TagContentOtherFieldVisitor) -> Request<K, C> {
    let tail = if parts.len() > 2 { Some(parts[2].which()) } else { None };
    if parts.len() == 0 {
        Request::Fail(DecodeError::MissingField(names.tag))
    } else if parts.len() == 1 {
        match parts[0] {
            Part::Tag(key) => Request::Decode { key, payload: None, tail: None },
            Part::Content(_) => Request::Fail(DecodeError::MissingField(names.tag)),
        }
    } else {
        match (parts[0], parts[1]) {
            (Part::Tag(_), Part::Tag(_)) => Request::Fail(DecodeError::DuplicateField(names.tag)),
            (Part::Content(_), Part::Content(_)) => Request::Fail(DecodeError::DuplicateField(names.content)),
            (Part::Tag(key), Part::Content(c)) => Request::Decode { key, payload: Some(c), tail },
            (Part::Content(c), Part::Tag(key)) => Request::Decode { key, payload: Some(c), tail },
        }
    }
}

/// What a positional record asks of the reader: its first element is the
/// key, its second the payload, and a record that ends before either fails
/// with the index of the element that is missing.
pub open spec fn positional_request<K, C>(first: Option<K>, second: Option<C>) -> Request<K, C> {
    match first {
        None => Request::Fail(DecodeError::InvalidLength(0)),
        Some(key) => match second {
            None => Request::Fail(DecodeError::InvalidLength(1)),
            Some(c) => Request::Decode { key, payload: Some(c), tail: None },
        },
    }
}

/// The result of a decode once the rest of the record is known: a failure of
/// the decode function stands, and after a success a further envelope field
/// is a duplicate.
pub open spec fn concluded<K, T>(
    out: Result<T, DecodeError<K>>,
    tail: Option<TagOrContentField>,
    names: TagContentOtherFieldVisitor,
) -> Result<T, DecodeError<K>> {
    match out {
        Err(e) => Err(e),
        Ok(v) => match tail {
            None => Ok(v),
            Some(which) => Err(DecodeError::DuplicateField(names.spec_name_of(which))),
        },
    }
}

/// Unfolds `relevant` at position `at` of a record.
pub proof fn lemma_relevant_from<K, C>(fields: Seq<Field<K, C>>, at: int)
    requires
        0 <= at < fields.len(),
    ensures
        relevant(fields.skip(at)) == match fields[at].part() {
            Some(p) => seq![p] + relevant(fields.skip(at + 1)),
            None => relevant(fields.skip(at + 1)),
        },
{
    assert(fields.skip(at).skip(1) =~= fields.skip(at + 1));
}

/// Collects the first two envelope fields of a record and the class of the
/// third.
pub fn leading_parts<K, C>(fields: Vec<Field<K, C>>) -> (r: Leading<K, C>)
    ensures
        r == leading(relevant(fields@)),
{
    let ghost all = fields@;
    let mut rest = fields;
    let mut first: Option<Part<K, C>> = None;
    let mut second: Option<Part<K, C>> = None;
    let mut third: Option<TagOrContentField> = None;
    proof {
        assert(all.skip(all.len() as int) =~= Seq::empty());
    }
    while rest.len() > 0
        invariant
            rest@ == all.take(rest@.len() as int),
            rest@.len() <= all.len(),
            (Leading { first, second, third }) == leading(relevant(all.skip(rest@.len() as int))),
        decreases rest@.len(),
    {
        let ghost at = rest@.len() - 1;
        let ghost before = relevant(all.skip(at + 1));
        let field = rest.pop();
        proof {
            lemma_relevant_from(all, at);
            assert(rest@ =~= all.take(at));
        }
        match field {
            Some(Field::Tag(k)) => {
                third = match &second {
                    Some(p) => Some(p.kind()),
                    None => None,
                };
                second = first;
                first = Some(Part::Tag(k));
                proof {
                    assert(relevant(all.skip(at)) == seq![Part::<K, C>::Tag(k)] + before);
                }
            },
            Some(Field::Content(c)) => {
                third = match &second {
                    Some(p) => Some(p.kind()),
                    None => None,
                };
                second = first;
                first = Some(Part::Content(c));
                proof {
                    assert(relevant(all.skip(at)) == seq![Part::<K, C>::Content(c)] + before);
                }
            },
            _ => {},
        }
    }
    proof {
        assert(all.skip(0) =~= all);
    }
    Leading { first, second, third }
}

/// Reads a record: which decode it asks for, or with which error it fails.
pub fn envelope_request<K, C>(fields: Vec<Field<K, C>>, names: &TagContentOtherFieldVisitor) -> (r: Request<K, C>)
    ensures
        r == request(relevant(fields@), *names),
{
    let lead = leading_parts(fields);
    match (lead.first, lead.second) {
        (None, _) => Request::Fail(DecodeError::MissingField(names.tag)),
        (Some(Part::Tag(key)), None) => Request::Decode { key, payload: None, tail: None },
        (Some(Part::Content(_)), None) => Request::Fail(DecodeError::MissingField(names.tag)),
        (Some(Part::Tag(_)), Some(Part::Tag(_))) => Request::Fail(DecodeError::DuplicateField(names.tag)),
        (Some(Part::Content(_)), Some(Part::Content(_))) => Request::Fail(
            DecodeError::DuplicateField(names.content),
        ),
        (Some(Part::Tag(key)), Some(Part::Content(c))) => Request::Decode {
            key,
            payload: Some(c),
            tail: lead.third,
        },
        (Some(Part::Content(c)), Some(Part::Tag(key))) => Request::Decode {
            key,
            payload: Some(c),
            tail: lead.third,
        },
    }
}

/// Reads a positional record of at most two elements.
pub fn sequence_request<K, C>(first: Option<K>, second: Option<C>) -> (r: Request<K, C>)
    ensures
        r == positional_request(first, second),
{
    match first {
        None => Request::Fail(DecodeError::InvalidLength(0)),
        Some(key) => match second {
            None => Request::Fail(DecodeError::InvalidLength(1)),
            Some(c) => Request::Decode { key, payload: Some(c), tail: None },
        },
    }
}

/// Settles the result of a decode against the rest of the record.
pub fn conclude<K, T>(
    out: Result<T, DecodeError<K>>,
    tail: Option<TagOrContentField>,
    names: &TagContentOtherFieldVisitor,
) -> (r: Result<T, DecodeError<K>>)
    ensures
        r == concluded(out, tail, *names),
{
    match out {
        Err(e) => Err(e),
        Ok(v) => match tail {
            None => Ok(v),
            Some(which) => Err(DecodeError::DuplicateField(names.name_of(which))),
        },
    }
}

} // verus!

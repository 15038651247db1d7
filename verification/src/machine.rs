//! Reading an envelope field by field: the reader performs one action at a
//! time on its record and reports what came of it; the machine decides what
//! to do next.

use vstd::prelude::*;
use crate::error::DecodeError;
use crate::field::{TagContentOtherField, TagContentOtherFieldVisitor};

verus! {

/// Where the payload of a decode comes from.
#[derive(Debug, PartialEq, Eq)]
pub enum Source<C> {
    /// The value of the field just named, read from the record itself.
    Direct,
    /// A content field that stood before the tag and was buffered.
    Replay(C),
    /// Nothing: the record ended without a content field.
    Absent,
}

/// What the reader found when it did what it was asked to.
#[derive(Debug, PartialEq, Eq)]
pub enum Event<K, C, T> {
    /// The name of the next field, classified.
    Field(TagContentOtherField),
    /// The record has no further field.
    End,
    /// The value of the current field was discarded.
    Skipped,
    /// The value of the tag field, decoded as a key.
    Key(K),
    /// The value of the content field, buffered without interpreting it.
    Buffered(C),
    /// The decode function returned this value.
    Decoded(T),
}

/// What the reader is to do next.
#[derive(Debug, PartialEq, Eq)]
pub enum Action<K, C, T> {
    /// Read and classify the name of the next field.
    NextField,
    /// Discard the value of the current field.
    SkipValue,
    /// Decode the value of the current field as the key.
    ReadKey,
    /// Buffer the value of the current field.
    BufferContent,
    /// Resolve the decode function of `key` and apply it to the payload.
    Decode { key: K, source: Source<C> },
    /// Return this value: the record was read to its end.
    Finish(T),
    /// Return this error.
    Fail(DecodeError<K>),
}

/// What of the envelope has been read.
#[derive(Debug, PartialEq, Eq)]
pub enum Seen<K, C, T> {
    /// Neither tag nor content.
    Nothing,
    /// The tag, with this key; no content yet.
    Key(K),
    /// The content, buffered; no tag yet.
    Content(C),
    /// Both, and the payload decoded to this value.
    Value(T),
    /// Both; the decode of the payload is under way.
    Both,
    /// The reading is over.
    Closed,
}

/// The event that the machine waits for.
#[derive(Clone, Copy, Debug, PartialEq, Eq)]
pub enum Awaiting {
    /// `Field` or `End`.
    Name,
    /// `Skipped`.
    Skip,
    /// `Key`.
    Key,
    /// `Buffered`.
    Content,
    /// `Decoded`, with more of the record to come.
    Payload,
    /// `Decoded`, after the record has ended.
    LastPayload,
}

/// The state of one reading of one record.
#[derive(Debug)]
pub struct Machine<K, C, T> {
    pub names: TagContentOtherFieldVisitor,
    pub seen: Seen<K, C, T>,
    pub awaiting: Awaiting,
}

/// The message of the error that an event out of turn is answered with.
pub open spec fn out_of_turn() -> Seq<char> {
    "event does not answer the pending action"@
}

impl<K, C, T> Machine<K, C, T> {
    /// The state before anything was read; the first action is `NextField`.
    pub open spec fn initial(names: TagContentOtherFieldVisitor) -> Self {
        Machine { names, seen: Seen::Nothing, awaiting: Awaiting::Name }
    }

    /// The state in which `seen` was read and `awaiting` is waited for.
    pub open spec fn at(names: TagContentOtherFieldVisitor, seen: Seen<K, C, T>, awaiting: Awaiting) -> Self {
        Machine { names, seen, awaiting }
    }

    /// The state after the reading is over.
    pub open spec fn closed(names: TagContentOtherFieldVisitor) -> Self {
        Machine { names, seen: Seen::Closed, awaiting: Awaiting::Name }
    }

    /// The next state and the next action, where `event` is one that the
    /// machine waits for; `None` where it is not.
    pub open spec fn next(self, event: Event<K, C, T>) -> Option<(Self, Action<K, C, T>)> {
        let names = self.names;
        match (self.seen, self.awaiting, event) {
            (Seen::Closed, _, _) => None,
            (Seen::Both, Awaiting::Payload, Event::Decoded(v)) => Some(
                (Self::at(names, Seen::Value(v), Awaiting::Name), Action::NextField),
            ),
            (Seen::Both, Awaiting::LastPayload, Event::Decoded(v)) => Some(
                (Self::closed(names), Action::Finish(v)),
            ),
            (Seen::Both, _, _) => None,
            (seen, Awaiting::Skip, Event::Skipped) => Some(
                (Self::at(names, seen, Awaiting::Name), Action::NextField),
            ),
            (seen, Awaiting::Name, Event::Field(TagContentOtherField::Other)) => Some(
                (Self::at(names, seen, Awaiting::Skip), Action::SkipValue),
            ),
            (Seen::Nothing, Awaiting::Name, Event::Field(TagContentOtherField::Tag)) => Some(
                (Self::at(names, Seen::Nothing, Awaiting::Key), Action::ReadKey),
            ),
            (Seen::Nothing, Awaiting::Name, Event::Field(TagContentOtherField::Content)) => Some(
                (Self::at(names, Seen::Nothing, Awaiting::Content), Action::BufferContent),
            ),
            (Seen::Nothing, Awaiting::Name, Event::End) => Some(
                (Self::closed(names), Action::Fail(DecodeError::MissingField(names.tag))),
            ),
            (Seen::Nothing, Awaiting::Key, Event::Key(k)) => Some(
                (Self::at(names, Seen::Key(k), Awaiting::Name), Action::NextField),
            ),
            (Seen::Nothing, Awaiting::Content, Event::Buffered(c)) => Some(
                (Self::at(names, Seen::Content(c), Awaiting::Name), Action::NextField),
            ),
            (Seen::Key(_), Awaiting::Name, Event::Field(TagContentOtherField::Tag)) => Some(
                (Self::closed(names), Action::Fail(DecodeError::DuplicateField(names.tag))),
            ),
            (Seen::Key(k), Awaiting::Name, Event::Field(TagContentOtherField::Content)) => Some(
                (
                    Self::at(names, Seen::Both, Awaiting::Payload),
                    Action::Decode { key: k, source: Source::Direct },
                ),
            ),
            (Seen::Key(k), Awaiting::Name, Event::End) => Some(
                (
                    Self::at(names, Seen::Both, Awaiting::LastPayload),
                    Action::Decode { key: k, source: Source::Absent },
                ),
            ),
            (Seen::Content(_), Awaiting::Name, Event::Field(TagContentOtherField::Content)) => Some(
                (Self::closed(names), Action::Fail(DecodeError::DuplicateField(names.content))),
            ),
            (Seen::Content(c), Awaiting::Name, Event::Field(TagContentOtherField::Tag)) => Some(
                (Self::at(names, Seen::Content(c), Awaiting::Key), Action::ReadKey),
            ),
            (Seen::Content(_), Awaiting::Name, Event::End) => Some(
                (Self::closed(names), Action::Fail(DecodeError::MissingField(names.tag))),
            ),
            (Seen::Content(c), Awaiting::Key, Event::Key(k)) => Some(
                (
                    Self::at(names, Seen::Both, Awaiting::Payload),
                    Action::Decode { key: k, source: Source::Replay(c) },
                ),
            ),
            (Seen::Value(_), Awaiting::Name, Event::Field(TagContentOtherField::Tag)) => Some(
                (Self::closed(names), Action::Fail(DecodeError::DuplicateField(names.tag))),
            ),
            (Seen::Value(_), Awaiting::Name, Event::Field(TagContentOtherField::Content)) => Some(
                (Self::closed(names), Action::Fail(DecodeError::DuplicateField(names.content))),
            ),
            (Seen::Value(v), Awaiting::Name, Event::End) => Some((Self::closed(names), Action::Finish(v))),
            _ => None,
        }
    }

    /// Whether `event` is one that the machine waits for.
    pub open spec fn expects(self, event: Event<K, C, T>) -> bool {
        self.next(event) is Some
    }

    /// A machine for a record whose tag and content have these names. The
    /// reader starts with the action `NextField`.
    pub fn new(names: TagContentOtherFieldVisitor) -> (m: Self)
        ensures
            m == Self::initial(names),
    {
        Machine { names, seen: Seen::Nothing, awaiting: Awaiting::Name }
    }

    /// Takes what the reader found and says what it is to do next. An event
    /// that the machine does not wait for closes it with a `Custom` error.
    pub fn step(self, event: Event<K, C, T>) -> (r: (Self, Action<K, C, T>))
        ensures
            match self.next(event) {
                Some(n) => r == n,
                None => {
                    &&& r.0 == Self::closed(self.names)
                    &&& r.1 matches Action::Fail(DecodeError::Custom(message)) && message@ == out_of_turn()
                },
            },
    {
        let names = self.names;
        match (self.seen, self.awaiting, event) {
            (Seen::Both, Awaiting::Payload, Event::Decoded(v)) => (
                Machine { names, seen: Seen::Value(v), awaiting: Awaiting::Name },
                Action::NextField,
            ),
            (Seen::Both, Awaiting::LastPayload, Event::Decoded(v)) => (
                Machine { names, seen: Seen::Closed, awaiting: Awaiting::Name },
                Action::Finish(v),
            ),
            (Seen::Nothing, Awaiting::Skip, Event::Skipped) => (
                Machine { names, seen: Seen::Nothing, awaiting: Awaiting::Name },
                Action::NextField,
            ),
            (Seen::Key(k), Awaiting::Skip, Event::Skipped) => (
                Machine { names, seen: Seen::Key(k), awaiting: Awaiting::Name },
                Action::NextField,
            ),
            (Seen::Content(c), Awaiting::Skip, Event::Skipped) => (
                Machine { names, seen: Seen::Content(c), awaiting: Awaiting::Name },
                Action::NextField,
            ),
            (Seen::Value(v), Awaiting::Skip, Event::Skipped) => (
                Machine { names, seen: Seen::Value(v), awaiting: Awaiting::Name },
                Action::NextField,
            ),
            (Seen::Nothing, Awaiting::Name, Event::Field(TagContentOtherField::Other)) => (
                Machine { names, seen: Seen::Nothing, awaiting: Awaiting::Skip },
                Action::SkipValue,
            ),
            (Seen::Key(k), Awaiting::Name, Event::Field(TagContentOtherField::Other)) => (
                Machine { names, seen: Seen::Key(k), awaiting: Awaiting::Skip },
                Action::SkipValue,
            ),
            (Seen::Content(c), Awaiting::Name, Event::Field(TagContentOtherField::Other)) => (
                Machine { names, seen: Seen::Content(c), awaiting: Awaiting::Skip },
                Action::SkipValue,
            ),
            (Seen::Value(v), Awaiting::Name, Event::Field(TagContentOtherField::Other)) => (
                Machine { names, seen: Seen::Value(v), awaiting: Awaiting::Skip },
                Action::SkipValue,
            ),
            (Seen::Nothing, Awaiting::Name, Event::Field(TagContentOtherField::Tag)) => (
                Machine { names, seen: Seen::Nothing, awaiting: Awaiting::Key },
                Action::ReadKey,
            ),
            (Seen::Nothing, Awaiting::Name, Event::Field(TagContentOtherField::Content)) => (
                Machine { names, seen: Seen::Nothing, awaiting: Awaiting::Content },
                Action::BufferContent,
            ),
            (Seen::Nothing, Awaiting::Name, Event::End) => (
                Machine { names, seen: Seen::Closed, awaiting: Awaiting::Name },
                Action::Fail(DecodeError::MissingField(names.tag)),
            ),
            (Seen::Nothing, Awaiting::Key, Event::Key(k)) => (
                Machine { names, seen: Seen::Key(k), awaiting: Awaiting::Name },
                Action::NextField,
            ),
            (Seen::Nothing, Awaiting::Content, Event::Buffered(c)) => (
                Machine { names, seen: Seen::Content(c), awaiting: Awaiting::Name },
                Action::NextField,
            ),
            (Seen::Key(_), Awaiting::Name, Event::Field(TagContentOtherField::Tag)) => (
                Machine { names, seen: Seen::Closed, awaiting: Awaiting::Name },
                Action::Fail(DecodeError::DuplicateField(names.tag)),
            ),
            (Seen::Key(k), Awaiting::Name, Event::Field(TagContentOtherField::Content)) => (
                Machine { names, seen: Seen::Both, awaiting: Awaiting::Payload },
                Action::Decode { key: k, source: Source::Direct },
            ),
            (Seen::Key(k), Awaiting::Name, Event::End) => (
                Machine { names, seen: Seen::Both, awaiting: Awaiting::LastPayload },
                Action::Decode { key: k, source: Source::Absent },
            ),
            (Seen::Content(_), Awaiting::Name, Event::Field(TagContentOtherField::Content)) => (
                Machine { names, seen: Seen::Closed, awaiting: Awaiting::Name },
                Action::Fail(DecodeError::DuplicateField(names.content)),
            ),
            (Seen::Content(c), Awaiting::Name, Event::Field(TagContentOtherField::Tag)) => (
                Machine { names, seen: Seen::Content(c), awaiting: Awaiting::Key },
                Action::ReadKey,
            ),
            (Seen::Content(_), Awaiting::Name, Event::End) => (
                Machine { names, seen: Seen::Closed, awaiting: Awaiting::Name },
                Action::Fail(DecodeError::MissingField(names.tag)),
            ),
            (Seen::Content(c), Awaiting::Key, Event::Key(k)) => (
                Machine { names, seen: Seen::Both, awaiting: Awaiting::Payload },
                Action::Decode { key: k, source: Source::Replay(c) },
            ),
            (Seen::Value(_), Awaiting::Name, Event::Field(TagContentOtherField::Tag)) => (
                Machine { names, seen: Seen::Closed, awaiting: Awaiting::Name },
                Action::Fail(DecodeError::DuplicateField(names.tag)),
            ),
            (Seen::Value(_), Awaiting::Name, Event::Field(TagContentOtherField::Content)) => (
                Machine { names, seen: Seen::Closed, awaiting: Awaiting::Name },
                Action::Fail(DecodeError::DuplicateField(names.content)),
            ),
            (Seen::Value(v), Awaiting::Name, Event::End) => (
                Machine { names, seen: Seen::Closed, awaiting: Awaiting::Name },
                Action::Finish(v),
            ),
            _ => (
                Machine { names, seen: Seen::Closed, awaiting: Awaiting::Name },
                Action::Fail(DecodeError::Custom("event does not answer the pending action".to_owned())),
            ),
        }
    }
}

/// The element of a positional record at `index`, or `InvalidLength` with
/// that index where the record ended before it.
pub fn expect_element<K, X>(index: usize, element: Option<X>) -> (r: Result<X, DecodeError<K>>)
    ensures
        r == (match element {
            Some(x) => Ok::<X, DecodeError<K>>(x),
            None => Err::<X, DecodeError<K>>(DecodeError::InvalidLength(index)),
        }),
{
    match element {
        Some(x) => Ok(x),
        None => Err(DecodeError::InvalidLength(index)),
    }
}

} // verus!

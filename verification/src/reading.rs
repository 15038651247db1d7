//! A reading of a record by the machine: what ties the machine's state to
//! the record that is being read, and why each step keeps that tie.

use vstd::prelude::*;
use crate::envelope::{relevant, request, Field, Part, Request};
use crate::error::DecodeError;
use crate::field::TagContentOtherFieldVisitor;
use crate::machine::{Action, Awaiting, Event, Machine, Seen, Source};
use crate::visitor::answers;

verus! {

/// How far a reading has come: what `seen` holds of the envelope fields
/// `all` of the record, of which the fields `rem` are still to be read.
pub open spec fn progress<F, K, C, T>(
    f: F,
    names: TagContentOtherFieldVisitor,
    seen: Seen<K, C, T>,
    all: Seq<Part<K, C>>,
    rem: Seq<Field<K, C>>,
) -> bool where F: Fn(K, Option<C>) -> Result<T, DecodeError<K>> {
    match seen {
        Seen::Nothing => all == relevant(rem),
        Seen::Key(k) => all == seq![Part::Tag(k)] + relevant(rem),
        Seen::Content(c) => all == seq![Part::Content(c)] + relevant(rem),
        Seen::Value(v) => {
            &&& all.len() >= 2
            &&& all.skip(2) == relevant(rem)
            &&& match request(all, names) {
                Request::Decode { key, payload, tail } => call_ensures(f, (key, payload), Ok::<T, DecodeError<K>>(v)),
                Request::Fail(_) => false,
            }
        },
        _ => false,
    }
}

/// Whether the machine `m` and the action it asked for fit a record with
/// the envelope fields `all` of which `rem` is still to be read.
pub open spec fn on_track<F, K, C, T>(
    f: F,
    m: Machine<K, C, T>,
    action: Action<K, C, T>,
    all: Seq<Part<K, C>>,
    rem: Seq<Field<K, C>>,
) -> bool where F: Fn(K, Option<C>) -> Result<T, DecodeError<K>> {
    match action {
        Action::NextField => m.awaiting == Awaiting::Name && progress(f, m.names, m.seen, all, rem),
        Action::SkipValue => {
            &&& m.awaiting == Awaiting::Skip
            &&& rem.len() > 0
            &&& rem[0] is Other
            &&& progress(f, m.names, m.seen, all, rem)
        },
        Action::ReadKey => {
            &&& m.awaiting == Awaiting::Key
            &&& rem.len() > 0
            &&& rem[0] is Tag
            &&& (m.seen is Nothing || m.seen is Content)
            &&& progress(f, m.names, m.seen, all, rem)
        },
        Action::BufferContent => {
            &&& m.awaiting == Awaiting::Content
            &&& rem.len() > 0
            &&& rem[0] is Content
            &&& m.seen is Nothing
            &&& progress(f, m.names, m.seen, all, rem)
        },
        Action::Decode { key, source } => m.seen is Both && match source {
            Source::Direct => {
                &&& m.awaiting == Awaiting::Payload
                &&& rem.len() > 0
                &&& rem[0] is Content
                &&& all == seq![Part::Tag(key)] + relevant(rem)
            },
            Source::Replay(c) => {
                &&& m.awaiting == Awaiting::Payload
                &&& all == seq![Part::Content(c), Part::Tag(key)] + relevant(rem)
            },
            Source::Absent => {
                &&& m.awaiting == Awaiting::LastPayload
                &&& rem.len() == 0
                &&& all == seq![Part::<K, C>::Tag(key)]
            },
        },
        Action::Finish(v) => answers(f, m.names, request(all, m.names), Ok::<T, DecodeError<K>>(v)),
        Action::Fail(e) => answers(f, m.names, request(all, m.names), Err::<T, DecodeError<K>>(e)),
    }
}

/// Whether `event` is what a reader finds that carries out `action` on a
/// record of which `before` was still to be read, and `after` is what is
/// left to read then.
pub open spec fn found<F, K, C, T>(
    f: F,
    action: Action<K, C, T>,
    event: Event<K, C, T>,
    before: Seq<Field<K, C>>,
    after: Seq<Field<K, C>>,
) -> bool where F: Fn(K, Option<C>) -> Result<T, DecodeError<K>> {
    match action {
        Action::NextField => after == before && event == (if before.len() == 0 {
            Event::<K, C, T>::End
        } else {
            Event::<K, C, T>::Field(before[0].class())
        }),
        Action::SkipValue => before.len() > 0 && after == before.skip(1) && event == Event::<K, C, T>::Skipped,
        Action::ReadKey => before.len() > 0 && after == before.skip(1) && (before[0] matches Field::Tag(k)
            && event == Event::<K, C, T>::Key(k)),
        Action::BufferContent => before.len() > 0 && after == before.skip(1) && (before[0] matches Field::Content(c)
            && event == Event::<K, C, T>::Buffered(c)),
        Action::Decode { key, source } => event matches Event::Decoded(v) && match source {
            Source::Direct => before.len() > 0 && after == before.skip(1) && (before[0] matches Field::Content(c)
                && call_ensures(f, (key, Some(c)), Ok::<T, DecodeError<K>>(v))),
            Source::Replay(c) => after == before && call_ensures(f, (key, Some(c)), Ok::<T, DecodeError<K>>(v)),
            Source::Absent => after == before && call_ensures(f, (key, None::<C>), Ok::<T, DecodeError<K>>(v)),
        },
        _ => false,
    }
}

/// How many further actions an action can be followed by before a field of
/// the record is used up.
pub open spec fn rank<K, C, T>(action: Action<K, C, T>) -> nat {
    match action {
        Action::Decode { key, source: Source::Replay(_) } => 4,
        Action::NextField => 3,
        Action::Finish(_) | Action::Fail(_) => 1,
        _ => 2,
    }
}

/// A reading starts on track: the machine in its first state, with the
/// first field name asked for, fits every record.
pub proof fn lemma_reading_starts_on_track<F, K, C, T>(
    f: F,
    names: TagContentOtherFieldVisitor,
    fields: Seq<Field<K, C>>,
) where F: Fn(K, Option<C>) -> Result<T, DecodeError<K>>
    ensures
        on_track(f, Machine::<K, C, T>::initial(names), Action::<K, C, T>::NextField, relevant(fields), fields),
{
}

/// A reading on track ends in the record's answer: what the machine lets
/// the reader return is what the record asks for.
pub proof fn lemma_reading_ends_in_answer<F, K, C, T>(
    f: F,
    m: Machine<K, C, T>,
    action: Action<K, C, T>,
    fields: Seq<Field<K, C>>,
    rem: Seq<Field<K, C>>,
) where F: Fn(K, Option<C>) -> Result<T, DecodeError<K>>
    requires
        on_track(f, m, action, relevant(fields), rem),
    ensures
        action matches Action::Finish(v) ==> answers(
            f,
            m.names,
            request(relevant(fields), m.names),
            Ok::<T, DecodeError<K>>(v),
        ),
        action matches Action::Fail(e) ==> answers(
            f,
            m.names,
            request(relevant(fields), m.names),
            Err::<T, DecodeError<K>>(e),
        ),
{
}

/// The machine follows the record: where a reader has carried out the
/// action that the machine asked for and reports what it found, the
/// machine's next state and action fit the rest of the record again, and
/// the reading comes nearer to its end.
pub proof fn lemma_step_keeps_track<F, K, C, T>(
    f: F,
    m: Machine<K, C, T>,
    action: Action<K, C, T>,
    event: Event<K, C, T>,
    all: Seq<Part<K, C>>,
    before: Seq<Field<K, C>>,
    after: Seq<Field<K, C>>,
) where F: Fn(K, Option<C>) -> Result<T, DecodeError<K>>
    requires
        on_track(f, m, action, all, before),
        found(f, action, event, before, after),
    ensures
        m.next(event) is Some,
        on_track(f, m.next(event)->Some_0.0, m.next(event)->Some_0.1, all, after),
        m.next(event)->Some_0.0.names == m.names,
        after.len() < before.len() || (after.len() == before.len() && rank(m.next(event)->Some_0.1) < rank(
            action,
        )),
{
    if before.len() > 0 {
        assert(relevant(before) == match before[0].part() {
            Some(p) => seq![p] + relevant(before.skip(1)),
            None => relevant(before.skip(1)),
        });
    }
    match action {
        Action::Decode { key, source } => {
            match source {
                Source::Direct => {
                    let c = before[0]->Content_0;
                    assert(all =~= seq![Part::Tag(key), Part::Content(c)] + relevant(after));
                    assert(all.skip(2) =~= relevant(after));
                },
                Source::Replay(c) => {
                    assert(all.skip(2) =~= relevant(after));
                },
                Source::Absent => {},
            }
        },
        Action::NextField => {
            if m.seen is Value && before.len() > 0 && !(before[0] is Other) {
                assert(all.skip(2)[0] == all[2]);
            }
        },
        Action::ReadKey => {
            if let Seen::Content(c) = m.seen {
                assert(all =~= seq![Part::Content(c), Part::Tag(before[0]->Tag_0)] + relevant(after));
            }
        },
        _ => {},
    }
}

} // verus!

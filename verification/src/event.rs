//! Stream events and the sticky bit mask that accumulates them.

use vstd::prelude::*;

verus! {

/// One of the two directions of a byte-stream channel.
#[derive(Clone, Copy, Debug, PartialEq, Eq, Hash, Structural)]
pub enum Direction {
    Read,
    Write,
}

/// A notification that a native stream delivers to its client.
#[derive(Clone, Copy, Debug, PartialEq, Eq, Hash, Structural)]
pub enum StreamEvent {
    OpenCompleted,
    HasBytesAvailable,
    CanAcceptBytes,
    ErrorOccurred,
    EndEncountered,
}

/// Mask bit of `OpenCompleted`.
pub const OPEN_COMPLETED: usize = 1;

/// Mask bit of `HasBytesAvailable`.
pub const HAS_BYTES_AVAILABLE: usize = 2;

/// Mask bit of `CanAcceptBytes`.
pub const CAN_ACCEPT_BYTES: usize = 4;

/// Mask bit of `ErrorOccurred`.
pub const ERROR_OCCURRED: usize = 8;

/// Mask bit of `EndEncountered`.
pub const END_ENCOUNTERED: usize = 16;

/// The mask a stream client registers for: all five events.
pub const REGISTERED_EVENTS: usize = 31;

impl StreamEvent {
    /// The mask bit that stands for this event.
    pub open spec fn spec_bit(self) -> usize {
        match self {
            StreamEvent::OpenCompleted => OPEN_COMPLETED,
            StreamEvent::HasBytesAvailable => HAS_BYTES_AVAILABLE,
            StreamEvent::CanAcceptBytes => CAN_ACCEPT_BYTES,
            StreamEvent::ErrorOccurred => ERROR_OCCURRED,
            StreamEvent::EndEncountered => END_ENCOUNTERED,
        }
    }

    /// The mask bit that stands for this event.
    #[verifier::when_used_as_spec(spec_bit)]
    pub fn bit(self) -> (b: usize)
        ensures
            b == self.spec_bit(),
    {
        match self {
            StreamEvent::OpenCompleted => OPEN_COMPLETED,
            StreamEvent::HasBytesAvailable => HAS_BYTES_AVAILABLE,
            StreamEvent::CanAcceptBytes => CAN_ACCEPT_BYTES,
            StreamEvent::ErrorOccurred => ERROR_OCCURRED,
            StreamEvent::EndEncountered => END_ENCOUNTERED,
        }
    }

    /// Whether this event ends the life of the channel.
    pub open spec fn spec_is_terminal(self) -> bool {
        self is ErrorOccurred || self is EndEncountered
    }

    /// Whether this event ends the life of the channel.
    #[verifier::when_used_as_spec(spec_is_terminal)]
    pub fn is_terminal(self) -> (t: bool)
        ensures
            t == self.spec_is_terminal(),
    {
        match self {
            StreamEvent::ErrorOccurred => true,
            StreamEvent::EndEncountered => true,
            _ => false,
        }
    }

    /// Whether a task suspended on `direction` has to be resumed when this
    /// event arrives: readiness of its own direction, or a terminal event.
    pub open spec fn spec_concerns(self, direction: Direction) -> bool {
        self.spec_is_terminal() || match direction {
            Direction::Read => self is HasBytesAvailable,
            Direction::Write => self is CanAcceptBytes,
        }
    }

    /// Whether a task suspended on `direction` has to be resumed when this
    /// event arrives.
    #[verifier::when_used_as_spec(spec_concerns)]
    pub fn concerns(self, direction: Direction) -> (c: bool)
        ensures
            c == self.spec_concerns(direction),
    {
        match (self, direction) {
            (StreamEvent::ErrorOccurred, _) => true,
            (StreamEvent::EndEncountered, _) => true,
            (StreamEvent::HasBytesAvailable, Direction::Read) => true,
            (StreamEvent::CanAcceptBytes, Direction::Write) => true,
            _ => false,
        }
    }
}

/// Whether some event in `events` concerns a task suspended on `direction`.
pub open spec fn concerns_any(events: Set<StreamEvent>, direction: Direction) -> bool {
    exists|e: StreamEvent| events.contains(e) && e.spec_concerns(direction)
}

/// Whether `events` holds a terminal event.
pub open spec fn has_terminal(events: Set<StreamEvent>) -> bool {
    events.contains(StreamEvent::ErrorOccurred) || events.contains(StreamEvent::EndEncountered)
}

/// A set of stream events, kept as the bit mask in which the native layer
/// delivers them. Bits outside the five events are carried along and mean
/// nothing.
#[derive(Clone, Copy, Debug, PartialEq, Eq, Hash, Structural)]
pub struct EventFlags {
    bits: usize,
}

/// The events whose bit is set in the raw mask `bits`.
pub open spec fn events_of(bits: usize) -> Set<StreamEvent> {
    Set::new(|e: StreamEvent| bits & e.spec_bit() != 0)
}

impl View for EventFlags {
    type V = Set<StreamEvent>;

    /// The events whose bit is set.
    open spec fn view(&self) -> Set<StreamEvent> {
        events_of(self.spec_bits())
    }
}

/// OR-ing two masks sets a bit exactly when one of them has it.
proof fn lemma_or_tests(a: usize, b: usize, m: usize)
    by (bit_vector)
    ensures
        ((a | b) & m != 0) == ((a & m != 0) || (b & m != 0)),
{
}

/// The five event bits are pairwise disjoint and none is zero.
proof fn lemma_bits_disjoint()
    by (bit_vector)
    ensures
        1usize & 1usize != 0,
        1usize & 2usize == 0,
        1usize & 4usize == 0,
        1usize & 8usize == 0,
        1usize & 16usize == 0,
        2usize & 1usize == 0,
        2usize & 2usize != 0,
        2usize & 4usize == 0,
        2usize & 8usize == 0,
        2usize & 16usize == 0,
        4usize & 1usize == 0,
        4usize & 2usize == 0,
        4usize & 4usize != 0,
        4usize & 8usize == 0,
        4usize & 16usize == 0,
        8usize & 1usize == 0,
        8usize & 2usize == 0,
        8usize & 4usize == 0,
        8usize & 8usize != 0,
        8usize & 16usize == 0,
        16usize & 1usize == 0,
        16usize & 2usize == 0,
        16usize & 4usize == 0,
        16usize & 8usize == 0,
        16usize & 16usize != 0,
        0usize & 1usize == 0,
        0usize & 2usize == 0,
        0usize & 4usize == 0,
        0usize & 8usize == 0,
        0usize & 16usize == 0,
        31usize & 1usize != 0,
        31usize & 2usize != 0,
        31usize & 4usize != 0,
        31usize & 8usize != 0,
        31usize & 16usize != 0,
{
}

/// A raw mask that is the bit of one event holds that event and no other.
pub proof fn lemma_events_of_bit(event: StreamEvent)
    ensures
        events_of(event.spec_bit()) == set![event],
{
    lemma_bits_disjoint();
    assert(events_of(event.spec_bit()) =~= set![event]);
}

/// The raw mask zero holds no event, and the registered mask holds all.
pub proof fn lemma_events_of_bounds()
    ensures
        events_of(0) == Set::<StreamEvent>::empty(),
        forall|e: StreamEvent| events_of(REGISTERED_EVENTS).contains(e),
{
    lemma_bits_disjoint();
    assert(events_of(0) =~= Set::<StreamEvent>::empty());
}

/// OR-ing two raw masks gives the events of both.
pub proof fn lemma_events_of_or(a: usize, b: usize)
    ensures
        events_of(a | b) == events_of(a).union(events_of(b)),
{
    assert forall|e: StreamEvent|
        events_of(a | b).contains(e) == (events_of(a).contains(e) || events_of(b).contains(
            e,
        )) by {
        lemma_or_tests(a, b, e.spec_bit());
    }
    assert(events_of(a | b) =~= events_of(a).union(events_of(b)));
}

/// Events concern a direction exactly when its own readiness event or a
/// terminal event is among them.
pub proof fn lemma_concerns_any(events: Set<StreamEvent>, direction: Direction)
    ensures
        concerns_any(events, direction) == (has_terminal(events) || match direction {
            Direction::Read => events.contains(StreamEvent::HasBytesAvailable),
            Direction::Write => events.contains(StreamEvent::CanAcceptBytes),
        }),
{
    let own = match direction {
        Direction::Read => StreamEvent::HasBytesAvailable,
        Direction::Write => StreamEvent::CanAcceptBytes,
    };
    if events.contains(StreamEvent::ErrorOccurred) {
        assert(StreamEvent::ErrorOccurred.spec_concerns(direction));
    } else if events.contains(StreamEvent::EndEncountered) {
        assert(StreamEvent::EndEncountered.spec_concerns(direction));
    } else if events.contains(own) {
        assert(own.spec_concerns(direction));
    }
}

impl EventFlags {
    /// The raw mask.
    pub closed spec fn spec_bits(&self) -> usize {
        self.bits
    }

    /// The mask with no event in it.
    pub fn empty() -> (flags: EventFlags)
        ensures
            flags@ == Set::<StreamEvent>::empty(),
            flags.spec_bits() == 0,
    {
        let flags = EventFlags { bits: 0 };
        proof {
            lemma_bits_disjoint();
            assert(flags@ =~= Set::<StreamEvent>::empty());
        }
        flags
    }

    /// The mask with all five events in it.
    pub fn all() -> (flags: EventFlags)
        ensures
            forall|e: StreamEvent| flags@.contains(e),
            flags.spec_bits() == REGISTERED_EVENTS,
    {
        let flags = EventFlags { bits: REGISTERED_EVENTS };
        proof {
            lemma_bits_disjoint();
        }
        flags
    }

    /// Takes a mask as the native layer hands it to a callback.
    pub fn from_bits(bits: usize) -> (flags: EventFlags)
        ensures
            flags.spec_bits() == bits,
            flags@ == events_of(bits),
    {
        EventFlags { bits }
    }

    /// The mask with exactly one event in it.
    pub fn single(event: StreamEvent) -> (flags: EventFlags)
        ensures
            flags@ == set![event],
            flags.spec_bits() == event.spec_bit(),
    {
        let flags = EventFlags { bits: event.bit() };
        proof {
            lemma_bits_disjoint();
            assert(flags@ =~= set![event]);
        }
        flags
    }

    /// The raw mask.
    #[verifier::when_used_as_spec(spec_bits)]
    pub fn bits(&self) -> (bits: usize)
        ensures
            bits == self.spec_bits(),
    {
        self.bits
    }

    /// Whether `event` is in the set.
    pub fn contains(&self, event: StreamEvent) -> (found: bool)
        ensures
            found == self@.contains(event),
    {
        self.bits & event.bit() != 0
    }

    /// Whether no event is in the set.
    pub fn is_empty(&self) -> (none: bool)
        ensures
            none == (self@ == Set::<StreamEvent>::empty()),
    {
        let none = !self.contains(StreamEvent::OpenCompleted)
            && !self.contains(StreamEvent::HasBytesAvailable)
            && !self.contains(StreamEvent::CanAcceptBytes)
            && !self.contains(StreamEvent::ErrorOccurred)
            && !self.contains(StreamEvent::EndEncountered);
        proof {
            if none {
                assert(self@ =~= Set::<StreamEvent>::empty());
            }
        }
        none
    }

    /// The events of both masks.
    pub fn union(self, other: EventFlags) -> (both: EventFlags)
        ensures
            both@ == self@.union(other@),
            both.spec_bits() == self.spec_bits() | other.spec_bits(),
    {
        let both = EventFlags { bits: self.bits | other.bits };
        proof {
            assert forall|e: StreamEvent|
                both@.contains(e) == (self@.contains(e) || other@.contains(e)) by {
                lemma_or_tests(self.bits, other.bits, e.spec_bit());
            }
            assert(both@ =~= self@.union(other@));
        }
        both
    }

    /// Adds the events of `other` to this mask. Nothing is ever taken out.
    pub fn insert(&mut self, other: EventFlags)
        ensures
            final(self)@ == old(self)@.union(other@),
            final(self).spec_bits() == old(self).spec_bits() | other.spec_bits(),
    {
        *self = self.union(other);
    }

    /// Whether a terminal event is in the set.
    pub fn is_terminal(&self) -> (terminal: bool)
        ensures
            terminal == has_terminal(self@),
    {
        self.contains(StreamEvent::ErrorOccurred) || self.contains(StreamEvent::EndEncountered)
    }

    /// Whether some event in the set concerns a task suspended on
    /// `direction`.
    pub fn concerns(&self, direction: Direction) -> (hit: bool)
        ensures
            hit == concerns_any(self@, direction),
    {
        let ready = match direction {
            Direction::Read => self.contains(StreamEvent::HasBytesAvailable),
            Direction::Write => self.contains(StreamEvent::CanAcceptBytes),
        };
        let hit = ready || self.is_terminal();
        proof {
            if hit {
                let witness = if self@.contains(StreamEvent::ErrorOccurred) {
                    StreamEvent::ErrorOccurred
                } else if self@.contains(StreamEvent::EndEncountered) {
                    StreamEvent::EndEncountered
                } else if direction is Read {
                    StreamEvent::HasBytesAvailable
                } else {
                    StreamEvent::CanAcceptBytes
                };
                assert(self@.contains(witness) && witness.spec_concerns(direction));
            }
        }
        hit
    }
}

} // verus!

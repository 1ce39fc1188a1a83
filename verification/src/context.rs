//! The state that the polling tasks and the native callbacks share.
//!
//! The context is plain data behind `&mut`: whoever shares it between
//! threads puts it behind a lock, which makes every method here one atomic
//! exchange.

use crate::error::ChannelError;
use crate::event::{concerns_any, Direction, EventFlags, StreamEvent};
use crate::resource::OwnedResource;
use std::task::Waker;
use vstd::prelude::*;

verus! {

/// `std::task::Waker`, carried through and never looked into.
#[verifier::external_type_specification]
#[verifier::external_body]
pub struct ExWaker(Waker);

/// Calls `Waker::wake`, which consumes the waker and reschedules the task
/// behind it. Nothing is claimed of the call.
#[verifier::external_body]
fn wake_waker(waker: Waker) {
    waker.wake()
}

/// Where a channel is in its life.
#[derive(Clone, Copy, Debug, PartialEq, Eq, Hash, Structural)]
pub enum ChannelState {
    /// Constructed; the event loop has not begun to register.
    Created,
    /// The event loop registers and opens the native streams.
    Opening,
    /// Both native streams have reported that they are open.
    Open,
    /// Torn down without a failure.
    Closed,
    /// A failure was recorded. Nothing leads out of this state.
    Errored,
}

impl ChannelState {
    /// How far a channel in this state has come: a channel only ever moves
    /// to a state that is at least as far.
    pub open spec fn rank(self) -> nat {
        match self {
            ChannelState::Created => 0,
            ChannelState::Opening => 1,
            ChannelState::Open => 2,
            ChannelState::Closed => 3,
            ChannelState::Errored => 3,
        }
    }

    /// Whether nothing leads out of this state.
    pub open spec fn spec_is_terminal(self) -> bool {
        self is Closed || self is Errored
    }

    /// Whether nothing leads out of this state.
    #[verifier::when_used_as_spec(spec_is_terminal)]
    pub fn is_terminal(self) -> (terminal: bool)
        ensures
            terminal == self.spec_is_terminal(),
    {
        match self {
            ChannelState::Closed => true,
            ChannelState::Errored => true,
            _ => false,
        }
    }
}

/// What a shared context holds, as mathematics.
pub struct ContextModel {
    /// Every event recorded so far.
    pub events: Set<StreamEvent>,
    /// The waker of the task suspended on reading, if one is.
    pub read_waker: Option<Waker>,
    /// The waker of the task suspended on writing, if one is.
    pub write_waker: Option<Waker>,
    /// The first failure recorded, if any was.
    pub error: Option<ChannelError>,
    /// Whether the read stream has reported that it is open.
    pub read_opened: bool,
    /// Whether the write stream has reported that it is open.
    pub write_opened: bool,
    /// Whether the event loop has begun to register.
    pub opening: bool,
    /// How many references the native side holds.
    pub native_refs: nat,
    /// The handle of the transport resource that the context owns, if it
    /// owns one.
    pub resource: Option<i32>,
}

impl ContextModel {
    /// A context on which nothing has happened yet.
    pub open spec fn initial() -> ContextModel {
        ContextModel {
            events: Set::empty(),
            read_waker: None,
            write_waker: None,
            error: None,
            read_opened: false,
            write_opened: false,
            opening: false,
            native_refs: 0,
            resource: None,
        }
    }

    /// A context on which nothing has happened yet and which owns the
    /// transport resource `handle`.
    pub open spec fn owning(handle: i32) -> ContextModel {
        ContextModel { resource: Some(handle), ..Self::initial() }
    }

    /// The waker stored for `direction`.
    pub open spec fn waker(self, direction: Direction) -> Option<Waker> {
        match direction {
            Direction::Read => self.read_waker,
            Direction::Write => self.write_waker,
        }
    }

    /// Whether the stream of `direction` has reported that it is open.
    pub open spec fn opened(self, direction: Direction) -> bool {
        match direction {
            Direction::Read => self.read_opened,
            Direction::Write => self.write_opened,
        }
    }

    /// The state of the channel: a recorded failure decides first, then the
    /// two open reports, then whether registration has begun.
    pub open spec fn state(self) -> ChannelState {
        if self.error is Some {
            ChannelState::Errored
        } else if self.read_opened && self.write_opened {
            ChannelState::Open
        } else if self.opening {
            ChannelState::Opening
        } else {
            ChannelState::Created
        }
    }

    /// The context once the event loop has begun to register.
    pub open spec fn begin_opening(self) -> ContextModel {
        ContextModel { opening: true, ..self }
    }

    /// The context once `flags` from the stream of `source` are recorded:
    /// the events are added, an open report is noted for its stream, an
    /// error event records a terminal failure unless one is recorded
    /// already, and each slot whose waker the events concern is emptied.
    pub open spec fn record_event(self, source: Direction, flags: Set<StreamEvent>) -> ContextModel {
        ContextModel {
            events: self.events.union(flags),
            read_waker: if concerns_any(flags, Direction::Read) {
                None
            } else {
                self.read_waker
            },
            write_waker: if concerns_any(flags, Direction::Write) {
                None
            } else {
                self.write_waker
            },
            error: if self.error is None && flags.contains(StreamEvent::ErrorOccurred) {
                Some(ChannelError::TerminalNativeError)
            } else {
                self.error
            },
            read_opened: self.read_opened || (source is Read && flags.contains(
                StreamEvent::OpenCompleted,
            )),
            write_opened: self.write_opened || (source is Write && flags.contains(
                StreamEvent::OpenCompleted,
            )),
            opening: self.opening,
            native_refs: self.native_refs,
            resource: self.resource,
        }
    }

    /// The wakers that recording `flags` takes out of their slots.
    pub open spec fn fired_by_event(self, flags: Set<StreamEvent>) -> Fired {
        Fired {
            read: if concerns_any(flags, Direction::Read) {
                self.read_waker
            } else {
                None
            },
            write: if concerns_any(flags, Direction::Write) {
                self.write_waker
            } else {
                None
            },
        }
    }

    /// The context once `error` is recorded: the first failure stays, and
    /// both slots are emptied so that no task waits on a dead channel.
    pub open spec fn record_error(self, error: ChannelError) -> ContextModel {
        ContextModel {
            read_waker: None,
            write_waker: None,
            error: if self.error is None {
                Some(error)
            } else {
                self.error
            },
            ..self
        }
    }

    /// The context once `waker` is stored for `direction`.
    pub open spec fn register_waker(self, direction: Direction, waker: Waker) -> ContextModel {
        match direction {
            Direction::Read => ContextModel { read_waker: Some(waker), ..self },
            Direction::Write => ContextModel { write_waker: Some(waker), ..self },
        }
    }

    /// The context once the native side holds one reference more.
    pub open spec fn retain(self) -> ContextModel {
        ContextModel { native_refs: self.native_refs + 1, ..self }
    }

    /// The context once the native side holds one reference less.
    pub open spec fn release(self) -> ContextModel {
        ContextModel { native_refs: (self.native_refs - 1) as nat, ..self }
    }
}

/// The wakers that one update took out of their slots. Each is there to be
/// invoked once; `wake` does so.
#[derive(Debug)]
pub struct Fired {
    pub read: Option<Waker>,
    pub write: Option<Waker>,
}

impl Fired {
    /// How many wakers there are.
    pub open spec fn spec_count(self) -> nat {
        (if self.read is Some {
            1nat
        } else {
            0nat
        }) + (if self.write is Some {
            1nat
        } else {
            0nat
        })
    }

    /// No waker at all.
    pub fn none() -> (fired: Fired)
        ensures
            fired.read is None,
            fired.write is None,
    {
        Fired { read: None, write: None }
    }

    /// How many wakers there are.
    pub fn count(&self) -> (n: u8)
        ensures
            n == self.spec_count(),
    {
        let r: u8 = if self.read.is_some() {
            1
        } else {
            0
        };
        let w: u8 = if self.write.is_some() {
            1
        } else {
            0
        };
        r + w
    }

    /// Invokes each waker once, consuming it, and says how many there were.
    pub fn wake(self) -> (woken: u8)
        ensures
            woken == self.spec_count(),
    {
        let mut woken: u8 = 0;
        if let Some(waker) = self.read {
            wake_waker(waker);
            woken = woken + 1;
        }
        if let Some(waker) = self.write {
            wake_waker(waker);
            woken = woken + 1;
        }
        woken
    }
}

/// The cell that the polling tasks and the native callbacks share: the
/// sticky events, one waker slot for each direction, the first failure, and
/// the count of references that the native side holds.
#[derive(Debug)]
pub struct SharedContext {
    events: EventFlags,
    read_waker: Option<Waker>,
    write_waker: Option<Waker>,
    error: Option<ChannelError>,
    read_opened: bool,
    write_opened: bool,
    opening: bool,
    native_refs: usize,
    resource: Option<OwnedResource>,
}

impl View for SharedContext {
    type V = ContextModel;

    closed spec fn view(&self) -> ContextModel {
        ContextModel {
            events: self.events@,
            read_waker: self.read_waker,
            write_waker: self.write_waker,
            error: self.error,
            read_opened: self.read_opened,
            write_opened: self.write_opened,
            opening: self.opening,
            native_refs: self.native_refs as nat,
            resource: match self.resource {
                Some(owned) => Some(owned@),
                None => None,
            },
        }
    }
}

impl SharedContext {
    /// A context on which nothing has happened yet.
    pub fn new() -> (context: SharedContext)
        ensures
            context@ == ContextModel::initial(),
    {
        SharedContext {
            events: EventFlags::empty(),
            read_waker: None,
            write_waker: None,
            error: None,
            read_opened: false,
            write_opened: false,
            opening: false,
            native_refs: 0,
            resource: None,
        }
    }

    /// A context on which nothing has happened yet and which owns the
    /// transport resource `resource` from now until it is closed.
    pub fn owning(resource: OwnedResource) -> (context: SharedContext)
        ensures
            context@ == ContextModel::owning(resource@),
    {
        SharedContext {
            events: EventFlags::empty(),
            read_waker: None,
            write_waker: None,
            error: None,
            read_opened: false,
            write_opened: false,
            opening: false,
            native_refs: 0,
            resource: Some(resource),
        }
    }

    /// The handle of the transport resource that the context owns, for the
    /// calls that use the resource.
    pub fn resource_handle(&self) -> (handle: Option<i32>)
        ensures
            handle == self@.resource,
    {
        match &self.resource {
            Some(owned) => Some(owned.handle()),
            None => None,
        }
    }

    /// Every event recorded so far.
    pub fn events(&self) -> (events: EventFlags)
        ensures
            events@ == self@.events,
    {
        self.events
    }

    /// Whether `event` was ever recorded.
    pub fn has_event(&self, event: StreamEvent) -> (seen: bool)
        ensures
            seen == self@.events.contains(event),
    {
        self.events.contains(event)
    }

    /// The first failure recorded, if any was.
    pub fn error(&self) -> (error: Option<ChannelError>)
        ensures
            error == self@.error,
    {
        self.error
    }

    /// Whether a task is suspended on `direction`.
    pub fn has_waker(&self, direction: Direction) -> (waiting: bool)
        ensures
            waiting == (self@.waker(direction) is Some),
    {
        match direction {
            Direction::Read => self.read_waker.is_some(),
            Direction::Write => self.write_waker.is_some(),
        }
    }

    /// Whether the stream of `direction` has reported that it is open.
    pub fn opened(&self, direction: Direction) -> (open: bool)
        ensures
            open == self@.opened(direction),
    {
        match direction {
            Direction::Read => self.read_opened,
            Direction::Write => self.write_opened,
        }
    }

    /// How many references the native side holds.
    pub fn native_refs(&self) -> (held: usize)
        ensures
            held == self@.native_refs,
    {
        self.native_refs
    }

    /// The state of the channel.
    pub fn state(&self) -> (state: ChannelState)
        ensures
            state == self@.state(),
            !(state is Closed),
    {
        if self.error.is_some() {
            ChannelState::Errored
        } else if self.read_opened && self.write_opened {
            ChannelState::Open
        } else if self.opening {
            ChannelState::Opening
        } else {
            ChannelState::Created
        }
    }

    /// Notes that the event loop has begun to register.
    pub fn begin_opening(&mut self)
        ensures
            final(self)@ == old(self)@.begin_opening(),
    {
        self.opening = true;
    }

    /// Records the events that the stream of `source` reports, and hands
    /// out the wakers that they concern: a task waiting to read for bytes
    /// available, one waiting to write for room, both for an error or the
    /// end of the stream. The slots of the wakers handed out are empty
    /// afterwards, so no waker is handed out twice.
    pub fn record_event(&mut self, source: Direction, flags: EventFlags) -> (fired: Fired)
        ensures
            final(self)@ == old(self)@.record_event(source, flags@),
            fired == old(self)@.fired_by_event(flags@),
    {
        self.events.insert(flags);
        if flags.contains(StreamEvent::OpenCompleted) {
            match source {
                Direction::Read => {
                    self.read_opened = true;
                },
                Direction::Write => {
                    self.write_opened = true;
                },
            }
        }
        if self.error.is_none() && flags.contains(StreamEvent::ErrorOccurred) {
            self.error = Some(ChannelError::TerminalNativeError);
        }
        let read = if flags.concerns(Direction::Read) {
            self.read_waker.take()
        } else {
            None
        };
        let write = if flags.concerns(Direction::Write) {
            self.write_waker.take()
        } else {
            None
        };
        Fired { read, write }
    }

    /// Records a failure that no event reports, such as a stream that did
    /// not open. The first failure recorded stays. Both wakers are handed
    /// out, so that no task waits on a channel that is dead.
    pub fn record_error(&mut self, error: ChannelError) -> (fired: Fired)
        ensures
            final(self)@ == old(self)@.record_error(error),
            fired.read == old(self)@.read_waker,
            fired.write == old(self)@.write_waker,
    {
        if self.error.is_none() {
            self.error = Some(error);
        }
        let read = self.read_waker.take();
        let write = self.write_waker.take();
        Fired { read, write }
    }

    /// Stores the waker of the task that suspends on `direction`. A slot
    /// holds one waker: while one is stored the attempt is refused, and the
    /// context stays as it was.
    pub fn register_waker(&mut self, direction: Direction, waker: Waker) -> (stored: Result<
        (),
        ChannelError,
    >)
        ensures
            old(self)@.waker(direction) is Some ==> stored == Err::<(), ChannelError>(
                ChannelError::WakerAlreadyRegistered,
            ) && final(self)@ == old(self)@,
            old(self)@.waker(direction) is None ==> stored is Ok && final(self)@ == old(
                self,
            )@.register_waker(direction, waker),
    {
        match direction {
            Direction::Read => {
                if self.read_waker.is_some() {
                    return Err(ChannelError::WakerAlreadyRegistered);
                }
                self.read_waker = Some(waker);
            },
            Direction::Write => {
                if self.write_waker.is_some() {
                    return Err(ChannelError::WakerAlreadyRegistered);
                }
                self.write_waker = Some(waker);
            },
        }
        Ok(())
    }

    /// Tears the context down when the last holder lets go of it. It says
    /// how the channel ended, closed, or errored where a failure was
    /// recorded, and hands out the transport resource that the context
    /// owned, for the caller to release. This uses the context up, so a
    /// channel ends once and its resource is handed out once.
    pub fn close(self) -> (end: (ChannelState, Option<OwnedResource>))
        ensures
            end.0 == if self@.error is Some {
                ChannelState::Errored
            } else {
                ChannelState::Closed
            },
            end.0.spec_is_terminal(),
            end.1 is Some == self@.resource is Some,
            end.1 matches Some(owned) ==> Some(owned@) == self@.resource,
    {
        let state = if self.error.is_some() {
            ChannelState::Errored
        } else {
            ChannelState::Closed
        };
        (state, self.resource)
    }

    /// Counts one more reference held by the native side. Refused, with
    /// nothing changed, only where the count cannot grow.
    pub fn retain(&mut self) -> (counted: bool)
        ensures
            counted == (old(self)@.native_refs < usize::MAX),
            counted ==> final(self)@ == old(self)@.retain(),
            !counted ==> final(self)@ == old(self)@,
    {
        if self.native_refs < usize::MAX {
            self.native_refs = self.native_refs + 1;
            true
        } else {
            false
        }
    }

    /// Counts one reference given back by the native side and says how many
    /// it still holds. The count never goes below zero: a release with none
    /// held is refused, with nothing changed.
    pub fn release(&mut self) -> (left: Result<usize, ChannelError>)
        ensures
            old(self)@.native_refs == 0 ==> left == Err::<usize, ChannelError>(
                ChannelError::UnbalancedRelease,
            ) && final(self)@ == old(self)@,
            old(self)@.native_refs > 0 ==> left == Ok::<usize, ChannelError>(
                (old(self)@.native_refs - 1) as usize,
            ) && final(self)@ == old(self)@.release(),
    {
        if self.native_refs == 0 {
            Err(ChannelError::UnbalancedRelease)
        } else {
            self.native_refs = self.native_refs - 1;
            Ok(self.native_refs)
        }
    }
}

} // verus!

//! The poll-based read and write sides of a channel.
//!
//! A poll is two decisions around one native call. The caller asks the
//! stream whether it is ready and hands the answer to `poll_read` or
//! `poll_write`. Where that asks for a transfer, the caller performs the
//! native read or write on its buffer and hands the result to
//! `complete_read` or `complete_write`.

use crate::context::{ContextModel, Fired, SharedContext};
use crate::error::ChannelError;
use crate::event::{Direction, StreamEvent};
use crate::l2cap_channel::L2CapChannelImpl;
use crate::resource::OwnedResource;
use std::task::{Poll, Waker};
use vstd::prelude::*;

verus! {

/// `std::task::Poll`, with its two variants as std declares them.
#[verifier::external_type_specification]
#[verifier::reject_recursive_types(T)]
pub struct ExPoll<T>(Poll<T>);

/// The result that a native read or write gives when it could not proceed
/// without blocking.
pub const WOULD_BLOCK: isize = -1;

/// What the first half of a poll decides.
#[derive(Debug, PartialEq, Eq)]
pub enum PollStep {
    /// The poll is over, with this result.
    Done(Poll<Result<usize, ChannelError>>),
    /// The caller is to perform the native read or write on its buffer and
    /// report what it returned.
    Transfer,
}

/// What the state of the channel alone decides for a poll on `direction`:
/// a recorded failure is the result of every poll; after the end of the
/// stream a read completes with nothing and a write is refused.
pub open spec fn settled(m: ContextModel, direction: Direction) -> Option<
    Poll<Result<usize, ChannelError>>,
> {
    if m.error is Some {
        Some(Poll::Ready(Err(m.error->0)))
    } else if m.events.contains(StreamEvent::EndEncountered) {
        match direction {
            Direction::Read => Some(Poll::Ready(Ok(0usize))),
            Direction::Write => Some(Poll::Ready(Err(ChannelError::InvalidState))),
        }
    } else {
        None
    }
}

/// The result of a poll that has to wait: pending, unless a task waits on
/// this direction already.
pub open spec fn suspension(m: ContextModel, direction: Direction) -> Poll<
    Result<usize, ChannelError>,
> {
    if m.waker(direction) is Some {
        Poll::Ready(Err(ChannelError::WakerAlreadyRegistered))
    } else {
        Poll::Pending
    }
}

/// What the first half of a poll on `direction` decides, for a buffer of
/// `buf_len` bytes and the answer `ready` of the stream: the state of the
/// channel first, then an empty buffer, which completes at once, then the
/// answer of the stream.
pub open spec fn poll_decision(
    m: ContextModel,
    direction: Direction,
    buf_len: usize,
    ready: bool,
) -> PollStep {
    match settled(m, direction) {
        Some(result) => PollStep::Done(result),
        None => if buf_len == 0 {
            PollStep::Done(Poll::Ready(Ok(0usize)))
        } else if ready {
            PollStep::Transfer
        } else {
            PollStep::Done(suspension(m, direction))
        },
    }
}

/// The context after the first half of a poll: the waker is stored where
/// the poll is pending, and nothing changes otherwise.
pub open spec fn after_poll(
    m: ContextModel,
    direction: Direction,
    buf_len: usize,
    ready: bool,
    waker: Waker,
) -> ContextModel {
    if poll_decision(m, direction, buf_len, ready) == PollStep::Done(Poll::Pending) {
        m.register_waker(direction, waker)
    } else {
        m
    }
}

/// Whether `native` is a count of bytes that fits a buffer of `buf_len`.
pub open spec fn is_count(buf_len: usize, native: isize) -> bool {
    0 <= native <= buf_len
}

/// The result of a poll whose native transfer returned `native` on a buffer
/// of `buf_len` bytes: a recorded failure first; then a count of bytes as it
/// is; then the would-block result, which is treated as a stream that was
/// not ready; any other value is a fault of the native layer.
pub open spec fn completion(
    m: ContextModel,
    direction: Direction,
    buf_len: usize,
    native: isize,
) -> Poll<Result<usize, ChannelError>> {
    if m.error is Some {
        Poll::Ready(Err(m.error->0))
    } else if is_count(buf_len, native) {
        Poll::Ready(Ok(native as usize))
    } else if native == WOULD_BLOCK {
        match settled(m, direction) {
            Some(result) => result,
            None => suspension(m, direction),
        }
    } else {
        Poll::Ready(Err(ChannelError::TerminalNativeError))
    }
}

/// The context after the second half of a poll: the waker is stored where
/// the poll is pending, a fault of the native layer is recorded as the
/// failure of the channel, and nothing changes otherwise.
pub open spec fn after_completion(
    m: ContextModel,
    direction: Direction,
    buf_len: usize,
    native: isize,
    waker: Waker,
) -> ContextModel {
    if m.error is Some || is_count(buf_len, native) {
        m
    } else if native == WOULD_BLOCK {
        if completion(m, direction, buf_len, native) == Poll::<
            Result<usize, ChannelError>,
        >::Pending {
            m.register_waker(direction, waker)
        } else {
            m
        }
    } else {
        m.record_error(ChannelError::TerminalNativeError)
    }
}

/// Whether the result `native` of a native transfer on a buffer of
/// `buf_len` bytes is a fault of the native layer that is recorded as the
/// failure of the channel.
pub open spec fn is_fault(m: ContextModel, buf_len: usize, native: isize) -> bool {
    m.error is None && !is_count(buf_len, native) && native != WOULD_BLOCK
}

/// The wakers that the second half of a poll takes out of their slots:
/// both, where a fault of the native layer is recorded, so that no task
/// waits on a channel that is dead; none otherwise.
pub open spec fn fired_by_completion(m: ContextModel, buf_len: usize, native: isize) -> Fired {
    if is_fault(m, buf_len, native) {
        Fired { read: m.read_waker, write: m.write_waker }
    } else {
        Fired { read: None, write: None }
    }
}

/// What the second half of a poll gives back.
#[derive(Debug)]
pub struct Completion {
    /// The result of the poll.
    pub result: Poll<Result<usize, ChannelError>>,
    /// The wakers to invoke, each once.
    pub fired: Fired,
}

/// The adapter passes counts through as they are: on a channel without a
/// recorded failure, a native transfer that took or gave `count` bytes of a
/// buffer that holds them completes the poll with exactly `count`, and
/// changes nothing in the context.
pub proof fn lemma_transfer_reports_native_count(
    m: ContextModel,
    direction: Direction,
    buf_len: usize,
    count: usize,
    waker: Waker,
)
    requires
        m.error is None,
        count <= buf_len,
        count <= isize::MAX,
    ensures
        completion(m, direction, buf_len, count as isize) == Poll::Ready(
            Ok::<usize, ChannelError>(count),
        ),
        after_completion(m, direction, buf_len, count as isize, waker) == m,
{
}

/// Suspends the poll on `direction`, or says why it cannot be.
fn suspend(context: &mut SharedContext, direction: Direction, waker: Waker) -> (result: Poll<
    Result<usize, ChannelError>,
>)
    ensures
        result == suspension(old(context)@, direction),
        final(context)@ == if old(context)@.waker(direction) is Some {
            old(context)@
        } else {
            old(context)@.register_waker(direction, waker)
        },
{
    match context.register_waker(direction, waker) {
        Ok(()) => Poll::Pending,
        Err(fault) => Poll::Ready(Err(fault)),
    }
}

/// What the state of the channel alone decides for a poll on `direction`.
fn settle(context: &SharedContext, direction: Direction) -> (decided: Option<
    Poll<Result<usize, ChannelError>>,
>)
    ensures
        decided == settled(context@, direction),
{
    match context.error() {
        Some(error) => Some(Poll::Ready(Err(error))),
        None => {
            if context.has_event(StreamEvent::EndEncountered) {
                match direction {
                    Direction::Read => Some(Poll::Ready(Ok(0))),
                    Direction::Write => Some(Poll::Ready(Err(ChannelError::InvalidState))),
                }
            } else {
                None
            }
        },
    }
}

/// The first half of a poll on `direction`.
fn poll_direction(
    context: &mut SharedContext,
    direction: Direction,
    waker: Waker,
    buf_len: usize,
    ready: bool,
) -> (step: PollStep)
    ensures
        step == poll_decision(old(context)@, direction, buf_len, ready),
        final(context)@ == after_poll(old(context)@, direction, buf_len, ready, waker),
{
    match settle(context, direction) {
        Some(result) => PollStep::Done(result),
        None => {
            if buf_len == 0 {
                PollStep::Done(Poll::Ready(Ok(0)))
            } else if ready {
                PollStep::Transfer
            } else {
                PollStep::Done(suspend(context, direction, waker))
            }
        },
    }
}

/// The second half of a poll on `direction`.
fn complete_direction(
    context: &mut SharedContext,
    direction: Direction,
    waker: Waker,
    buf_len: usize,
    native: isize,
) -> (done: Completion)
    ensures
        done.result == completion(old(context)@, direction, buf_len, native),
        done.fired == fired_by_completion(old(context)@, buf_len, native),
        final(context)@ == after_completion(old(context)@, direction, buf_len, native, waker),
{
    match context.error() {
        Some(error) => Completion { result: Poll::Ready(Err(error)), fired: Fired::none() },
        None => {
            if 0 <= native && native as usize <= buf_len {
                Completion { result: Poll::Ready(Ok(native as usize)), fired: Fired::none() }
            } else if native == WOULD_BLOCK {
                let result = match settle(context, direction) {
                    Some(result) => result,
                    None => suspend(context, direction, waker),
                };
                Completion { result, fired: Fired::none() }
            } else {
                let fired = context.record_error(ChannelError::TerminalNativeError);
                Completion {
                    result: Poll::Ready(Err(ChannelError::TerminalNativeError)),
                    fired,
                }
            }
        },
    }
}

/// The read side of a channel. There is one, so one task reads at a time.
#[derive(Debug)]
pub struct ReadAdapter {
    in_flight: Option<usize>,
}

/// The write side of a channel. There is one, so one task writes at a time.
#[derive(Debug)]
pub struct WriteAdapter {
    in_flight: Option<usize>,
}

impl ReadAdapter {
    /// The length of the buffer whose native read was asked for and has not
    /// been reported yet.
    pub closed spec fn spec_in_flight(&self) -> Option<usize> {
        self.in_flight
    }

    /// A read side with no transfer in flight.
    pub fn new() -> (adapter: ReadAdapter)
        ensures
            adapter.spec_in_flight() is None,
    {
        ReadAdapter { in_flight: None }
    }

    /// The length of the buffer whose native read was asked for and has not
    /// been reported yet.
    #[verifier::when_used_as_spec(spec_in_flight)]
    pub fn in_flight(&self) -> (len: Option<usize>)
        ensures
            len == self.spec_in_flight(),
    {
        self.in_flight
    }

    /// The first half of a read into a buffer of `buf_len` bytes, given
    /// whether the stream has bytes available. It ends the poll, storing
    /// `waker` where the result is pending, or asks for the native read.
    pub fn poll_read(
        &mut self,
        context: &mut SharedContext,
        waker: Waker,
        buf_len: usize,
        has_bytes_available: bool,
    ) -> (step: PollStep)
        ensures
            step == poll_decision(old(context)@, Direction::Read, buf_len, has_bytes_available),
            final(context)@ == after_poll(
                old(context)@,
                Direction::Read,
                buf_len,
                has_bytes_available,
                waker,
            ),
            final(self).spec_in_flight() == if step is Transfer {
                Some(buf_len)
            } else {
                None
            },
    {
        let step = poll_direction(context, Direction::Read, waker, buf_len, has_bytes_available);
        self.in_flight = match step {
            PollStep::Transfer => Some(buf_len),
            PollStep::Done(_) => None,
        };
        step
    }

    /// The second half of a read: `native_result` is what the native read
    /// returned. Without a read in flight the call is refused and changes
    /// nothing.
    pub fn complete_read(
        &mut self,
        context: &mut SharedContext,
        waker: Waker,
        native_result: isize,
    ) -> (done: Completion)
        ensures
            final(self).spec_in_flight() is None,
            old(self).spec_in_flight() is None ==> done.result == Poll::Ready(
                Err::<usize, ChannelError>(ChannelError::InvalidState),
            ) && done.fired.read is None && done.fired.write is None && final(context)@ == old(context)@,
            old(self).spec_in_flight() matches Some(buf_len) ==> done.result == completion(
                old(context)@,
                Direction::Read,
                buf_len,
                native_result,
            ) && done.fired == fired_by_completion(old(context)@, buf_len, native_result) && final(context)@ == after_completion(
                old(context)@,
                Direction::Read,
                buf_len,
                native_result,
                waker,
            ),
    {
        match self.in_flight.take() {
            Some(buf_len) => complete_direction(
                context,
                Direction::Read,
                waker,
                buf_len,
                native_result,
            ),
            None => Completion {
                result: Poll::Ready(Err(ChannelError::InvalidState)),
                fired: Fired::none(),
            },
        }
    }
}

impl WriteAdapter {
    /// The length of the buffer whose native write was asked for and has
    /// not been reported yet.
    pub closed spec fn spec_in_flight(&self) -> Option<usize> {
        self.in_flight
    }

    /// A write side with no transfer in flight.
    pub fn new() -> (adapter: WriteAdapter)
        ensures
            adapter.spec_in_flight() is None,
    {
        WriteAdapter { in_flight: None }
    }

    /// The length of the buffer whose native write was asked for and has
    /// not been reported yet.
    #[verifier::when_used_as_spec(spec_in_flight)]
    pub fn in_flight(&self) -> (len: Option<usize>)
        ensures
            len == self.spec_in_flight(),
    {
        self.in_flight
    }

    /// The first half of a write from a buffer of `buf_len` bytes, given
    /// whether the stream has space available. It ends the poll, storing
    /// `waker` where the result is pending, or asks for the native write.
    pub fn poll_write(
        &mut self,
        context: &mut SharedContext,
        waker: Waker,
        buf_len: usize,
        has_space_available: bool,
    ) -> (step: PollStep)
        ensures
            step == poll_decision(old(context)@, Direction::Write, buf_len, has_space_available),
            final(context)@ == after_poll(
                old(context)@,
                Direction::Write,
                buf_len,
                has_space_available,
                waker,
            ),
            final(self).spec_in_flight() == if step is Transfer {
                Some(buf_len)
            } else {
                None
            },
    {
        let step = poll_direction(context, Direction::Write, waker, buf_len, has_space_available);
        self.in_flight = match step {
            PollStep::Transfer => Some(buf_len),
            PollStep::Done(_) => None,
        };
        step
    }

    /// The second half of a write: `native_result` is what the native write
    /// returned. Without a write in flight the call is refused and changes
    /// nothing.
    pub fn complete_write(
        &mut self,
        context: &mut SharedContext,
        waker: Waker,
        native_result: isize,
    ) -> (done: Completion)
        ensures
            final(self).spec_in_flight() is None,
            old(self).spec_in_flight() is None ==> done.result == Poll::Ready(
                Err::<usize, ChannelError>(ChannelError::InvalidState),
            ) && done.fired.read is None && done.fired.write is None && final(context)@ == old(context)@,
            old(self).spec_in_flight() matches Some(buf_len) ==> done.result == completion(
                old(context)@,
                Direction::Write,
                buf_len,
                native_result,
            ) && done.fired == fired_by_completion(old(context)@, buf_len, native_result) && final(context)@ == after_completion(
                old(context)@,
                Direction::Write,
                buf_len,
                native_result,
                waker,
            ),
    {
        match self.in_flight.take() {
            Some(buf_len) => complete_direction(
                context,
                Direction::Write,
                waker,
                buf_len,
                native_result,
            ),
            None => Completion {
                result: Poll::Ready(Err(ChannelError::InvalidState)),
                fired: Fired::none(),
            },
        }
    }

    /// Flushes the write side. Nothing is buffered here, so there is
    /// nothing to wait for.
    pub fn poll_flush(&mut self) -> (result: Poll<Result<(), ChannelError>>)
        ensures
            result == Poll::Ready(Ok::<(), ChannelError>(())),
            final(self).spec_in_flight() == old(self).spec_in_flight(),
    {
        Poll::Ready(Ok(()))
    }

    /// Closes the write side. The streams are closed by the event loop
    /// when the channel is torn down, so there is nothing to wait for.
    pub fn poll_close(&mut self) -> (result: Poll<Result<(), ChannelError>>)
        ensures
            result == Poll::Ready(Ok::<(), ChannelError>(())),
            final(self).spec_in_flight() == old(self).spec_in_flight(),
    {
        Poll::Ready(Ok(()))
    }
}

/// A channel over a pair of native streams: its read side and its write
/// side, which `split` hands to two tasks. The state that they share with
/// the callbacks is the `SharedContext` made along with the channel.
#[derive(Debug)]
pub struct FuturesCFStream {
    reader: ReadAdapter,
    writer: WriteAdapter,
}

impl FuturesCFStream {
    /// The transfers that the two sides have in flight, read side first.
    pub closed spec fn spec_in_flight(&self) -> (Option<usize>, Option<usize>) {
        (self.reader.spec_in_flight(), self.writer.spec_in_flight())
    }

    /// Makes a channel and the context that it shares with the callbacks of
    /// its streams. The context owns `resource`, where there is one, from
    /// now on. Nothing has happened on either yet.
    pub fn cf_stream(resource: Option<OwnedResource>) -> (made: (FuturesCFStream, SharedContext))
        ensures
            made.1@ == match resource {
                Some(owned) => ContextModel::owning(owned@),
                None => ContextModel::initial(),
            },
            made.0.spec_in_flight() == (None::<usize>, None::<usize>),
    {
        let context = match resource {
            Some(owned) => SharedContext::owning(owned),
            None => SharedContext::new(),
        };
        (FuturesCFStream { reader: ReadAdapter::new(), writer: WriteAdapter::new() }, context)
    }

    /// The first half of a read. See `ReadAdapter::poll_read`.
    pub fn poll_read(
        &mut self,
        context: &mut SharedContext,
        waker: Waker,
        buf_len: usize,
        has_bytes_available: bool,
    ) -> (step: PollStep)
        ensures
            step == poll_decision(old(context)@, Direction::Read, buf_len, has_bytes_available),
            final(context)@ == after_poll(
                old(context)@,
                Direction::Read,
                buf_len,
                has_bytes_available,
                waker,
            ),
            final(self).spec_in_flight() == (
                if step is Transfer {
                    Some(buf_len)
                } else {
                    None
                },
                old(self).spec_in_flight().1,
            ),
    {
        self.reader.poll_read(context, waker, buf_len, has_bytes_available)
    }

    /// The second half of a read. See `ReadAdapter::complete_read`.
    pub fn complete_read(
        &mut self,
        context: &mut SharedContext,
        waker: Waker,
        native_result: isize,
    ) -> (done: Completion)
        ensures
            final(self).spec_in_flight() == (None::<usize>, old(self).spec_in_flight().1),
            old(self).spec_in_flight().0 is None ==> done.result == Poll::Ready(
                Err::<usize, ChannelError>(ChannelError::InvalidState),
            ) && done.fired.read is None && done.fired.write is None && final(context)@ == old(context)@,
            old(self).spec_in_flight().0 matches Some(buf_len) ==> done.result == completion(
                old(context)@,
                Direction::Read,
                buf_len,
                native_result,
            ) && done.fired == fired_by_completion(old(context)@, buf_len, native_result) && final(context)@ == after_completion(
                old(context)@,
                Direction::Read,
                buf_len,
                native_result,
                waker,
            ),
    {
        self.reader.complete_read(context, waker, native_result)
    }

    /// The first half of a write. See `WriteAdapter::poll_write`.
    pub fn poll_write(
        &mut self,
        context: &mut SharedContext,
        waker: Waker,
        buf_len: usize,
        has_space_available: bool,
    ) -> (step: PollStep)
        ensures
            step == poll_decision(old(context)@, Direction::Write, buf_len, has_space_available),
            final(context)@ == after_poll(
                old(context)@,
                Direction::Write,
                buf_len,
                has_space_available,
                waker,
            ),
            final(self).spec_in_flight() == (
                old(self).spec_in_flight().0,
                if step is Transfer {
                    Some(buf_len)
                } else {
                    None
                },
            ),
    {
        self.writer.poll_write(context, waker, buf_len, has_space_available)
    }

    /// The second half of a write. See `WriteAdapter::complete_write`.
    pub fn complete_write(
        &mut self,
        context: &mut SharedContext,
        waker: Waker,
        native_result: isize,
    ) -> (done: Completion)
        ensures
            final(self).spec_in_flight() == (old(self).spec_in_flight().0, None::<usize>),
            old(self).spec_in_flight().1 is None ==> done.result == Poll::Ready(
                Err::<usize, ChannelError>(ChannelError::InvalidState),
            ) && done.fired.read is None && done.fired.write is None && final(context)@ == old(context)@,
            old(self).spec_in_flight().1 matches Some(buf_len) ==> done.result == completion(
                old(context)@,
                Direction::Write,
                buf_len,
                native_result,
            ) && done.fired == fired_by_completion(old(context)@, buf_len, native_result) && final(context)@ == after_completion(
                old(context)@,
                Direction::Write,
                buf_len,
                native_result,
                waker,
            ),
    {
        self.writer.complete_write(context, waker, native_result)
    }

    /// Flushes the write side, which has nothing to wait for.
    pub fn poll_flush(&mut self) -> (result: Poll<Result<(), ChannelError>>)
        ensures
            result == Poll::Ready(Ok::<(), ChannelError>(())),
            final(self).spec_in_flight() == old(self).spec_in_flight(),
    {
        self.writer.poll_flush()
    }

    /// Closes the write side, which has nothing to wait for.
    pub fn poll_close(&mut self) -> (result: Poll<Result<(), ChannelError>>)
        ensures
            result == Poll::Ready(Ok::<(), ChannelError>(())),
            final(self).spec_in_flight() == old(self).spec_in_flight(),
    {
        self.writer.poll_close()
    }
}

impl L2CapChannelImpl for FuturesCFStream {
    type Reader = ReadAdapter;

    type Writer = WriteAdapter;

    /// Splits the channel into its two sides, each with the transfer that
    /// it has in flight.
    fn split(self) -> (halves: (ReadAdapter, WriteAdapter))
        ensures
            halves.0.spec_in_flight() == self.spec_in_flight().0,
            halves.1.spec_in_flight() == self.spec_in_flight().1,
    {
        (self.reader, self.writer)
    }
}

} // verus!

//! Histories: what holds of a shared context whatever is done to it next.
//!
//! An operation is one call on the context, by a callback, by the event
//! loop or by a polling task. A history is a sequence of them. The proofs
//! here speak of every history, so of every interleaving of the threads
//! that share a context behind its lock.

use crate::context::{ChannelState, ContextModel};
use crate::error::ChannelError;
use crate::event::{concerns_any, lemma_concerns_any, Direction, StreamEvent};
use crate::futures_channel::{
    after_completion,
    after_poll,
    completion,
    poll_decision,
    settled,
    suspension,
    PollStep,
    WOULD_BLOCK,
};
use std::task::{Poll, Waker};
use vstd::prelude::*;

verus! {

/// One call on a shared context.
pub enum Operation {
    /// The event loop has begun to register.
    BeginOpening,
    /// A callback records events of the stream of `source`.
    Event { source: Direction, flags: Set<StreamEvent> },
    /// A failure that no event reports is recorded.
    Failure { error: ChannelError },
    /// A waker is offered for a direction.
    Register { direction: Direction, waker: Waker },
    /// The first half of a poll.
    Poll { direction: Direction, buf_len: usize, ready: bool, waker: Waker },
    /// The second half of a poll.
    Complete { direction: Direction, buf_len: usize, native: isize, waker: Waker },
    /// The native side takes a reference.
    Retain,
    /// The native side gives a reference back.
    Release,
}

/// The context after one operation.
pub open spec fn apply(m: ContextModel, op: Operation) -> ContextModel {
    match op {
        Operation::BeginOpening => m.begin_opening(),
        Operation::Event { source, flags } => m.record_event(source, flags),
        Operation::Failure { error } => m.record_error(error),
        Operation::Register { direction, waker } => if m.waker(direction) is Some {
            m
        } else {
            m.register_waker(direction, waker)
        },
        Operation::Poll { direction, buf_len, ready, waker } => after_poll(
            m,
            direction,
            buf_len,
            ready,
            waker,
        ),
        Operation::Complete { direction, buf_len, native, waker } => after_completion(
            m,
            direction,
            buf_len,
            native,
            waker,
        ),
        Operation::Retain => if m.native_refs < usize::MAX {
            m.retain()
        } else {
            m
        },
        Operation::Release => if m.native_refs == 0 {
            m
        } else {
            m.release()
        },
    }
}

/// The context after a history, first operation first.
pub open spec fn apply_all(m: ContextModel, ops: Seq<Operation>) -> ContextModel
    decreases ops.len(),
{
    if ops.len() == 0 {
        m
    } else {
        apply_all(apply(m, ops[0]), ops.drop_first())
    }
}

/// No operation takes an event back or replaces a recorded failure.
pub proof fn lemma_apply_keeps(m: ContextModel, op: Operation)
    ensures
        m.events.subset_of(apply(m, op).events),
        m.error is Some ==> apply(m, op).error == m.error,
        m.read_opened ==> apply(m, op).read_opened,
        m.write_opened ==> apply(m, op).write_opened,
        m.opening ==> apply(m, op).opening,
        apply(m, op).resource == m.resource,
{
}

/// The events are sticky: whatever has been recorded stays recorded through
/// every history.
pub proof fn lemma_events_are_sticky(m: ContextModel, ops: Seq<Operation>)
    ensures
        m.events.subset_of(apply_all(m, ops).events),
    decreases ops.len(),
{
    if ops.len() > 0 {
        lemma_apply_keeps(m, ops[0]);
        lemma_events_are_sticky(apply(m, ops[0]), ops.drop_first());
    }
}

/// Events accumulate and nothing else: two reports recorded one after the
/// other leave the same events as one report of both, in either order.
pub proof fn lemma_events_accumulate(
    m: ContextModel,
    first_source: Direction,
    first: Set<StreamEvent>,
    second_source: Direction,
    second: Set<StreamEvent>,
)
    ensures
        m.record_event(first_source, first).record_event(second_source, second).events
            == m.events.union(first.union(second)),
        m.record_event(first_source, first).record_event(second_source, second).events
            == m.record_event(second_source, second).record_event(first_source, first).events,
        m.record_event(first_source, first).record_event(first_source, second).read_opened
            == m.record_event(first_source, first.union(second)).read_opened,
        m.record_event(first_source, first).record_event(first_source, second).write_opened
            == m.record_event(first_source, first.union(second)).write_opened,
        m.record_event(first_source, first).record_event(first_source, second).error
            == m.record_event(first_source, first.union(second)).error,
{
    let both = m.record_event(first_source, first).record_event(second_source, second);
    let swapped = m.record_event(second_source, second).record_event(first_source, first);
    assert(both.events =~= m.events.union(first.union(second)));
    assert(swapped.events =~= m.events.union(first.union(second)));
}

/// The context is the one owner of its transport resource: whatever is done
/// to it, it holds the resource it was made with until it is closed.
pub proof fn lemma_resource_is_kept(m: ContextModel, ops: Seq<Operation>)
    ensures
        apply_all(m, ops).resource == m.resource,
    decreases ops.len(),
{
    if ops.len() > 0 {
        lemma_apply_keeps(m, ops[0]);
        lemma_resource_is_kept(apply(m, ops[0]), ops.drop_first());
    }
}

/// The first failure stays: once a failure is recorded, every history
/// leaves it as it is and the channel in the errored state.
pub proof fn lemma_failure_is_absorbing(m: ContextModel, ops: Seq<Operation>)
    requires
        m.error is Some,
    ensures
        apply_all(m, ops).error == m.error,
        apply_all(m, ops).state() == ChannelState::Errored,
    decreases ops.len(),
{
    if ops.len() > 0 {
        lemma_apply_keeps(m, ops[0]);
        lemma_failure_is_absorbing(apply(m, ops[0]), ops.drop_first());
    }
}

/// A channel only moves forward: from created to opening to open, and from
/// anywhere to errored, whatever is done to its context.
pub proof fn lemma_state_only_advances(m: ContextModel, ops: Seq<Operation>)
    ensures
        m.state().rank() <= apply_all(m, ops).state().rank(),
    decreases ops.len(),
{
    if ops.len() > 0 {
        lemma_apply_keeps(m, ops[0]);
        lemma_state_only_advances(apply(m, ops[0]), ops.drop_first());
    }
}

/// A channel that is open stays open or fails: no history leads back to an
/// earlier state.
pub proof fn lemma_open_is_kept(m: ContextModel, ops: Seq<Operation>)
    requires
        m.state() == ChannelState::Open,
    ensures
        apply_all(m, ops).state() == ChannelState::Open || apply_all(m, ops).state()
            == ChannelState::Errored,
    decreases ops.len(),
{
    if ops.len() > 0 {
        lemma_apply_keeps(m, ops[0]);
        let next = apply(m, ops[0]);
        if next.error is Some {
            lemma_failure_is_absorbing(next, ops.drop_first());
        } else {
            lemma_open_is_kept(next, ops.drop_first());
        }
    }
}

/// After an event that reports the end of the stream, and whatever history
/// follows, a read completes with zero bytes and is never pending, as long
/// as no failure is recorded. A native read that was in flight and would
/// block completes with zero bytes too.
pub proof fn lemma_reads_after_end(
    m: ContextModel,
    source: Direction,
    flags: Set<StreamEvent>,
    ops: Seq<Operation>,
    buf_len: usize,
    ready: bool,
)
    requires
        flags.contains(StreamEvent::EndEncountered),
        apply_all(m.record_event(source, flags), ops).error is None,
    ensures
        poll_decision(apply_all(m.record_event(source, flags), ops), Direction::Read, buf_len, ready)
            == PollStep::Done(Poll::Ready(Ok(0usize))),
        completion(
            apply_all(m.record_event(source, flags), ops),
            Direction::Read,
            buf_len,
            WOULD_BLOCK,
        ) == Poll::Ready(Ok::<usize, ChannelError>(0usize)),
{
    let recorded = m.record_event(source, flags);
    lemma_events_are_sticky(recorded, ops);
    assert(recorded.events.contains(StreamEvent::EndEncountered));
}

/// After an event that reports the end of the stream, and whatever history
/// follows, a write is refused and is never pending.
pub proof fn lemma_writes_after_end(
    m: ContextModel,
    source: Direction,
    flags: Set<StreamEvent>,
    ops: Seq<Operation>,
    buf_len: usize,
    ready: bool,
)
    requires
        flags.contains(StreamEvent::EndEncountered),
    ensures
        poll_decision(apply_all(m.record_event(source, flags), ops), Direction::Write, buf_len, ready)
            matches PollStep::Done(Poll::Ready(Err(_))),
{
    let recorded = m.record_event(source, flags);
    lemma_events_are_sticky(recorded, ops);
    assert(recorded.events.contains(StreamEvent::EndEncountered));
}

/// After an event that reports an error, and whatever history follows,
/// both halves of every poll, on either direction, return the failure that
/// was recorded then, and are never pending.
pub proof fn lemma_polls_after_error(
    m: ContextModel,
    source: Direction,
    flags: Set<StreamEvent>,
    ops: Seq<Operation>,
    direction: Direction,
    buf_len: usize,
    ready: bool,
    native: isize,
)
    requires
        flags.contains(StreamEvent::ErrorOccurred),
    ensures
        m.record_event(source, flags).error is Some,
        m.error is None ==> m.record_event(source, flags).error == Some(
            ChannelError::TerminalNativeError,
        ),
        apply_all(m.record_event(source, flags), ops).error == m.record_event(source, flags).error,
        poll_decision(apply_all(m.record_event(source, flags), ops), direction, buf_len, ready)
            == PollStep::Done(Poll::Ready(Err(m.record_event(source, flags).error->0))),
        completion(apply_all(m.record_event(source, flags), ops), direction, buf_len, native)
            == Poll::Ready(Err::<usize, ChannelError>(m.record_event(source, flags).error->0)),
{
    lemma_failure_is_absorbing(m.record_event(source, flags), ops);
}

/// After a failure that no event reports, such as a stream that did not
/// open, no task is left waiting, and whatever history follows, both halves
/// of every poll return the first failure recorded.
pub proof fn lemma_polls_after_failure(
    m: ContextModel,
    error: ChannelError,
    ops: Seq<Operation>,
    direction: Direction,
    buf_len: usize,
    ready: bool,
    native: isize,
)
    ensures
        m.record_error(error).waker(direction) is None,
        m.error is None ==> m.record_error(error).error == Some(error),
        poll_decision(apply_all(m.record_error(error), ops), direction, buf_len, ready)
            == PollStep::Done(Poll::Ready(Err(m.record_error(error).error->0))),
        completion(apply_all(m.record_error(error), ops), direction, buf_len, native) == Poll::Ready(
            Err::<usize, ChannelError>(m.record_error(error).error->0),
        ),
{
    lemma_failure_is_absorbing(m.record_error(error), ops);
}

/// A slot holds one waker. While a task waits on a direction, a second
/// registration for it changes nothing, and a poll that would have to wait
/// on it is refused as a fault instead of replacing the waker.
pub proof fn lemma_one_waiter_per_direction(
    m: ContextModel,
    direction: Direction,
    first: Waker,
    second: Waker,
    buf_len: usize,
)
    requires
        m.waker(direction) is None,
        settled(m, direction) is None,
        buf_len > 0,
    ensures
        apply(m, Operation::Register { direction, waker: first }).waker(direction) == Some(first),
        apply(
            apply(m, Operation::Register { direction, waker: first }),
            Operation::Register { direction, waker: second },
        ) == apply(m, Operation::Register { direction, waker: first }),
        poll_decision(m.register_waker(direction, first), direction, buf_len, false)
            == PollStep::Done(Poll::Ready(Err(ChannelError::WakerAlreadyRegistered))),
        after_poll(m.register_waker(direction, first), direction, buf_len, false, second)
            == m.register_waker(direction, first),
{
}

/// A waker leaves its slot only by being handed out: a pending poll stores
/// it, the first event that concerns its direction hands it out, and no
/// later event hands out anything for that direction until a task waits
/// again.
pub proof fn lemma_waker_fires_once(
    m: ContextModel,
    direction: Direction,
    waker: Waker,
    buf_len: usize,
    source: Direction,
    flags: Set<StreamEvent>,
    later_source: Direction,
    later: Set<StreamEvent>,
)
    requires
        poll_decision(m, direction, buf_len, false) == PollStep::Done(Poll::Pending),
        concerns_any(flags, direction),
    ensures
        after_poll(m, direction, buf_len, false, waker).waker(direction) == Some(waker),
        match direction {
            Direction::Read => after_poll(m, direction, buf_len, false, waker).fired_by_event(
                flags,
            ).read == Some(waker),
            Direction::Write => after_poll(m, direction, buf_len, false, waker).fired_by_event(
                flags,
            ).write == Some(waker),
        },
        after_poll(m, direction, buf_len, false, waker).record_event(source, flags).waker(direction)
            is None,
        match direction {
            Direction::Read => after_poll(m, direction, buf_len, false, waker).record_event(
                source,
                flags,
            ).fired_by_event(later).read is None,
            Direction::Write => after_poll(m, direction, buf_len, false, waker).record_event(
                source,
                flags,
            ).fired_by_event(later).write is None,
        },
{
}

/// An event that does not concern a direction leaves the task that waits on
/// it suspended: its waker stays in the slot and is not handed out.
pub proof fn lemma_unrelated_event_keeps_waker(
    m: ContextModel,
    direction: Direction,
    source: Direction,
    flags: Set<StreamEvent>,
)
    requires
        !concerns_any(flags, direction),
    ensures
        m.record_event(source, flags).waker(direction) == m.waker(direction),
        match direction {
            Direction::Read => m.fired_by_event(flags).read is None,
            Direction::Write => m.fired_by_event(flags).write is None,
        },
        m.record_event(source, flags).error == m.error,
{
    lemma_concerns_any(flags, direction);
}

/// How often the native side takes a reference in a history.
pub open spec fn retains(ops: Seq<Operation>) -> nat
    decreases ops.len(),
{
    if ops.len() == 0 {
        0
    } else {
        (if ops[0] is Retain {
            1nat
        } else {
            0nat
        }) + retains(ops.drop_first())
    }
}

/// How often the native side gives a reference back in a history.
pub open spec fn releases(ops: Seq<Operation>) -> nat
    decreases ops.len(),
{
    if ops.len() == 0 {
        0
    } else {
        (if ops[0] is Release {
            1nat
        } else {
            0nat
        }) + releases(ops.drop_first())
    }
}

/// The count of references that the native side holds never goes below
/// zero, and never exceeds what it held before plus what it took since.
/// Where the native side gives back as often as it takes and never gives
/// back what it does not hold, the count ends where it began.
pub proof fn lemma_references_balance(m: ContextModel, ops: Seq<Operation>)
    requires
        m.native_refs + retains(ops) <= usize::MAX,
    ensures
        apply_all(m, ops).native_refs <= m.native_refs + retains(ops),
        apply_all(m, ops).native_refs + releases(ops) >= m.native_refs + retains(ops),
        apply_all(m, ops).native_refs + releases(ops) == m.native_refs + retains(ops) <==> never_underflows(
            m,
            ops,
        ),
    decreases ops.len(),
{
    if ops.len() > 0 {
        lemma_references_balance(apply(m, ops[0]), ops.drop_first());
    }
}

/// Whether no release in the history finds the count at zero.
pub open spec fn never_underflows(m: ContextModel, ops: Seq<Operation>) -> bool
    decreases ops.len(),
{
    if ops.len() == 0 {
        true
    } else {
        !(ops[0] is Release && m.native_refs == 0) && never_underflows(
            apply(m, ops[0]),
            ops.drop_first(),
        )
    }
}

/// What the transport has taken in a run of write polls, and how far the
/// writer has come. The writer offers what is left of `data` from `from`
/// on; the transport takes the first `natives[i]` bytes of what is offered
/// and returns that count; the writer moves on by the count that the poll
/// reports. `contexts[i]` is the context at the time of poll `i`. The run
/// ends with the first poll that does not complete with a count.
pub open spec fn written(
    contexts: Seq<ContextModel>,
    data: Seq<u8>,
    from: int,
    natives: Seq<isize>,
) -> (Seq<u8>, int)
    decreases natives.len(),
{
    if natives.len() == 0 || contexts.len() != natives.len() || !(0 <= from <= data.len()) {
        (Seq::empty(), from)
    } else {
        match completion(
            contexts[0],
            Direction::Write,
            (data.len() - from) as usize,
            natives[0],
        ) {
            Poll::Ready(Ok(count)) => {
                let rest = written(
                    contexts.drop_first(),
                    data,
                    from + count,
                    natives.drop_first(),
                );
                (data.subrange(from, from + natives[0]) + rest.0, rest.1)
            },
            _ => (Seq::empty(), from),
        }
    }
}

/// Writing loses nothing and repeats nothing: through every run of write
/// polls, whatever the transport takes each time and whatever happens to
/// the context in between, what the transport has taken is exactly the
/// part of the data that the writer has moved past.
pub proof fn lemma_writes_conserve(
    contexts: Seq<ContextModel>,
    data: Seq<u8>,
    from: int,
    natives: Seq<isize>,
)
    requires
        0 <= from <= data.len() <= usize::MAX,
    ensures
        from <= written(contexts, data, from, natives).1 <= data.len(),
        written(contexts, data, from, natives).0 == data.subrange(
            from,
            written(contexts, data, from, natives).1,
        ),
    decreases natives.len(),
{
    if natives.len() == 0 || contexts.len() != natives.len() {
        assert(data.subrange(from, from) =~= Seq::<u8>::empty());
    } else {
        match completion(
            contexts[0],
            Direction::Write,
            (data.len() - from) as usize,
            natives[0],
        ) {
            Poll::Ready(Ok(count)) => {
                assert(count == natives[0]);
                lemma_writes_conserve(
                    contexts.drop_first(),
                    data,
                    from + count,
                    natives.drop_first(),
                );
                let end = written(contexts, data, from, natives).1;
                assert(data.subrange(from, from + count) + data.subrange(from + count, end)
                    =~= data.subrange(from, end));
            },
            _ => {
                assert(data.subrange(from, from) =~= Seq::<u8>::empty());
            },
        }
    }
}

/// The buffer of a reader after the transport has put `delivery` at its
/// start. What lies behind the delivery is not the transport's.
pub open spec fn filled(delivery: Seq<u8>, buf_len: usize) -> Seq<u8> {
    Seq::new(
        buf_len as nat,
        |i: int|
            if i < delivery.len() {
                delivery[i]
            } else {
                0u8
            },
    )
}

/// The deliveries one after the other.
pub open spec fn joined(deliveries: Seq<Seq<u8>>) -> Seq<u8>
    decreases deliveries.len(),
{
    if deliveries.len() == 0 {
        Seq::empty()
    } else {
        deliveries[0] + joined(deliveries.drop_first())
    }
}

/// What a reader has collected in a run of read polls on buffers of
/// `buf_len` bytes. For each poll the transport puts `deliveries[i]` at the
/// start of the buffer and returns its length; the reader keeps as many
/// bytes of the buffer as the poll reports. `contexts[i]` is the context at
/// the time of poll `i`. The run ends with the first poll that does not
/// complete with a count.
pub open spec fn collected(
    contexts: Seq<ContextModel>,
    deliveries: Seq<Seq<u8>>,
    buf_len: usize,
) -> Seq<u8>
    decreases deliveries.len(),
{
    if deliveries.len() == 0 || contexts.len() != deliveries.len() {
        Seq::empty()
    } else {
        match completion(
            contexts[0],
            Direction::Read,
            buf_len,
            deliveries[0].len() as isize,
        ) {
            Poll::Ready(Ok(count)) => filled(deliveries[0], buf_len).take(count as int)
                + collected(contexts.drop_first(), deliveries.drop_first(), buf_len),
            _ => Seq::empty(),
        }
    }
}

/// Reading adds nothing and drops nothing: as long as no failure is
/// recorded, what a reader has collected through a run of read polls, each
/// delivery fitting the buffer, is exactly what the transport delivered, in
/// the order in which it delivered it.
pub proof fn lemma_reads_conserve(
    contexts: Seq<ContextModel>,
    deliveries: Seq<Seq<u8>>,
    buf_len: usize,
)
    requires
        contexts.len() == deliveries.len(),
        buf_len <= isize::MAX,
        forall|i: int| 0 <= i < contexts.len() ==> (#[trigger] contexts[i]).error is None,
        forall|i: int| 0 <= i < deliveries.len() ==> (#[trigger] deliveries[i]).len() <= buf_len,
    ensures
        collected(contexts, deliveries, buf_len) == joined(deliveries),
    decreases deliveries.len(),
{
    if deliveries.len() > 0 {
        let first = deliveries[0];
        assert(contexts[0].error is None);
        assert(first.len() <= buf_len);
        assert(filled(first, buf_len).take(first.len() as int) =~= first);
        assert forall|i: int| 0 <= i < contexts.drop_first().len() implies (
        #[trigger] contexts.drop_first()[i]).error is None by {
            assert(contexts[i + 1].error is None);
        }
        assert forall|i: int| 0 <= i < deliveries.drop_first().len() implies (
        #[trigger] deliveries.drop_first()[i]).len() <= buf_len by {
            assert(deliveries[i + 1].len() <= buf_len);
        }
        lemma_reads_conserve(contexts.drop_first(), deliveries.drop_first(), buf_len);
    }
}

/// Between two peers. A writer offers `data`, and the transport has room
/// for all of it and takes it. Where the transport then delivers to the
/// reader what it took, in order and in pieces that fit the buffer of the
/// reader, and no failure is recorded on either side, the reader collects
/// exactly `data`.
pub proof fn lemma_peer_reads_what_was_written(
    writer_contexts: Seq<ContextModel>,
    data: Seq<u8>,
    natives: Seq<isize>,
    reader_contexts: Seq<ContextModel>,
    deliveries: Seq<Seq<u8>>,
    buf_len: usize,
)
    requires
        data.len() <= isize::MAX,
        buf_len <= isize::MAX,
        natives.len() > 0,
        natives[0] == data.len(),
        writer_contexts.len() == natives.len(),
        writer_contexts[0].error is None,
        reader_contexts.len() == deliveries.len(),
        forall|i: int|
            0 <= i < reader_contexts.len() ==> (#[trigger] reader_contexts[i]).error is None,
        forall|i: int| 0 <= i < deliveries.len() ==> (#[trigger] deliveries[i]).len() <= buf_len,
        joined(deliveries) == written(writer_contexts, data, 0, natives).0,
    ensures
        written(writer_contexts, data, 0, natives).0 == data,
        collected(reader_contexts, deliveries, buf_len) == data,
{
    lemma_writes_conserve(writer_contexts, data, 0, natives);
    lemma_writes_conserve(
        writer_contexts.drop_first(),
        data,
        data.len() as int,
        natives.drop_first(),
    );
    assert(data.subrange(0, data.len() as int) =~= data);
    lemma_reads_conserve(reader_contexts, deliveries, buf_len);
}

} // verus!

//! The handlers that the native streams call when something happens.
//!
//! A handler runs inside the native event dispatch, on the thread of the
//! run loop: it records, decides, and returns, and never blocks.

use crate::context::{Fired, SharedContext};
use crate::event::{events_of, has_terminal, Direction, EventFlags};
use vstd::prelude::*;

verus! {

/// What a handler asks of the thread that called it.
#[derive(Debug)]
pub struct CallbackOutcome {
    /// The wakers to invoke, each once.
    pub fired: Fired,
    /// Whether the run loop of this thread is to be stopped.
    pub stop_run_loop: bool,
}

/// Handles the events `event_type` that the stream of `source` reports:
/// records them in the context, hands out the wakers they concern, and asks
/// for the run loop to stop when the stream has ended or failed.
pub fn cfstream_callback(
    context: &mut SharedContext,
    source: Direction,
    event_type: usize,
) -> (outcome: CallbackOutcome)
    ensures
        final(context)@ == old(context)@.record_event(source, events_of(event_type)),
        outcome.fired == old(context)@.fired_by_event(events_of(event_type)),
        outcome.stop_run_loop == has_terminal(events_of(event_type)),
{
    let flags = EventFlags::from_bits(event_type);
    let fired = context.record_event(source, flags);
    CallbackOutcome { fired, stop_run_loop: flags.is_terminal() }
}

/// The handler registered with the read stream.
pub fn cfreadstream_callback(context: &mut SharedContext, event_type: usize) -> (outcome: CallbackOutcome)
    ensures
        final(context)@ == old(context)@.record_event(Direction::Read, events_of(event_type)),
        outcome.fired == old(context)@.fired_by_event(events_of(event_type)),
        outcome.stop_run_loop == has_terminal(events_of(event_type)),
{
    cfstream_callback(context, Direction::Read, event_type)
}

/// The handler registered with the write stream.
pub fn cfwritestream_callback(context: &mut SharedContext, event_type: usize) -> (outcome: CallbackOutcome)
    ensures
        final(context)@ == old(context)@.record_event(Direction::Write, events_of(event_type)),
        outcome.fired == old(context)@.fired_by_event(events_of(event_type)),
        outcome.stop_run_loop == has_terminal(events_of(event_type)),
{
    cfstream_callback(context, Direction::Write, event_type)
}

} // verus!

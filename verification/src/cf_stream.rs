//! What has been done to one native stream, so that it can be undone.
//!
//! The native calls are made by the thread that owns the run loop. It
//! reports each here, and asks here what is left to undo.

use vstd::prelude::*;

verus! {

/// Where a stream is scheduled: a run loop and a dispatch mode, each kept as
/// the address that the native layer knows it by.
#[derive(Clone, Copy, Debug, PartialEq, Eq, Structural)]
pub struct Schedule {
    pub run_loop: usize,
    pub mode: usize,
}

/// What is known of one native stream.
pub struct StreamModel<T> {
    /// The handle of the stream.
    pub stream: T,
    /// Whether the stream has accepted a client for its events.
    pub client_set: bool,
    /// The run loop and mode that the stream is scheduled on, if it is.
    pub scheduled: Option<Schedule>,
    /// Whether the stream is open.
    pub open: bool,
}

impl<T> StreamModel<T> {
    /// A stream to which nothing has been done.
    pub open spec fn fresh(stream: T) -> StreamModel<T> {
        StreamModel { stream, client_set: false, scheduled: None, open: false }
    }

    /// Whether nothing is left to undo.
    pub open spec fn is_idle(self) -> bool {
        !self.open && self.scheduled is None
    }

    /// The next thing to undo: an open stream is closed first, then it is
    /// taken off its run loop.
    pub open spec fn next_teardown(self) -> Option<TeardownStep> {
        if self.open {
            Some(TeardownStep::Close)
        } else if self.scheduled is Some {
            Some(TeardownStep::Unschedule(self.scheduled->0))
        } else {
            None
        }
    }

    /// The stream once its next thing to undo is undone.
    pub open spec fn after_teardown(self) -> StreamModel<T> {
        if self.open {
            StreamModel { open: false, ..self }
        } else {
            StreamModel { scheduled: None, ..self }
        }
    }
}

/// One native call that undoes part of what was done to a stream.
#[derive(Clone, Copy, Debug, PartialEq, Eq, Structural)]
pub enum TeardownStep {
    /// Close the stream.
    Close,
    /// Take the stream off the run loop, in the mode it was scheduled in.
    Unschedule(Schedule),
}

/// A native stream together with what has been done to it.
#[derive(Debug)]
pub struct CFStream<T> {
    stream: T,
    client_set: bool,
    scheduled: Option<Schedule>,
    open: bool,
}

impl<T> View for CFStream<T> {
    type V = StreamModel<T>;

    closed spec fn view(&self) -> StreamModel<T> {
        StreamModel {
            stream: self.stream,
            client_set: self.client_set,
            scheduled: self.scheduled,
            open: self.open,
        }
    }
}

impl<T> CFStream<T> {
    /// Wraps a stream to which nothing has been done yet.
    pub fn new(stream: T) -> (wrapped: CFStream<T>)
        ensures
            wrapped@ == StreamModel::fresh(stream),
    {
        CFStream { stream, client_set: false, scheduled: None, open: false }
    }

    /// The handle of the stream.
    pub fn stream(&self) -> (stream: &T)
        ensures
            *stream == self@.stream,
    {
        &self.stream
    }

    /// Whether the stream has accepted a client.
    pub fn has_client(&self) -> (set: bool)
        ensures
            set == self@.client_set,
    {
        self.client_set
    }

    /// The run loop and mode that the stream is scheduled on, if it is.
    pub fn scheduled(&self) -> (on: Option<Schedule>)
        ensures
            on == self@.scheduled,
    {
        self.scheduled
    }

    /// Whether the stream is open.
    pub fn is_open(&self) -> (open: bool)
        ensures
            open == self@.open,
    {
        self.open
    }

    /// Notes what the native call that sets the client returned: one says
    /// that the stream accepted the client, anything else that it did not.
    pub fn set_client(&mut self, native_result: u8) -> (accepted: bool)
        ensures
            accepted == (native_result == 1),
            final(self)@ == (StreamModel {
                client_set: old(self)@.client_set || accepted,
                ..old(self)@
            }),
    {
        let accepted = native_result == 1;
        if accepted {
            self.client_set = true;
        }
        accepted
    }

    /// Notes that the stream has been scheduled on `run_loop` in `mode`.
    /// The latest schedule is the one that teardown undoes.
    pub fn schedule(&mut self, run_loop: usize, mode: usize)
        ensures
            final(self)@ == (StreamModel {
                scheduled: Some(Schedule { run_loop, mode }),
                ..old(self)@
            }),
    {
        self.scheduled = Some(Schedule { run_loop, mode });
    }

    /// Notes what the native open call returned, which is a boolean: one
    /// says that the stream is open now, zero that it failed to open.
    pub fn open(&mut self, native_result: u8) -> (opened: bool)
        requires
            native_result == 0 || native_result == 1,
        ensures
            opened == (native_result == 1),
            final(self)@ == (StreamModel { open: old(self)@.open || opened, ..old(self)@ }),
    {
        if native_result == 1 {
            self.open = true;
            true
        } else {
            false
        }
    }

    /// Says which native call undoes the next part of what was done to the
    /// stream, and notes it as made: close first if the stream is open,
    /// then unschedule if it is scheduled. `None` when nothing is left.
    pub fn next_teardown(&mut self) -> (step: Option<TeardownStep>)
        ensures
            step == old(self)@.next_teardown(),
            old(self)@.is_idle() ==> final(self)@ == old(self)@,
            !old(self)@.is_idle() ==> final(self)@ == old(self)@.after_teardown(),
    {
        if self.open {
            self.open = false;
            Some(TeardownStep::Close)
        } else {
            match self.scheduled.take() {
                Some(schedule) => Some(TeardownStep::Unschedule(schedule)),
                None => None,
            }
        }
    }
}

/// A stream is torn down in at most two steps: after the second nothing is
/// left to undo, and the steps come in the order close, unschedule.
pub proof fn lemma_teardown_ends<T>(s: StreamModel<T>)
    ensures
        s.after_teardown().after_teardown().is_idle(),
        s.open ==> s.next_teardown() == Some(TeardownStep::Close),
        s.open && s.scheduled is Some ==> s.after_teardown().next_teardown() == Some(
            TeardownStep::Unschedule(s.scheduled->0),
        ),
        s.is_idle() <==> s.next_teardown() is None,
{
}

} // verus!

//! The thread that owns the native run loop, as a machine of steps.
//!
//! Every native call that is bound to the thread of the run loop is made by
//! that thread. What to call next is decided here: the thread asks for the
//! next action, performs it, and reports whether it succeeded.

use crate::cf_stream::{CFStream, Schedule, StreamModel, TeardownStep};
use crate::context::{ContextModel, Fired, SharedContext};
use crate::error::ChannelError;
use crate::event::Direction;
use vstd::prelude::*;

verus! {

/// A native call whose result the machine waits for.
#[derive(Clone, Copy, Debug, PartialEq, Eq, Structural)]
pub enum Awaited {
    /// Setting the client of a stream.
    Client(Direction),
    /// Opening a stream.
    Open(Direction),
}

/// What the thread is to do next.
#[derive(Clone, Copy, Debug, PartialEq, Eq, Structural)]
pub enum LoopAction {
    /// Take one reference to the shared context for the native side.
    /// Registration begins with this.
    RetainContext,
    /// Register the callback of the stream with the context as its client,
    /// for all five events, and report whether the stream accepted.
    SetClient(Direction),
    /// Schedule the stream on the run loop of this thread.
    Schedule(Direction, Schedule),
    /// Open the stream and report whether it opened.
    Open(Direction),
    /// Run the loop. This blocks until the loop is stopped.
    Run,
    /// Close the stream.
    Close(Direction),
    /// Take the stream off the run loop.
    Unschedule(Direction, Schedule),
    /// Record in the shared context that a stream failed to open.
    RecordOpenFailed,
    /// Give back the reference taken at the start.
    ReleaseContext,
    /// Leave the thread. Nothing is left to do.
    Exit,
}

/// The state of the thread, as mathematics.
pub struct LoopModel {
    /// The run loop of this thread and the dispatch mode that both streams
    /// share.
    pub home: Schedule,
    /// What has been done to the read stream.
    pub read: StreamModel<Direction>,
    /// What has been done to the write stream.
    pub write: StreamModel<Direction>,
    /// Whether the thread holds its reference to the context.
    pub holds_context: bool,
    /// The native call whose result the next step takes.
    pub awaiting: Option<Awaited>,
    /// Whether a stream refused its client or failed to open.
    pub failed: bool,
    /// Whether the loop was run.
    pub ran: bool,
    /// Whether the failure was recorded in the context.
    pub recorded: bool,
    /// Whether the thread was told to leave.
    pub exited: bool,
}

impl LoopModel {
    /// A thread that has done nothing yet.
    pub open spec fn initial(home: Schedule) -> LoopModel {
        LoopModel {
            home,
            read: StreamModel::fresh(Direction::Read),
            write: StreamModel::fresh(Direction::Write),
            holds_context: false,
            awaiting: None,
            failed: false,
            ran: false,
            recorded: false,
            exited: false,
        }
    }

    /// What has been done to the stream of `direction`.
    pub open spec fn stream(self, direction: Direction) -> StreamModel<Direction> {
        match direction {
            Direction::Read => self.read,
            Direction::Write => self.write,
        }
    }

    /// This state with `stream` in the place of the stream of `direction`.
    pub open spec fn with_stream(
        self,
        direction: Direction,
        stream: StreamModel<Direction>,
    ) -> LoopModel {
        match direction {
            Direction::Read => LoopModel { read: stream, ..self },
            Direction::Write => LoopModel { write: stream, ..self },
        }
    }

    /// Whether the thread is undoing what it did: after a failure, and
    /// after the loop has returned.
    pub open spec fn unwinding(self) -> bool {
        self.failed || self.ran
    }

    /// Whether nothing native is left behind: no stream open, none
    /// scheduled, the reference given back.
    pub open spec fn is_clean(self) -> bool {
        self.read.is_idle() && self.write.is_idle() && !self.holds_context
    }

    /// The state once the result `ok` of the awaited call is taken in. A
    /// refusal or a failure to open turns the thread round.
    pub open spec fn settle(self, ok: bool) -> LoopModel {
        match self.awaiting {
            None => self,
            Some(Awaited::Client(d)) => if ok {
                LoopModel {
                    awaiting: None,
                    ..self.with_stream(d, StreamModel { client_set: true, ..self.stream(d) })
                }
            } else {
                LoopModel { awaiting: None, failed: true, ..self }
            },
            Some(Awaited::Open(d)) => if ok {
                LoopModel {
                    awaiting: None,
                    ..self.with_stream(d, StreamModel { open: true, ..self.stream(d) })
                }
            } else {
                LoopModel { awaiting: None, failed: true, ..self }
            },
        }
    }

    /// The next call on the way to a running loop: take the reference,
    /// register and schedule the read stream, then the write stream, open
    /// the read stream, then the write stream, then run.
    pub open spec fn next_forward(self) -> LoopAction {
        if !self.holds_context {
            LoopAction::RetainContext
        } else if !self.read.client_set {
            LoopAction::SetClient(Direction::Read)
        } else if self.read.scheduled is None {
            LoopAction::Schedule(Direction::Read, self.home)
        } else if !self.write.client_set {
            LoopAction::SetClient(Direction::Write)
        } else if self.write.scheduled is None {
            LoopAction::Schedule(Direction::Write, self.home)
        } else if !self.read.open {
            LoopAction::Open(Direction::Read)
        } else if !self.write.open {
            LoopAction::Open(Direction::Write)
        } else {
            LoopAction::Run
        }
    }

    /// The next call on the way out: undo the write stream, then the read
    /// stream, each closed before it is unscheduled; record the failure if
    /// there was one; give the reference back; leave.
    pub open spec fn next_unwind(self) -> LoopAction {
        match self.write.next_teardown() {
            Some(TeardownStep::Close) => LoopAction::Close(Direction::Write),
            Some(TeardownStep::Unschedule(on)) => LoopAction::Unschedule(Direction::Write, on),
            None => match self.read.next_teardown() {
                Some(TeardownStep::Close) => LoopAction::Close(Direction::Read),
                Some(TeardownStep::Unschedule(on)) => LoopAction::Unschedule(Direction::Read, on),
                None => if self.failed && !self.recorded {
                    LoopAction::RecordOpenFailed
                } else if self.holds_context {
                    LoopAction::ReleaseContext
                } else {
                    LoopAction::Exit
                },
            },
        }
    }

    /// The next call, for a state with no result outstanding.
    pub open spec fn next_action(self) -> LoopAction {
        if self.exited {
            LoopAction::Exit
        } else if self.unwinding() {
            self.next_unwind()
        } else {
            self.next_forward()
        }
    }

    /// The state once `action` is handed to the thread. A call with a
    /// result is waited for; every other call counts as made.
    pub open spec fn issue(self, action: LoopAction) -> LoopModel {
        match action {
            LoopAction::RetainContext => LoopModel { holds_context: true, ..self },
            LoopAction::SetClient(d) => LoopModel { awaiting: Some(Awaited::Client(d)), ..self },
            LoopAction::Schedule(d, on) => self.with_stream(
                d,
                StreamModel { scheduled: Some(on), ..self.stream(d) },
            ),
            LoopAction::Open(d) => LoopModel { awaiting: Some(Awaited::Open(d)), ..self },
            LoopAction::Run => LoopModel { ran: true, ..self },
            LoopAction::Close(d) => self.with_stream(d, self.stream(d).after_teardown()),
            LoopAction::Unschedule(d, on) => self.with_stream(d, self.stream(d).after_teardown()),
            LoopAction::RecordOpenFailed => LoopModel { recorded: true, ..self },
            LoopAction::ReleaseContext => LoopModel { holds_context: false, ..self },
            LoopAction::Exit => LoopModel { exited: true, ..self },
        }
    }

    /// One step: the result of the last call is taken in, and the next call
    /// is chosen and handed out.
    pub open spec fn step(self, ok: bool) -> (LoopModel, LoopAction) {
        let settled = self.settle(ok);
        let action = settled.next_action();
        (settled.issue(action), action)
    }

    /// The weight of a call with a result on the way to a running loop:
    /// nothing once it has succeeded, less once it is waited for.
    pub open spec fn goal(met: bool, awaited: bool) -> nat {
        if met {
            0
        } else if awaited {
            3
        } else {
            4
        }
    }

    /// A bound on the calls that are still to be made on the way to a
    /// running loop, weighted so that each weighs more than what it leaves
    /// to undo.
    pub open spec fn forward_weight(self) -> nat {
        3 * one_if(!self.holds_context) + Self::goal(
            self.read.client_set,
            self.awaiting == Some(Awaited::Client(Direction::Read)),
        ) + 3 * one_if(self.read.scheduled is None) + Self::goal(
            self.write.client_set,
            self.awaiting == Some(Awaited::Client(Direction::Write)),
        ) + 3 * one_if(self.write.scheduled is None) + Self::goal(
            self.read.open,
            self.awaiting == Some(Awaited::Open(Direction::Read)),
        ) + Self::goal(self.write.open, self.awaiting == Some(Awaited::Open(Direction::Write)))
            + 3
    }

    /// A bound on the steps that the thread still takes before it has been
    /// told to leave.
    pub open spec fn remaining(self) -> nat {
        if self.exited {
            0
        } else {
            1 + one_if(self.read.open) + one_if(self.read.scheduled is Some) + one_if(
                self.write.open,
            ) + one_if(self.write.scheduled is Some) + one_if(self.holds_context) + one_if(
                self.failed && !self.recorded,
            ) + if self.unwinding() {
                0
            } else {
                self.forward_weight()
            }
        }
    }

    /// What holds of every state that the thread can be in.
    pub open spec fn wf(self) -> bool {
        &&& self.read.stream == Direction::Read
        &&& self.write.stream == Direction::Write
        &&& !(self.failed && self.ran)
        &&& self.recorded ==> self.failed
        &&& self.awaiting is Some ==> !self.unwinding() && !self.exited && self.holds_context
        &&& self.exited ==> self.is_clean() && self.unwinding() && (self.failed ==> self.recorded)
        &&& self.ran ==> self.read.client_set && self.write.client_set
        &&& (self.read.open || self.write.open || self.awaiting matches Some(Awaited::Open(_)))
            && !self.unwinding() ==> self.read.scheduled is Some && self.write.scheduled is Some
                && self.read.client_set && self.write.client_set
    }
}

/// The thread of the run loop: what it has done so far, and what it waits
/// for.
#[derive(Debug)]
pub struct EventLoopThread {
    home: Schedule,
    read: CFStream<Direction>,
    write: CFStream<Direction>,
    holds_context: bool,
    awaiting: Option<Awaited>,
    failed: bool,
    ran: bool,
    recorded: bool,
    exited: bool,
}

impl View for EventLoopThread {
    type V = LoopModel;

    closed spec fn view(&self) -> LoopModel {
        LoopModel {
            home: self.home,
            read: self.read@,
            write: self.write@,
            holds_context: self.holds_context,
            awaiting: self.awaiting,
            failed: self.failed,
            ran: self.ran,
            recorded: self.recorded,
            exited: self.exited,
        }
    }
}

impl EventLoopThread {
    /// A thread that has done nothing yet, for the run loop at the address
    /// `run_loop` and the dispatch mode at the address `mode`.
    pub fn new(run_loop: usize, mode: usize) -> (thread: EventLoopThread)
        ensures
            thread@ == LoopModel::initial(Schedule { run_loop, mode }),
            thread@.wf(),
    {
        EventLoopThread {
            home: Schedule { run_loop, mode },
            read: CFStream::new(Direction::Read),
            write: CFStream::new(Direction::Write),
            holds_context: false,
            awaiting: None,
            failed: false,
            ran: false,
            recorded: false,
            exited: false,
        }
    }

    /// Whether the thread was told to leave.
    pub fn is_finished(&self) -> (finished: bool)
        ensures
            finished == self@.exited,
    {
        self.exited
    }

    /// Whether a stream refused its client or failed to open.
    pub fn has_failed(&self) -> (failed: bool)
        ensures
            failed == self@.failed,
    {
        self.failed
    }

    /// The native call whose result the next step takes.
    pub fn awaiting(&self) -> (awaited: Option<Awaited>)
        ensures
            awaited == self@.awaiting,
    {
        self.awaiting
    }

    /// Takes in the result of the awaited call.
    fn settle(&mut self, ok: bool)
        ensures
            final(self)@ == old(self)@.settle(ok),
    {
        match self.awaiting.take() {
            None => {},
            Some(Awaited::Client(d)) => {
                if ok {
                    match d {
                        Direction::Read => {
                            self.read.set_client(1);
                        },
                        Direction::Write => {
                            self.write.set_client(1);
                        },
                    }
                } else {
                    self.failed = true;
                }
            },
            Some(Awaited::Open(d)) => {
                if ok {
                    match d {
                        Direction::Read => {
                            self.read.open(1);
                        },
                        Direction::Write => {
                            self.write.open(1);
                        },
                    }
                } else {
                    self.failed = true;
                }
            },
        }
    }

    /// Chooses the next call on the way to a running loop and notes it.
    fn forward(&mut self) -> (action: LoopAction)
        requires
            old(self)@.awaiting is None,
        ensures
            action == old(self)@.next_forward(),
            final(self)@ == old(self)@.issue(action),
    {
        if !self.holds_context {
            self.holds_context = true;
            LoopAction::RetainContext
        } else if !self.read.has_client() {
            self.awaiting = Some(Awaited::Client(Direction::Read));
            LoopAction::SetClient(Direction::Read)
        } else if self.read.scheduled().is_none() {
            self.read.schedule(self.home.run_loop, self.home.mode);
            LoopAction::Schedule(Direction::Read, self.home)
        } else if !self.write.has_client() {
            self.awaiting = Some(Awaited::Client(Direction::Write));
            LoopAction::SetClient(Direction::Write)
        } else if self.write.scheduled().is_none() {
            self.write.schedule(self.home.run_loop, self.home.mode);
            LoopAction::Schedule(Direction::Write, self.home)
        } else if !self.read.is_open() {
            self.awaiting = Some(Awaited::Open(Direction::Read));
            LoopAction::Open(Direction::Read)
        } else if !self.write.is_open() {
            self.awaiting = Some(Awaited::Open(Direction::Write));
            LoopAction::Open(Direction::Write)
        } else {
            self.ran = true;
            LoopAction::Run
        }
    }

    /// Chooses the next call on the way out and notes it.
    fn unwind(&mut self) -> (action: LoopAction)
        ensures
            action == old(self)@.next_unwind(),
            final(self)@ == old(self)@.issue(action),
    {
        match self.write.next_teardown() {
            Some(TeardownStep::Close) => LoopAction::Close(Direction::Write),
            Some(TeardownStep::Unschedule(on)) => LoopAction::Unschedule(Direction::Write, on),
            None => match self.read.next_teardown() {
                Some(TeardownStep::Close) => LoopAction::Close(Direction::Read),
                Some(TeardownStep::Unschedule(on)) => LoopAction::Unschedule(Direction::Read, on),
                None => {
                    if self.failed && !self.recorded {
                        self.recorded = true;
                        LoopAction::RecordOpenFailed
                    } else if self.holds_context {
                        self.holds_context = false;
                        LoopAction::ReleaseContext
                    } else {
                        self.exited = true;
                        LoopAction::Exit
                    }
                },
            },
        }
    }

    /// One step of the thread. `ok` says whether the call that the last
    /// step asked for succeeded; it is read only where that call was one
    /// that sets a client or opens a stream. The result is the next call to
    /// make. Once it is `Exit`, it stays `Exit`.
    pub fn step(&mut self, ok: bool) -> (action: LoopAction)
        ensures
            (final(self)@, action) == old(self)@.step(ok),
            old(self)@.wf() ==> final(self)@.wf(),
    {
        self.settle(ok);
        let action = if self.exited {
            LoopAction::Exit
        } else if self.failed || self.ran {
            self.unwind()
        } else {
            self.forward()
        };
        proof {
            lemma_step_keeps_wf(old(self)@, ok);
        }
        action
    }
}

/// Every state that the thread reaches from its start is well formed.
pub proof fn lemma_step_keeps_wf(m: LoopModel, ok: bool)
    ensures
        LoopModel::initial(m.home).wf(),
        m.wf() ==> m.step(ok).0.wf(),
        m.step(ok).0.home == m.home,
{
}

/// Nothing is abandoned: when the thread is told to leave, no stream is
/// open, none is scheduled, the reference to the context is given back,
/// and a failure, if there was one, has been recorded.
pub proof fn lemma_exit_leaves_nothing(m: LoopModel, ok: bool)
    requires
        m.wf(),
        m.step(ok).1 == LoopAction::Exit,
    ensures
        m.step(ok).0.exited,
        m.step(ok).0.is_clean(),
        m.step(ok).0.failed ==> m.step(ok).0.recorded,
        m.step(ok).0.failed || m.step(ok).0.ran,
{
}

/// The loop is run only with everything in place: both streams have their
/// client, are scheduled and are open, the reference to the context is
/// held, and nothing has failed.
pub proof fn lemma_run_needs_both_open(m: LoopModel, ok: bool)
    requires
        m.wf(),
        m.step(ok).1 == LoopAction::Run,
    ensures
        m.settle(ok).read.client_set && m.settle(ok).read.scheduled is Some && m.settle(
            ok,
        ).read.open,
        m.settle(ok).write.client_set && m.settle(ok).write.scheduled is Some && m.settle(
            ok,
        ).write.open,
        m.settle(ok).holds_context,
        !m.step(ok).0.failed,
{
}

/// A stream that refuses its client or fails to open turns the thread
/// round: from then on it only undoes, records and leaves, and never runs
/// the loop.
pub proof fn lemma_failure_never_runs(m: LoopModel, ok: bool)
    requires
        m.wf(),
        m.awaiting is Some && !ok || m.failed,
    ensures
        m.step(ok).0.failed,
        match m.step(ok).1 {
            LoopAction::Close(_) => true,
            LoopAction::Unschedule(_, _) => true,
            LoopAction::RecordOpenFailed => true,
            LoopAction::ReleaseContext => true,
            LoopAction::Exit => true,
            _ => false,
        },
{
}

/// The state after a run of steps, one result for each.
pub open spec fn run(m: LoopModel, oks: Seq<bool>) -> LoopModel
    decreases oks.len(),
{
    if oks.len() == 0 {
        m
    } else {
        run(m.step(oks[0]).0, oks.drop_first())
    }
}

/// One where `hit` holds, zero where it does not.
pub open spec fn one_if(hit: bool) -> nat {
    if hit {
        1
    } else {
        0
    }
}

/// How often `action` is handed out in a run of steps.
pub open spec fn issued(m: LoopModel, oks: Seq<bool>, action: LoopAction) -> nat
    decreases oks.len(),
{
    if oks.len() == 0 {
        0
    } else {
        one_if(m.step(oks[0]).1 == action) + issued(m.step(oks[0]).0, oks.drop_first(), action)
    }
}

/// What ties a state to the counts of the calls handed out before it.
spec fn accounted(m: LoopModel, retained: nat, released: nat, recorded: nat, runs: nat) -> bool {
    &&& m.wf()
    &&& retained == released + one_if(m.holds_context)
    &&& retained <= 1
    &&& retained == 0 ==> !m.unwinding() && !m.exited
    &&& released >= 1 ==> m.unwinding()
    &&& recorded == one_if(m.recorded)
    &&& runs == one_if(m.ran)
}

proof fn lemma_accounted(
    m: LoopModel,
    oks: Seq<bool>,
    retained: nat,
    released: nat,
    recorded: nat,
    runs: nat,
)
    requires
        accounted(m, retained, released, recorded, runs),
    ensures
        accounted(
            run(m, oks),
            retained + issued(m, oks, LoopAction::RetainContext),
            released + issued(m, oks, LoopAction::ReleaseContext),
            recorded + issued(m, oks, LoopAction::RecordOpenFailed),
            runs + issued(m, oks, LoopAction::Run),
        ),
    decreases oks.len(),
{
    if oks.len() > 0 {
        let next = m.step(oks[0]);
        lemma_accounted(
            next.0,
            oks.drop_first(),
            retained + one_if(next.1 == LoopAction::RetainContext),
            released + one_if(next.1 == LoopAction::ReleaseContext),
            recorded + one_if(next.1 == LoopAction::RecordOpenFailed),
            runs + one_if(next.1 == LoopAction::Run),
        );
    }
}

/// From its start and through every run of steps, whatever the results: the
/// thread takes its reference to the context at most once and gives back
/// only what it took; it runs the loop at most once and records a failure
/// at most once. When it has left, it has taken the reference once and
/// given it back once, and it has either run the loop and recorded
/// nothing, or recorded one failure and not run the loop.
pub proof fn lemma_thread_accounts(home: Schedule, oks: Seq<bool>)
    ensures
        run(LoopModel::initial(home), oks).wf(),
        issued(LoopModel::initial(home), oks, LoopAction::RetainContext) <= 1,
        issued(LoopModel::initial(home), oks, LoopAction::ReleaseContext) <= issued(
            LoopModel::initial(home),
            oks,
            LoopAction::RetainContext,
        ),
        issued(LoopModel::initial(home), oks, LoopAction::Run) <= 1,
        issued(LoopModel::initial(home), oks, LoopAction::RecordOpenFailed) <= 1,
        run(LoopModel::initial(home), oks).exited ==> {
            &&& issued(LoopModel::initial(home), oks, LoopAction::RetainContext) == 1
            &&& issued(LoopModel::initial(home), oks, LoopAction::ReleaseContext) == 1
            &&& issued(LoopModel::initial(home), oks, LoopAction::Run) + issued(
                LoopModel::initial(home),
                oks,
                LoopAction::RecordOpenFailed,
            ) == 1
            &&& run(LoopModel::initial(home), oks).failed == (issued(
                LoopModel::initial(home),
                oks,
                LoopAction::RecordOpenFailed,
            ) == 1)
        },
{
    lemma_accounted(LoopModel::initial(home), oks, 0, 0, 0, 0);
}

/// The most steps that a thread takes from its start until it is told to
/// leave, not counting the time that the loop runs.
pub const MAX_STEPS: usize = 29;

/// Taking in a result never adds to the steps that remain, and leaves a
/// well-formed state with no result outstanding.
proof fn lemma_settle_weight(m: LoopModel, ok: bool)
    requires
        m.wf(),
        !m.exited,
    ensures
        m.settle(ok).wf(),
        m.settle(ok).awaiting is None,
        !m.settle(ok).exited,
        m.settle(ok).remaining() <= m.remaining(),
{
    match m.awaiting {
        None => {},
        Some(Awaited::Client(d)) => {
            match d {
                Direction::Read => {},
                Direction::Write => {},
            }
        },
        Some(Awaited::Open(d)) => {
            match d {
                Direction::Read => {},
                Direction::Write => {},
            }
        },
    }
}

/// Each call on the way to a running loop takes from the steps that remain.
proof fn lemma_forward_weight(s: LoopModel)
    requires
        s.wf(),
        s.awaiting is None,
        !s.exited,
        !s.unwinding(),
    ensures
        s.issue(s.next_forward()).remaining() < s.remaining(),
{
    let a = s.next_forward();
    match a {
        LoopAction::RetainContext => {},
        LoopAction::SetClient(d) => {},
        LoopAction::Schedule(d, on) => {},
        LoopAction::Open(d) => {},
        _ => {},
    }
}

/// Each call on the way out takes from the steps that remain.
proof fn lemma_unwind_weight(s: LoopModel)
    requires
        s.wf(),
        s.awaiting is None,
        !s.exited,
        s.unwinding(),
    ensures
        s.issue(s.next_unwind()).remaining() < s.remaining(),
{
}

/// Every step brings the thread closer to leaving: the bound on the steps
/// that remain goes down with each, whatever the result reported.
pub proof fn lemma_step_makes_progress(m: LoopModel, ok: bool)
    requires
        m.wf(),
        !m.exited,
    ensures
        m.step(ok).0.remaining() < m.remaining(),
        LoopModel::initial(m.home).remaining() == MAX_STEPS,
{
    lemma_settle_weight(m, ok);
    let s = m.settle(ok);
    if s.unwinding() {
        lemma_unwind_weight(s);
    } else {
        lemma_forward_weight(s);
    }
}

/// The thread always leaves: from its start, after as many steps as the
/// bound says, whatever the results reported, it has been told to leave
/// and has left nothing behind.
pub proof fn lemma_thread_leaves(home: Schedule, oks: Seq<bool>)
    requires
        oks.len() >= MAX_STEPS,
    ensures
        run(LoopModel::initial(home), oks).exited,
        run(LoopModel::initial(home), oks).is_clean(),
{
    lemma_step_keeps_wf(LoopModel::initial(home), true);
    lemma_step_makes_progress(LoopModel::initial(home), true);
    lemma_countdown(LoopModel::initial(home), oks);
}

proof fn lemma_countdown(m: LoopModel, oks: Seq<bool>)
    requires
        m.wf(),
    ensures
        run(m, oks).wf(),
        run(m, oks).remaining() + oks.len() <= m.remaining() || run(m, oks).exited,
    decreases oks.len(),
{
    if oks.len() > 0 {
        lemma_step_keeps_wf(m, oks[0]);
        if m.exited {
            lemma_exited_stays(m, oks);
        } else {
            lemma_step_makes_progress(m, oks[0]);
            lemma_countdown(m.step(oks[0]).0, oks.drop_first());
        }
    }
}

proof fn lemma_exited_stays(m: LoopModel, oks: Seq<bool>)
    requires
        m.wf(),
        m.exited,
    ensures
        run(m, oks) == m,
    decreases oks.len(),
{
    if oks.len() > 0 {
        assert(m.step(oks[0]).0 == m);
        lemma_exited_stays(m, oks.drop_first());
    }
}

/// The shared context once the part of `action` that concerns it is carried
/// out: taking the reference is counted and marks the channel as opening,
/// giving it back is counted, and a failure to open is recorded.
pub open spec fn noted(c: ContextModel, action: LoopAction) -> ContextModel {
    match action {
        LoopAction::RetainContext => if c.native_refs < usize::MAX {
            c.begin_opening().retain()
        } else {
            c.begin_opening()
        },
        LoopAction::ReleaseContext => if c.native_refs == 0 {
            c
        } else {
            c.release()
        },
        LoopAction::RecordOpenFailed => c.record_error(ChannelError::OpenFailed),
        _ => c,
    }
}

impl LoopAction {
    /// Carries out on the shared context the part of this action that
    /// concerns it, and hands out the wakers of the tasks that a recorded
    /// failure leaves nothing to wait for.
    pub fn note(self, context: &mut SharedContext) -> (fired: Fired)
        ensures
            final(context)@ == noted(old(context)@, self),
            self is RecordOpenFailed ==> fired.read == old(context)@.read_waker && fired.write
                == old(context)@.write_waker,
            !(self is RecordOpenFailed) ==> fired.read is None && fired.write is None,
    {
        match self {
            LoopAction::RetainContext => {
                context.begin_opening();
                let _ = context.retain();
                Fired::none()
            },
            LoopAction::ReleaseContext => {
                let _ = context.release();
                Fired::none()
            },
            LoopAction::RecordOpenFailed => context.record_error(ChannelError::OpenFailed),
            _ => Fired::none(),
        }
    }
}

/// The shared context after a run of steps, each action noted on it.
pub open spec fn context_after(m: LoopModel, c: ContextModel, oks: Seq<bool>) -> ContextModel
    decreases oks.len(),
{
    if oks.len() == 0 {
        c
    } else {
        context_after(m.step(oks[0]).0, noted(c, m.step(oks[0]).1), oks.drop_first())
    }
}

/// What ties the context to the thread in the middle of a run that began
/// on the context `start`.
spec fn in_step(m: LoopModel, c: ContextModel, start: ContextModel, touched: bool) -> bool {
    &&& m.wf()
    &&& start.native_refs < usize::MAX
    &&& c.native_refs == start.native_refs + one_if(m.holds_context)
    &&& !touched ==> c == start && !m.holds_context && !m.unwinding()
    &&& touched ==> c.opening && (m.holds_context || m.unwinding())
    &&& c.events == start.events
    &&& c.resource == start.resource
    &&& c.error == if m.recorded && start.error is None {
        Some(ChannelError::OpenFailed)
    } else {
        start.error
    }
}

proof fn lemma_in_step(
    m: LoopModel,
    c: ContextModel,
    start: ContextModel,
    touched: bool,
    oks: Seq<bool>,
)
    requires
        in_step(m, c, start, touched),
    ensures
        in_step(run(m, oks), context_after(m, c, oks), start, touched || oks.len() > 0),
    decreases oks.len(),
{
    if oks.len() > 0 {
        lemma_in_step(m.step(oks[0]).0, noted(c, m.step(oks[0]).1), start, true, oks.drop_first());
    }
}

/// A thread that runs from its start on a context, each of its actions
/// noted there: the count of references held by the native side is what it
/// was plus the one that the thread holds, so it is back where it was when
/// the thread has left; the channel counts as opening from the first step
/// on; and a failure to open is in the context when the thread has left,
/// unless an earlier failure is.
pub proof fn lemma_thread_on_context(home: Schedule, c: ContextModel, oks: Seq<bool>)
    requires
        c.native_refs < usize::MAX,
    ensures
        context_after(LoopModel::initial(home), c, oks).native_refs == c.native_refs + one_if(
            run(LoopModel::initial(home), oks).holds_context,
        ),
        run(LoopModel::initial(home), oks).exited ==> context_after(
            LoopModel::initial(home),
            c,
            oks,
        ).native_refs == c.native_refs,
        oks.len() > 0 ==> context_after(LoopModel::initial(home), c, oks).opening,
        run(LoopModel::initial(home), oks).exited && run(LoopModel::initial(home), oks).failed
            ==> context_after(LoopModel::initial(home), c, oks).error == if c.error is None {
            Some(ChannelError::OpenFailed)
        } else {
            c.error
        },
        !run(LoopModel::initial(home), oks).failed ==> context_after(
            LoopModel::initial(home),
            c,
            oks,
        ).error == c.error,
{
    lemma_in_step(LoopModel::initial(home), c, c, false, oks);
}

} // verus!

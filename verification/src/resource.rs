//! The transport resource under a channel, and who releases it.
//!
//! A short-lived session object holds the resource first. The channel takes
//! it over for the rest of its life. From then on the session object has
//! nothing to release, so that exactly one path ever releases the resource.

use crate::error::ChannelError;
use vstd::prelude::*;

verus! {

/// Whether a handle was found and is well formed: native handles are not
/// negative.
pub open spec fn is_usable(handle: Option<i32>) -> bool {
    handle matches Some(h) && h >= 0
}

/// The one resource that the handles of the two directions name, or why
/// they do not name one.
pub open spec fn validated(input: Option<i32>, output: Option<i32>) -> Result<i32, ChannelError> {
    if !is_usable(input) || !is_usable(output) {
        Err(ChannelError::PropertyUnavailable)
    } else if input->0 != output->0 {
        Err(ChannelError::ReferenceMismatch)
    } else {
        Ok(input->0)
    }
}

/// Checks the handles obtained from the input and the output stream, each
/// `None` where the stream had none to give: both have to be there and well
/// formed, and both have to name the same resource.
pub fn validate_handles(input: Option<i32>, output: Option<i32>) -> (handle: Result<
    i32,
    ChannelError,
>)
    ensures
        handle == validated(input, output),
{
    match (input, output) {
        (Some(i), Some(o)) => {
            if i < 0 || o < 0 {
                Err(ChannelError::PropertyUnavailable)
            } else if i != o {
                Err(ChannelError::ReferenceMismatch)
            } else {
                Ok(i)
            }
        },
        _ => Err(ChannelError::PropertyUnavailable),
    }
}

/// The hold that a session object has on its transport resource: the
/// handle, until the resource is handed over, and nothing from then on.
#[derive(Debug)]
pub struct SessionResource {
    handle: Option<i32>,
}

impl View for SessionResource {
    type V = Option<i32>;

    closed spec fn view(&self) -> Option<i32> {
        self.handle
    }
}

impl SessionResource {
    /// The hold of a session object on the resource `handle`.
    pub fn new(handle: i32) -> (session: SessionResource)
        ensures
            session@ == Some(handle),
    {
        SessionResource { handle: Some(handle) }
    }

    /// Whether the resource has been handed over.
    pub fn is_transferred(&self) -> (gone: bool)
        ensures
            gone == (self@ is None),
    {
        self.handle.is_none()
    }

    /// The resource that the session still holds, for the calls that
    /// prepare the handover.
    pub fn handle(&self) -> (held: Option<i32>)
        ensures
            held == self@,
    {
        self.handle
    }

    /// What the session object has to release when it is torn down: its
    /// resource, unless that has been handed over or released before.
    /// Afterwards it holds nothing.
    pub fn teardown(&mut self) -> (to_release: Option<i32>)
        ensures
            to_release == old(self)@,
            final(self)@ is None,
    {
        self.handle.take()
    }
}

/// A transport resource that a channel holds for its exclusive use. There
/// is no copy of it: whoever turns it back into the raw handle is the one
/// to release it.
#[derive(Debug)]
pub struct OwnedResource {
    handle: i32,
}

impl View for OwnedResource {
    type V = i32;

    closed spec fn view(&self) -> i32 {
        self.handle
    }
}

/// The outcome of handing the resource of a session over: nothing to hand
/// over is a missing property, and a resource that could not be switched to
/// non-blocking mode stays with the session.
pub open spec fn adopted(session: Option<i32>, switched: bool) -> Result<i32, ChannelError> {
    match session {
        None => Err(ChannelError::PropertyUnavailable),
        Some(handle) => if switched {
            Ok(handle)
        } else {
            Err(ChannelError::NonBlockingModeFailed)
        },
    }
}

impl OwnedResource {
    /// Takes the resource of `session` over for a channel. `switched` says
    /// whether the resource was switched to non-blocking mode. On success
    /// the session holds nothing any more; on failure it holds what it
    /// held.
    pub fn adopt(session: &mut SessionResource, switched: bool) -> (owned: Result<
        OwnedResource,
        ChannelError,
    >)
        ensures
            adopted(old(session)@, switched) matches Ok(handle) ==> owned is Ok && owned->Ok_0@
                == handle && final(session)@ is None,
            adopted(old(session)@, switched) matches Err(error) ==> owned is Err && owned->Err_0
                == error && final(session)@ == old(session)@,
    {
        if session.is_transferred() {
            Err(ChannelError::PropertyUnavailable)
        } else if !switched {
            Err(ChannelError::NonBlockingModeFailed)
        } else {
            match session.teardown() {
                Some(handle) => Ok(OwnedResource { handle }),
                None => Err(ChannelError::PropertyUnavailable),
            }
        }
    }

    /// The raw handle, for the calls that use the resource.
    pub fn handle(&self) -> (handle: i32)
        ensures
            handle == self@,
    {
        self.handle
    }

    /// Turns the resource back into its raw handle, to be released. This
    /// uses the resource up.
    pub fn into_raw(self) -> (handle: i32)
        ensures
            handle == self@,
    {
        self.handle
    }
}

/// One thing done with the hold of a session on its resource.
pub enum Handoff {
    /// The channel tries to take the resource over.
    Adopt { switched: bool },
    /// The session object is torn down.
    Teardown,
}

/// Whether the step puts the resource into the hands of the one who does
/// it.
pub open spec fn hands_out(session: Option<i32>, step: Handoff) -> bool {
    match step {
        Handoff::Adopt { switched } => adopted(session, switched) is Ok,
        Handoff::Teardown => session is Some,
    }
}

/// The hold of the session after the step.
pub open spec fn after_handoff(session: Option<i32>, step: Handoff) -> Option<i32> {
    if hands_out(session, step) {
        None
    } else {
        session
    }
}

/// How many of the steps put the resource into somebody's hands.
pub open spec fn handed_out(session: Option<i32>, steps: Seq<Handoff>) -> nat
    decreases steps.len(),
{
    if steps.len() == 0 {
        0
    } else {
        (if hands_out(session, steps[0]) {
            1nat
        } else {
            0nat
        }) + handed_out(after_handoff(session, steps[0]), steps.drop_first())
    }
}

/// Whether the session object is torn down among the steps.
pub open spec fn torn_down(steps: Seq<Handoff>) -> bool {
    exists|i: int| 0 <= i < steps.len() && steps[i] is Teardown
}

/// There is one owner. Whatever is tried and in whatever order, the
/// resource comes into at most one pair of hands, so at most one path
/// releases it; and once the session object has been torn down it has come
/// into exactly one.
pub proof fn lemma_single_owner(handle: i32, steps: Seq<Handoff>)
    ensures
        handed_out(Some(handle), steps) <= 1,
        handed_out(None, steps) == 0,
        torn_down(steps) ==> handed_out(Some(handle), steps) == 1,
    decreases steps.len(),
{
    lemma_nothing_left(steps);
    if steps.len() > 0 {
        let rest = steps.drop_first();
        lemma_single_owner(handle, rest);
        lemma_nothing_left(rest);
        if torn_down(steps) && !hands_out(Some(handle), steps[0]) {
            let i = choose|i: int| 0 <= i < steps.len() && steps[i] is Teardown;
            assert(i > 0);
            assert(rest[i - 1] is Teardown);
        }
    }
}

proof fn lemma_nothing_left(steps: Seq<Handoff>)
    ensures
        handed_out(None, steps) == 0,
    decreases steps.len(),
{
    if steps.len() > 0 {
        lemma_nothing_left(steps.drop_first());
    }
}

/// One thing done when the last holder of a channel lets go of it.
#[derive(Clone, Copy, Debug, PartialEq, Eq, Hash, Structural)]
pub enum TeardownAction {
    /// Signal the run loop to stop.
    StopLoop,
    /// Wait for the thread of the run loop to end.
    JoinThread,
    /// Tear the shared context down, which hands out the transport
    /// resource that it owns.
    CloseContext,
    /// Release the transport resource.
    ReleaseResource,
}

/// What is done to tear a channel down, in order: the loop is stopped and
/// its thread joined before anything is given up, then the context is torn
/// down, and the resource it owned is released last.
pub open spec fn teardown_steps(thread_started: bool, owns_resource: bool) -> Seq<TeardownAction> {
    (if thread_started {
        seq![TeardownAction::StopLoop, TeardownAction::JoinThread]
    } else {
        Seq::empty()
    }) + seq![TeardownAction::CloseContext] + (if owns_resource {
        seq![TeardownAction::ReleaseResource]
    } else {
        Seq::empty()
    })
}

/// What is to be done to tear a channel down, in order, given whether the
/// thread of the run loop was started and whether the context of the
/// channel owns a transport resource.
pub fn teardown_plan(thread_started: bool, owns_resource: bool) -> (plan: Vec<TeardownAction>)
    ensures
        plan@ == teardown_steps(thread_started, owns_resource),
{
    let mut plan: Vec<TeardownAction> = Vec::new();
    if thread_started {
        plan.push(TeardownAction::StopLoop);
        plan.push(TeardownAction::JoinThread);
    }
    plan.push(TeardownAction::CloseContext);
    if owns_resource {
        plan.push(TeardownAction::ReleaseResource);
    }
    proof {
        assert(plan@ =~= teardown_steps(thread_started, owns_resource));
    }
    plan
}

/// Whether `first` comes before `second` wherever both are among `steps`.
pub open spec fn precedes(
    steps: Seq<TeardownAction>,
    first: TeardownAction,
    second: TeardownAction,
) -> bool {
    forall|i: int, j: int|
        0 <= i < steps.len() && 0 <= j < steps.len() && steps[i] == first && steps[j] == second
            ==> i < j
}

/// In every teardown nothing is done twice, the loop is stopped before its
/// thread is joined, the thread is joined before the context is torn down,
/// and the resource is released after both, where there is one.
pub proof fn lemma_teardown_order(thread_started: bool, owns_resource: bool)
    ensures
        teardown_steps(thread_started, owns_resource).no_duplicates(),
        teardown_steps(thread_started, owns_resource).contains(TeardownAction::CloseContext),
        teardown_steps(thread_started, owns_resource).contains(TeardownAction::JoinThread)
            == thread_started,
        teardown_steps(thread_started, owns_resource).contains(TeardownAction::ReleaseResource)
            == owns_resource,
        precedes(
            teardown_steps(thread_started, owns_resource),
            TeardownAction::StopLoop,
            TeardownAction::JoinThread,
        ),
        precedes(
            teardown_steps(thread_started, owns_resource),
            TeardownAction::JoinThread,
            TeardownAction::CloseContext,
        ),
        precedes(
            teardown_steps(thread_started, owns_resource),
            TeardownAction::JoinThread,
            TeardownAction::ReleaseResource,
        ),
        precedes(
            teardown_steps(thread_started, owns_resource),
            TeardownAction::CloseContext,
            TeardownAction::ReleaseResource,
        ),
{
    let plan = teardown_steps(thread_started, owns_resource);
    if thread_started {
        if owns_resource {
            assert(plan =~= seq![
                TeardownAction::StopLoop,
                TeardownAction::JoinThread,
                TeardownAction::CloseContext,
                TeardownAction::ReleaseResource,
            ]);
            assert(plan[1] == TeardownAction::JoinThread);
            assert(plan[2] == TeardownAction::CloseContext);
            assert(plan[3] == TeardownAction::ReleaseResource);
        } else {
            assert(plan =~= seq![
                TeardownAction::StopLoop,
                TeardownAction::JoinThread,
                TeardownAction::CloseContext,
            ]);
            assert(plan[1] == TeardownAction::JoinThread);
            assert(plan[2] == TeardownAction::CloseContext);
        }
    } else {
        if owns_resource {
            assert(plan =~= seq![TeardownAction::CloseContext, TeardownAction::ReleaseResource]);
            assert(plan[0] == TeardownAction::CloseContext);
            assert(plan[1] == TeardownAction::ReleaseResource);
        } else {
            assert(plan =~= seq![TeardownAction::CloseContext]);
            assert(plan[0] == TeardownAction::CloseContext);
        }
    }
}

} // verus!

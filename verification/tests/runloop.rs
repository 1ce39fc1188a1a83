use bluest::cf_stream::{CFStream, Schedule, TeardownStep};
use bluest::context::{ChannelState, SharedContext};
use bluest::error::ChannelError;
use bluest::event::Direction::{Read, Write};
use bluest::resource::{teardown_plan, validate_handles, OwnedResource, SessionResource, TeardownAction};
use bluest::runloop::{Awaited, EventLoopThread, LoopAction, MAX_STEPS};
use std::sync::{Arc, Mutex};
use std::task::{Wake, Waker};

const HOME: Schedule = Schedule { run_loop: 0x1000, mode: 0x2000 };

struct Tally(Mutex<usize>);

impl Wake for Tally {
    fn wake(self: Arc<Self>) {
        *self.0.lock().unwrap() += 1;
    }
}

/// Runs a thread to its exit on a fake native layer that fails the calls
/// listed in `failing`, and counts what it is asked to retain and release.
fn run_thread(failing: &[LoopAction], ctx: &mut SharedContext) -> (Vec<LoopAction>, i64) {
    let mut thread = EventLoopThread::new(HOME.run_loop, HOME.mode);
    let mut actions = Vec::new();
    let mut held: i64 = 0;
    let mut ok = true;
    for _ in 0..(MAX_STEPS + 1) {
        let action = thread.step(ok);
        actions.push(action);
        let _ = action.note(ctx).wake();
        match action {
            LoopAction::RetainContext => held += 1,
            LoopAction::ReleaseContext => held -= 1,
            _ => {}
        }
        assert!(held >= 0);
        ok = !failing.contains(&action);
        if action == LoopAction::Exit {
            break;
        }
    }
    assert!(thread.is_finished());
    assert_eq!(thread.step(true), LoopAction::Exit);
    assert_eq!(thread.step(false), LoopAction::Exit);
    (actions, held)
}

#[test]
fn thread_registers_opens_runs_and_unwinds() {
    let mut ctx = SharedContext::new();
    let (actions, held) = run_thread(&[], &mut ctx);
    assert_eq!(
        actions,
        vec![
            LoopAction::RetainContext,
            LoopAction::SetClient(Read),
            LoopAction::Schedule(Read, HOME),
            LoopAction::SetClient(Write),
            LoopAction::Schedule(Write, HOME),
            LoopAction::Open(Read),
            LoopAction::Open(Write),
            LoopAction::Run,
            LoopAction::Close(Write),
            LoopAction::Unschedule(Write, HOME),
            LoopAction::Close(Read),
            LoopAction::Unschedule(Read, HOME),
            LoopAction::ReleaseContext,
            LoopAction::Exit,
        ]
    );
    assert_eq!(held, 0);
    assert_eq!(ctx.native_refs(), 0);
    assert_eq!(ctx.error(), None);
    assert_eq!(ctx.state(), ChannelState::Opening);
}

#[test]
fn failed_read_open_unwinds_and_records() {
    let mut ctx = SharedContext::new();
    let tally = Arc::new(Tally(Mutex::new(0)));
    assert_eq!(ctx.register_waker(Read, Waker::from(tally.clone())), Ok(()));
    let (actions, held) = run_thread(&[LoopAction::Open(Read)], &mut ctx);
    assert_eq!(
        actions,
        vec![
            LoopAction::RetainContext,
            LoopAction::SetClient(Read),
            LoopAction::Schedule(Read, HOME),
            LoopAction::SetClient(Write),
            LoopAction::Schedule(Write, HOME),
            LoopAction::Open(Read),
            LoopAction::Unschedule(Write, HOME),
            LoopAction::Unschedule(Read, HOME),
            LoopAction::RecordOpenFailed,
            LoopAction::ReleaseContext,
            LoopAction::Exit,
        ]
    );
    assert_eq!(held, 0);
    assert_eq!(ctx.native_refs(), 0);
    assert_eq!(ctx.error(), Some(ChannelError::OpenFailed));
    assert_eq!(ctx.state(), ChannelState::Errored);
    assert_eq!(*tally.0.lock().unwrap(), 1);
    assert!(!ctx.has_waker(Read));
}

#[test]
fn failed_write_open_closes_the_read_stream() {
    let mut ctx = SharedContext::new();
    let (actions, held) = run_thread(&[LoopAction::Open(Write)], &mut ctx);
    assert_eq!(
        actions[6..].to_vec(),
        vec![
            LoopAction::Open(Write),
            LoopAction::Unschedule(Write, HOME),
            LoopAction::Close(Read),
            LoopAction::Unschedule(Read, HOME),
            LoopAction::RecordOpenFailed,
            LoopAction::ReleaseContext,
            LoopAction::Exit,
        ]
    );
    assert!(!actions.contains(&LoopAction::Run));
    assert_eq!(held, 0);
    assert_eq!(ctx.error(), Some(ChannelError::OpenFailed));
}

#[test]
fn refused_client_unwinds_without_opening() {
    let mut ctx = SharedContext::new();
    let (actions, held) = run_thread(&[LoopAction::SetClient(Write)], &mut ctx);
    assert_eq!(
        actions,
        vec![
            LoopAction::RetainContext,
            LoopAction::SetClient(Read),
            LoopAction::Schedule(Read, HOME),
            LoopAction::SetClient(Write),
            LoopAction::Unschedule(Read, HOME),
            LoopAction::RecordOpenFailed,
            LoopAction::ReleaseContext,
            LoopAction::Exit,
        ]
    );
    assert_eq!(held, 0);
    assert_eq!(ctx.error(), Some(ChannelError::OpenFailed));
}

#[test]
fn open_failure_keeps_an_earlier_error() {
    let mut ctx = SharedContext::new();
    let _ = ctx.record_error(ChannelError::TerminalNativeError);
    let (_, held) = run_thread(&[LoopAction::Open(Read)], &mut ctx);
    assert_eq!(held, 0);
    assert_eq!(ctx.error(), Some(ChannelError::TerminalNativeError));
}

#[test]
fn thread_leaves_within_the_bound_whatever_fails() {
    let every = [
        LoopAction::SetClient(Read),
        LoopAction::SetClient(Write),
        LoopAction::Open(Read),
        LoopAction::Open(Write),
        LoopAction::RetainContext,
        LoopAction::Run,
        LoopAction::Schedule(Read, HOME),
    ];
    for failing in every {
        let mut ctx = SharedContext::new();
        let (actions, held) = run_thread(&[failing], &mut ctx);
        assert!(actions.len() <= MAX_STEPS);
        assert_eq!(actions.last(), Some(&LoopAction::Exit));
        assert_eq!(held, 0);
        assert_eq!(ctx.native_refs(), 0);
        let retains = actions.iter().filter(|a| **a == LoopAction::RetainContext).count();
        let releases = actions.iter().filter(|a| **a == LoopAction::ReleaseContext).count();
        assert_eq!((retains, releases), (1, 1));
    }
    assert_eq!(MAX_STEPS, 29);
}

#[test]
fn thread_reports_what_it_waits_for() {
    let mut thread = EventLoopThread::new(1, 2);
    assert_eq!(thread.awaiting(), None);
    assert!(!thread.is_finished());
    assert_eq!(thread.step(true), LoopAction::RetainContext);
    assert_eq!(thread.awaiting(), None);
    assert_eq!(thread.step(false), LoopAction::SetClient(Read));
    assert_eq!(thread.awaiting(), Some(Awaited::Client(Read)));
    assert!(!thread.has_failed());
    assert_eq!(thread.step(false), LoopAction::RecordOpenFailed);
    assert!(thread.has_failed());
    assert_eq!(thread.awaiting(), None);
}

#[test]
fn stream_is_closed_before_it_is_unscheduled() {
    let mut stream = CFStream::new(7u32);
    assert_eq!(*stream.stream(), 7);
    assert!(!stream.is_open());
    assert!(!stream.has_client());
    assert_eq!(stream.scheduled(), None);
    assert_eq!(stream.next_teardown(), None);

    assert!(!stream.set_client(0));
    assert!(!stream.has_client());
    assert!(!stream.set_client(2));
    assert!(stream.set_client(1));
    assert!(stream.has_client());
    stream.schedule(10, 20);
    stream.schedule(11, 21);
    assert_eq!(stream.scheduled(), Some(Schedule { run_loop: 11, mode: 21 }));
    assert!(!stream.open(0));
    assert!(!stream.is_open());
    assert!(stream.open(1));
    assert!(stream.is_open());

    assert_eq!(stream.next_teardown(), Some(TeardownStep::Close));
    assert!(!stream.is_open());
    assert_eq!(
        stream.next_teardown(),
        Some(TeardownStep::Unschedule(Schedule { run_loop: 11, mode: 21 }))
    );
    assert_eq!(stream.next_teardown(), None);
    assert_eq!(*stream.stream(), 7);
}

#[test]
fn stream_that_failed_to_open_is_only_unscheduled() {
    let mut stream = CFStream::new(());
    stream.schedule(3, 4);
    assert!(!stream.open(0));
    assert_eq!(
        stream.next_teardown(),
        Some(TeardownStep::Unschedule(Schedule { run_loop: 3, mode: 4 }))
    );
    assert_eq!(stream.next_teardown(), None);
}

#[test]
fn handles_must_be_there_and_name_one_resource() {
    assert_eq!(validate_handles(Some(7), Some(7)), Ok(7));
    assert_eq!(validate_handles(Some(0), Some(0)), Ok(0));
    assert_eq!(validate_handles(Some(7), Some(8)), Err(ChannelError::ReferenceMismatch));
    assert_eq!(validate_handles(None, Some(7)), Err(ChannelError::PropertyUnavailable));
    assert_eq!(validate_handles(Some(7), None), Err(ChannelError::PropertyUnavailable));
    assert_eq!(validate_handles(None, None), Err(ChannelError::PropertyUnavailable));
    assert_eq!(validate_handles(Some(-1), Some(-1)), Err(ChannelError::PropertyUnavailable));
    assert_eq!(validate_handles(Some(7), Some(-1)), Err(ChannelError::PropertyUnavailable));
    assert_eq!(validate_handles(Some(i32::MAX), Some(i32::MAX)), Ok(i32::MAX));
}

#[test]
fn resource_is_released_by_exactly_one_path() {
    let mut session = SessionResource::new(9);
    assert!(!session.is_transferred());
    let owned = OwnedResource::adopt(&mut session, true).unwrap();
    assert!(session.is_transferred());
    assert_eq!(owned.handle(), 9);
    assert_eq!(session.teardown(), None);
    assert_eq!(session.teardown(), None);
    assert_eq!(OwnedResource::adopt(&mut session, true).err(), Some(ChannelError::PropertyUnavailable));
    assert_eq!(owned.into_raw(), 9);
}

#[test]
fn resource_stays_with_the_session_when_the_mode_switch_fails() {
    let mut session = SessionResource::new(4);
    assert_eq!(OwnedResource::adopt(&mut session, false).err(), Some(ChannelError::NonBlockingModeFailed));
    assert!(!session.is_transferred());
    assert_eq!(session.teardown(), Some(4));
    assert_eq!(session.teardown(), None);
    assert_eq!(OwnedResource::adopt(&mut session, false).err(), Some(ChannelError::PropertyUnavailable));
}

#[test]
fn teardown_stops_and_joins_before_it_releases() {
    assert_eq!(
        teardown_plan(true, true),
        vec![
            TeardownAction::StopLoop,
            TeardownAction::JoinThread,
            TeardownAction::CloseContext,
            TeardownAction::ReleaseResource,
        ]
    );
    assert_eq!(
        teardown_plan(true, false),
        vec![TeardownAction::StopLoop, TeardownAction::JoinThread, TeardownAction::CloseContext]
    );
    assert_eq!(
        teardown_plan(false, true),
        vec![TeardownAction::CloseContext, TeardownAction::ReleaseResource]
    );
    assert_eq!(teardown_plan(false, false), vec![TeardownAction::CloseContext]);
}

#[test]
fn session_shows_what_it_holds() {
    let mut session = SessionResource::new(12);
    assert_eq!(session.handle(), Some(12));
    assert_eq!(session.teardown(), Some(12));
    assert_eq!(session.handle(), None);
}

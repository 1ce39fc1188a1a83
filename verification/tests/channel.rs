use bluest::callback::{cfreadstream_callback, cfstream_callback, cfwritestream_callback};
use bluest::context::{ChannelState, Fired, SharedContext};
use bluest::error::ChannelError;
use bluest::event::{Direction, EventFlags, StreamEvent};
use bluest::futures_channel::{FuturesCFStream, PollStep, ReadAdapter, WriteAdapter, WOULD_BLOCK};
use bluest::l2cap_channel::L2CapChannelImpl;
use bluest::resource::{OwnedResource, SessionResource};
use std::collections::VecDeque;
use std::sync::{Arc, Mutex};
use std::task::{Poll, Wake, Waker};

struct Count(Mutex<usize>);

impl Wake for Count {
    fn wake(self: Arc<Self>) {
        *self.0.lock().unwrap() += 1;
    }
}

fn counting_waker() -> (Arc<Count>, Waker) {
    let count = Arc::new(Count(Mutex::new(0)));
    (count.clone(), Waker::from(count))
}

fn wakes(count: &Arc<Count>) -> usize {
    *count.0.lock().unwrap()
}

fn idle_waker() -> Waker {
    counting_waker().1
}

/// A bounded in-memory transport that stands for the native stream pair.
struct Pipe {
    bytes: VecDeque<u8>,
    capacity: usize,
}

impl Pipe {
    fn new(capacity: usize) -> Pipe {
        Pipe { bytes: VecDeque::new(), capacity }
    }

    fn has_space_available(&self) -> bool {
        self.bytes.len() < self.capacity
    }

    fn has_bytes_available(&self) -> bool {
        !self.bytes.is_empty()
    }

    fn write(&mut self, buf: &[u8]) -> isize {
        let room = self.capacity - self.bytes.len();
        let n = room.min(buf.len());
        self.bytes.extend(&buf[..n]);
        n as isize
    }

    fn read(&mut self, buf: &mut [u8]) -> isize {
        let n = self.bytes.len().min(buf.len());
        for slot in buf.iter_mut().take(n) {
            *slot = self.bytes.pop_front().unwrap();
        }
        n as isize
    }
}

fn write_all(writer: &mut WriteAdapter, ctx: &mut SharedContext, pipe: &mut Pipe, buf: &[u8]) -> Poll<Result<usize, ChannelError>> {
    match writer.poll_write(ctx, idle_waker(), buf.len(), pipe.has_space_available()) {
        PollStep::Done(result) => result,
        PollStep::Transfer => {
            let native = pipe.write(buf);
            writer.complete_write(ctx, idle_waker(), native).result
        }
    }
}

fn read_some(reader: &mut ReadAdapter, ctx: &mut SharedContext, pipe: &mut Pipe, buf: &mut [u8]) -> Poll<Result<usize, ChannelError>> {
    match reader.poll_read(ctx, idle_waker(), buf.len(), pipe.has_bytes_available()) {
        PollStep::Done(result) => result,
        PollStep::Transfer => {
            let native = pipe.read(buf);
            reader.complete_read(ctx, idle_waker(), native).result
        }
    }
}

#[test]
fn write_hello_then_peer_reads_hello() {
    let mut pipe = Pipe::new(64);
    let (local, mut local_ctx) = FuturesCFStream::cf_stream(None);
    let (peer, mut peer_ctx) = FuturesCFStream::cf_stream(None);
    let (_, mut writer) = local.split();
    let (mut reader, _) = peer.split();

    assert!(pipe.has_space_available());
    assert_eq!(write_all(&mut writer, &mut local_ctx, &mut pipe, b"hello"), Poll::Ready(Ok(5)));
    assert!(pipe.has_bytes_available());
    let mut buf = [0u8; 5];
    assert_eq!(read_some(&mut reader, &mut peer_ctx, &mut pipe, &mut buf), Poll::Ready(Ok(5)));
    assert_eq!(&buf, b"hello");
}

#[test]
fn writes_within_capacity_arrive_concatenated_in_order() {
    let mut pipe = Pipe::new(32);
    let mut ctx = SharedContext::new();
    let mut peer_ctx = SharedContext::new();
    let mut writer = WriteAdapter::new();
    let mut reader = ReadAdapter::new();
    let parts: [&[u8]; 4] = [b"ab", b"", b"cdefg", b"h"];
    for part in parts {
        assert_eq!(write_all(&mut writer, &mut ctx, &mut pipe, part), Poll::Ready(Ok(part.len())));
    }
    let mut seen = Vec::new();
    let mut buf = [0u8; 3];
    loop {
        match read_some(&mut reader, &mut peer_ctx, &mut pipe, &mut buf) {
            Poll::Ready(Ok(n)) => seen.extend_from_slice(&buf[..n]),
            Poll::Pending => break,
            other => panic!("unexpected {:?}", other),
        }
    }
    assert_eq!(seen, b"abcdefgh");
    assert!(peer_ctx.has_waker(Direction::Read));
}

#[test]
fn write_beyond_capacity_reports_what_was_taken() {
    let mut pipe = Pipe::new(3);
    let mut ctx = SharedContext::new();
    let mut writer = WriteAdapter::new();
    assert_eq!(write_all(&mut writer, &mut ctx, &mut pipe, b"hello"), Poll::Ready(Ok(3)));
    assert_eq!(write_all(&mut writer, &mut ctx, &mut pipe, b"lo"), Poll::Pending);
    assert!(ctx.has_waker(Direction::Write));
}

#[test]
fn pending_read_is_woken_once_by_bytes_available() {
    let mut ctx = SharedContext::new();
    let mut reader = ReadAdapter::new();
    let (count, waker) = counting_waker();

    let step = reader.poll_read(&mut ctx, waker, 8, false);
    assert_eq!(step, PollStep::Done(Poll::Pending));
    assert!(ctx.has_waker(Direction::Read));
    assert_eq!(wakes(&count), 0);

    let outcome = cfreadstream_callback(&mut ctx, bluest::event::HAS_BYTES_AVAILABLE);
    assert!(!outcome.stop_run_loop);
    assert_eq!(outcome.fired.count(), 1);
    assert_eq!(outcome.fired.wake(), 1);
    assert_eq!(wakes(&count), 1);
    assert!(!ctx.has_waker(Direction::Read));

    let again = cfwritestream_callback(&mut ctx, bluest::event::CAN_ACCEPT_BYTES);
    assert_eq!(again.fired.count(), 0);
    assert_eq!(again.fired.wake(), 0);
    let third = cfreadstream_callback(&mut ctx, bluest::event::HAS_BYTES_AVAILABLE);
    assert_eq!(third.fired.wake(), 0);
    assert_eq!(wakes(&count), 1);
}

#[test]
fn unrelated_event_leaves_the_reader_suspended() {
    let mut ctx = SharedContext::new();
    let mut reader = ReadAdapter::new();
    let (count, waker) = counting_waker();
    assert_eq!(reader.poll_read(&mut ctx, waker, 8, false), PollStep::Done(Poll::Pending));
    let outcome = cfstream_callback(&mut ctx, Direction::Write, bluest::event::CAN_ACCEPT_BYTES | bluest::event::OPEN_COMPLETED);
    assert_eq!(outcome.fired.wake(), 0);
    assert_eq!(wakes(&count), 0);
    assert!(ctx.has_waker(Direction::Read));
    assert!(ctx.has_event(StreamEvent::CanAcceptBytes));
    assert!(ctx.has_event(StreamEvent::OpenCompleted));
}

#[test]
fn pending_write_is_woken_by_space_available() {
    let mut ctx = SharedContext::new();
    let mut writer = WriteAdapter::new();
    let (count, waker) = counting_waker();
    assert_eq!(writer.poll_write(&mut ctx, waker, 4, false), PollStep::Done(Poll::Pending));
    let outcome = cfwritestream_callback(&mut ctx, bluest::event::CAN_ACCEPT_BYTES);
    assert!(outcome.fired.read.is_none());
    assert!(outcome.fired.write.is_some());
    assert_eq!(outcome.fired.wake(), 1);
    assert_eq!(wakes(&count), 1);
}

#[test]
fn second_registration_is_a_fault_and_keeps_the_first() {
    let mut ctx = SharedContext::new();
    let (first_count, first) = counting_waker();
    let (second_count, second) = counting_waker();
    assert_eq!(ctx.register_waker(Direction::Read, first), Ok(()));
    assert_eq!(ctx.register_waker(Direction::Read, second), Err(ChannelError::WakerAlreadyRegistered));
    assert_eq!(ctx.register_waker(Direction::Write, idle_waker()), Ok(()));
    let fired = ctx.record_event(Direction::Read, EventFlags::single(StreamEvent::HasBytesAvailable));
    assert_eq!(fired.wake(), 1);
    assert_eq!(wakes(&first_count), 1);
    assert_eq!(wakes(&second_count), 0);
    assert!(ctx.has_waker(Direction::Write));
}

#[test]
fn second_pending_poll_is_refused() {
    let mut ctx = SharedContext::new();
    let mut reader = ReadAdapter::new();
    assert_eq!(reader.poll_read(&mut ctx, idle_waker(), 8, false), PollStep::Done(Poll::Pending));
    assert_eq!(
        reader.poll_read(&mut ctx, idle_waker(), 8, false),
        PollStep::Done(Poll::Ready(Err(ChannelError::WakerAlreadyRegistered)))
    );
    assert!(ctx.has_waker(Direction::Read));
    assert_eq!(reader.poll_read(&mut ctx, idle_waker(), 8, true), PollStep::Transfer);
}

#[test]
fn reads_after_end_complete_with_zero() {
    let mut ctx = SharedContext::new();
    let mut reader = ReadAdapter::new();
    let (count, waker) = counting_waker();
    assert_eq!(reader.poll_read(&mut ctx, waker, 8, false), PollStep::Done(Poll::Pending));
    let outcome = cfreadstream_callback(&mut ctx, bluest::event::END_ENCOUNTERED);
    assert!(outcome.stop_run_loop);
    assert_eq!(outcome.fired.wake(), 1);
    assert_eq!(wakes(&count), 1);
    for ready in [false, true] {
        for len in [0usize, 1, 8] {
            assert_eq!(
                reader.poll_read(&mut ctx, idle_waker(), len, ready),
                PollStep::Done(Poll::Ready(Ok(0)))
            );
        }
    }
    let _ = cfwritestream_callback(&mut ctx, bluest::event::CAN_ACCEPT_BYTES);
    assert_eq!(reader.poll_read(&mut ctx, idle_waker(), 8, false), PollStep::Done(Poll::Ready(Ok(0))));
    assert!(!ctx.has_waker(Direction::Read));
    assert_eq!(ctx.state(), ChannelState::Created);
}

#[test]
fn write_after_end_is_invalid_state() {
    let mut ctx = SharedContext::new();
    let mut writer = WriteAdapter::new();
    let _ = cfreadstream_callback(&mut ctx, bluest::event::END_ENCOUNTERED);
    assert_eq!(
        writer.poll_write(&mut ctx, idle_waker(), 5, true),
        PollStep::Done(Poll::Ready(Err(ChannelError::InvalidState)))
    );
    assert_eq!(
        writer.poll_write(&mut ctx, idle_waker(), 5, false),
        PollStep::Done(Poll::Ready(Err(ChannelError::InvalidState)))
    );
    assert!(!ctx.has_waker(Direction::Write));
}

#[test]
fn polls_after_error_return_the_recorded_error() {
    let mut ctx = SharedContext::new();
    let mut reader = ReadAdapter::new();
    let mut writer = WriteAdapter::new();
    let (read_count, read_waker) = counting_waker();
    let (write_count, write_waker) = counting_waker();
    assert_eq!(reader.poll_read(&mut ctx, read_waker, 8, false), PollStep::Done(Poll::Pending));
    assert_eq!(writer.poll_write(&mut ctx, write_waker, 8, false), PollStep::Done(Poll::Pending));

    let outcome = cfwritestream_callback(&mut ctx, bluest::event::ERROR_OCCURRED);
    assert!(outcome.stop_run_loop);
    assert_eq!(outcome.fired.wake(), 2);
    assert_eq!((wakes(&read_count), wakes(&write_count)), (1, 1));
    assert_eq!(ctx.error(), Some(ChannelError::TerminalNativeError));
    assert_eq!(ctx.state(), ChannelState::Errored);

    let expected = PollStep::Done(Poll::Ready(Err(ChannelError::TerminalNativeError)));
    for ready in [false, true] {
        for len in [0usize, 8] {
            assert_eq!(reader.poll_read(&mut ctx, idle_waker(), len, ready), expected);
            assert_eq!(writer.poll_write(&mut ctx, idle_waker(), len, ready), expected);
        }
    }
    let _ = cfreadstream_callback(&mut ctx, bluest::event::END_ENCOUNTERED | bluest::event::HAS_BYTES_AVAILABLE);
    assert_eq!(reader.poll_read(&mut ctx, idle_waker(), 8, true), expected);
    assert!(!ctx.has_waker(Direction::Read));
    assert!(!ctx.has_waker(Direction::Write));
    assert_eq!(ctx.close().0, ChannelState::Errored);
}

#[test]
fn error_arriving_during_a_transfer_wins() {
    let mut ctx = SharedContext::new();
    let mut reader = ReadAdapter::new();
    assert_eq!(reader.poll_read(&mut ctx, idle_waker(), 8, true), PollStep::Transfer);
    assert_eq!(reader.in_flight(), Some(8));
    let _ = cfreadstream_callback(&mut ctx, bluest::event::ERROR_OCCURRED);
    assert_eq!(
        reader.complete_read(&mut ctx, idle_waker(), 4).result,
        Poll::Ready(Err(ChannelError::TerminalNativeError))
    );
    assert_eq!(reader.in_flight(), None);
}

#[test]
fn first_recorded_failure_stays() {
    let mut ctx = SharedContext::new();
    assert_eq!(ctx.record_error(ChannelError::OpenFailed).wake(), 0);
    let _ = cfreadstream_callback(&mut ctx, bluest::event::ERROR_OCCURRED);
    let _ = ctx.record_error(ChannelError::TerminalNativeError);
    assert_eq!(ctx.error(), Some(ChannelError::OpenFailed));
    let mut writer = WriteAdapter::new();
    assert_eq!(
        writer.poll_write(&mut ctx, idle_waker(), 1, true),
        PollStep::Done(Poll::Ready(Err(ChannelError::OpenFailed)))
    );
}

#[test]
fn zero_length_buffer_completes_at_once() {
    let mut ctx = SharedContext::new();
    let mut reader = ReadAdapter::new();
    let mut writer = WriteAdapter::new();
    for ready in [false, true] {
        assert_eq!(reader.poll_read(&mut ctx, idle_waker(), 0, ready), PollStep::Done(Poll::Ready(Ok(0))));
        assert_eq!(writer.poll_write(&mut ctx, idle_waker(), 0, ready), PollStep::Done(Poll::Ready(Ok(0))));
    }
    assert!(!ctx.has_waker(Direction::Read));
    assert!(!ctx.has_waker(Direction::Write));
}

#[test]
fn would_block_suspends_the_poll() {
    let mut ctx = SharedContext::new();
    let mut reader = ReadAdapter::new();
    let (count, waker) = counting_waker();
    assert_eq!(reader.poll_read(&mut ctx, idle_waker(), 8, true), PollStep::Transfer);
    let done = reader.complete_read(&mut ctx, waker, WOULD_BLOCK);
    assert_eq!(done.result, Poll::Pending);
    assert_eq!(done.fired.count(), 0);
    assert!(ctx.has_waker(Direction::Read));
    assert_eq!(ctx.error(), None);
    let fired: Fired = ctx.record_event(Direction::Read, EventFlags::single(StreamEvent::HasBytesAvailable));
    assert_eq!(fired.wake(), 1);
    assert_eq!(wakes(&count), 1);
}

#[test]
fn would_block_after_end_completes_with_zero() {
    let mut ctx = SharedContext::new();
    let mut reader = ReadAdapter::new();
    let mut writer = WriteAdapter::new();
    assert_eq!(reader.poll_read(&mut ctx, idle_waker(), 8, true), PollStep::Transfer);
    assert_eq!(writer.poll_write(&mut ctx, idle_waker(), 8, true), PollStep::Transfer);
    let _ = cfreadstream_callback(&mut ctx, bluest::event::END_ENCOUNTERED);
    assert_eq!(reader.complete_read(&mut ctx, idle_waker(), -1).result, Poll::Ready(Ok(0)));
    assert_eq!(writer.complete_write(&mut ctx, idle_waker(), -1).result, Poll::Ready(Err(ChannelError::InvalidState)));
}

#[test]
fn native_fault_is_recorded_and_wakes_the_other_side() {
    let mut ctx = SharedContext::new();
    let mut reader = ReadAdapter::new();
    let mut writer = WriteAdapter::new();
    let (count, waker) = counting_waker();
    assert_eq!(writer.poll_write(&mut ctx, waker, 8, false), PollStep::Done(Poll::Pending));
    assert_eq!(reader.poll_read(&mut ctx, idle_waker(), 8, true), PollStep::Transfer);
    let done = reader.complete_read(&mut ctx, idle_waker(), -2);
    assert_eq!(done.result, Poll::Ready(Err(ChannelError::TerminalNativeError)));
    assert!(done.fired.read.is_none());
    assert_eq!(wakes(&count), 0);
    assert_eq!(done.fired.wake(), 1);
    assert_eq!(wakes(&count), 1);
    assert!(!ctx.has_waker(Direction::Write));
    assert_eq!(ctx.error(), Some(ChannelError::TerminalNativeError));
    assert_eq!(
        writer.poll_write(&mut ctx, idle_waker(), 8, true),
        PollStep::Done(Poll::Ready(Err(ChannelError::TerminalNativeError)))
    );
}

#[test]
fn count_beyond_the_buffer_is_a_native_fault() {
    let mut ctx = SharedContext::new();
    let mut writer = WriteAdapter::new();
    assert_eq!(writer.poll_write(&mut ctx, idle_waker(), 4, true), PollStep::Transfer);
    assert_eq!(
        writer.complete_write(&mut ctx, idle_waker(), 5).result,
        Poll::Ready(Err(ChannelError::TerminalNativeError))
    );
    let mut other = SharedContext::new();
    let mut exact = WriteAdapter::new();
    assert_eq!(exact.poll_write(&mut other, idle_waker(), 4, true), PollStep::Transfer);
    assert_eq!(exact.complete_write(&mut other, idle_waker(), 4).result, Poll::Ready(Ok(4)));
    assert_eq!(other.error(), None);
}

#[test]
fn completion_without_transfer_is_invalid_state() {
    let mut ctx = SharedContext::new();
    let mut reader = ReadAdapter::new();
    let mut writer = WriteAdapter::new();
    assert_eq!(reader.complete_read(&mut ctx, idle_waker(), 3).result, Poll::Ready(Err(ChannelError::InvalidState)));
    assert_eq!(writer.complete_write(&mut ctx, idle_waker(), 3).result, Poll::Ready(Err(ChannelError::InvalidState)));
    assert_eq!(reader.poll_read(&mut ctx, idle_waker(), 8, true), PollStep::Transfer);
    assert_eq!(reader.complete_read(&mut ctx, idle_waker(), 0).result, Poll::Ready(Ok(0)));
    assert_eq!(reader.complete_read(&mut ctx, idle_waker(), 0).result, Poll::Ready(Err(ChannelError::InvalidState)));
    assert_eq!(ctx.error(), None);
}

#[test]
fn flush_and_close_are_ready() {
    let (mut channel, mut ctx) = FuturesCFStream::cf_stream(None);
    assert_eq!(channel.poll_flush(), Poll::Ready(Ok(())));
    assert_eq!(channel.poll_close(), Poll::Ready(Ok(())));
    let _ = cfreadstream_callback(&mut ctx, bluest::event::ERROR_OCCURRED);
    assert_eq!(channel.poll_flush(), Poll::Ready(Ok(())));
    assert_eq!(channel.poll_close(), Poll::Ready(Ok(())));
    let (_, mut writer) = channel.split();
    assert_eq!(writer.poll_flush(), Poll::Ready(Ok(())));
    assert_eq!(writer.poll_close(), Poll::Ready(Ok(())));
}

#[test]
fn channel_polls_both_directions_and_splits() {
    let (mut channel, mut ctx) = FuturesCFStream::cf_stream(None);
    assert_eq!(ctx.state(), ChannelState::Created);
    assert_eq!(channel.poll_read(&mut ctx, idle_waker(), 6, true), PollStep::Transfer);
    assert_eq!(channel.poll_write(&mut ctx, idle_waker(), 9, true), PollStep::Transfer);
    assert_eq!(channel.complete_write(&mut ctx, idle_waker(), 9).result, Poll::Ready(Ok(9)));
    assert_eq!(channel.poll_write(&mut ctx, idle_waker(), 2, true), PollStep::Transfer);
    let (mut reader, mut writer) = channel.split();
    assert_eq!(reader.in_flight(), Some(6));
    assert_eq!(writer.in_flight(), Some(2));
    assert_eq!(reader.complete_read(&mut ctx, idle_waker(), 6).result, Poll::Ready(Ok(6)));
    assert_eq!(writer.complete_write(&mut ctx, idle_waker(), 1).result, Poll::Ready(Ok(1)));
}

#[test]
fn channel_opens_when_both_streams_report() {
    let mut ctx = SharedContext::new();
    assert_eq!(ctx.state(), ChannelState::Created);
    ctx.begin_opening();
    assert_eq!(ctx.state(), ChannelState::Opening);
    let _ = cfreadstream_callback(&mut ctx, bluest::event::OPEN_COMPLETED);
    assert!(ctx.opened(Direction::Read));
    assert!(!ctx.opened(Direction::Write));
    assert_eq!(ctx.state(), ChannelState::Opening);
    let _ = cfreadstream_callback(&mut ctx, bluest::event::OPEN_COMPLETED);
    assert_eq!(ctx.state(), ChannelState::Opening);
    let _ = cfwritestream_callback(&mut ctx, bluest::event::OPEN_COMPLETED | bluest::event::CAN_ACCEPT_BYTES);
    assert_eq!(ctx.state(), ChannelState::Open);
    assert!(!ChannelState::Open.is_terminal());
    assert_eq!(ctx.close().0, ChannelState::Closed);
    assert!(ChannelState::Closed.is_terminal());
    assert!(ChannelState::Errored.is_terminal());
}

#[test]
fn references_balance_and_never_go_negative() {
    let mut ctx = SharedContext::new();
    assert_eq!(ctx.native_refs(), 0);
    assert_eq!(ctx.release(), Err(ChannelError::UnbalancedRelease));
    assert_eq!(ctx.native_refs(), 0);
    assert!(ctx.retain());
    assert!(ctx.retain());
    assert_eq!(ctx.native_refs(), 2);
    assert_eq!(ctx.release(), Ok(1));
    assert_eq!(ctx.release(), Ok(0));
    assert_eq!(ctx.release(), Err(ChannelError::UnbalancedRelease));
    assert_eq!(ctx.native_refs(), 0);
}

#[test]
fn context_owns_the_resource_until_it_is_closed() {
    let mut session = SessionResource::new(9);
    let owned = OwnedResource::adopt(&mut session, true).unwrap();
    let (mut channel, mut ctx) = FuturesCFStream::cf_stream(Some(owned));
    assert_eq!(ctx.resource_handle(), Some(9));
    assert_eq!(channel.poll_read(&mut ctx, idle_waker(), 4, false), PollStep::Done(Poll::Pending));
    let _ = cfreadstream_callback(&mut ctx, bluest::event::HAS_BYTES_AVAILABLE | bluest::event::ERROR_OCCURRED);
    let _ = ctx.record_error(ChannelError::OpenFailed);
    assert!(ctx.retain());
    assert_eq!(ctx.resource_handle(), Some(9));
    let (state, resource) = ctx.close();
    assert_eq!(state, ChannelState::Errored);
    assert_eq!(resource.map(OwnedResource::into_raw), Some(9));
    assert_eq!(session.teardown(), None);

    let (state, resource) = SharedContext::new().close();
    assert_eq!(state, ChannelState::Closed);
    assert!(resource.is_none());
    assert_eq!(SharedContext::new().resource_handle(), None);
}

use libtomatillo::countdown::channel::{
    with_ack_poll_period, with_retry_period, with_timeout, Channel, ChannelConfig, ChannelError, ChannelOption, Phase,
    DEFAULT_ACK_POLL_MS, DEFAULT_PERIOD_MS, DEFAULT_TIMEOUT_MS,
};
use libtomatillo::countdown::{CountdownError, Receiver, Response, Sender, Step};

fn value<T: PartialEq + Copy>(v: T) -> Step<Result<Response<T>, CountdownError>> {
    Step::Done(Ok(Response::Value(v)))
}

fn timeout<R>(ms: u64) -> Step<Result<R, CountdownError>> {
    Step::Done(Err(CountdownError::ChannelError(ChannelError::Timeout(ms))))
}

#[test]
fn should_timeout_if_no_updates_received_for_more_than_the_default_timeout_of_1_second() {
    let mut chan = Channel::new(42u32);
    assert_eq!(chan.recv(), value(42));

    assert_eq!(chan.recv(), Step::Sleep(100));
    assert_eq!(chan.recv_resume(1001), timeout(1000));
}

#[test]
fn should_timeout_if_no_updates_received_for_more_than_the_specified_timeout() {
    let mut chan = Channel::new_with_options(42u32, &[with_timeout(500)]);
    assert_eq!(chan.recv(), value(42));

    assert_eq!(chan.recv(), Step::Sleep(100));
    assert_eq!(chan.recv_resume(501), timeout(500));
}

#[test]
fn should_return_the_initial_value() {
    let mut chan = Channel::new(42u32);

    assert_eq!(chan.recv(), value(42));
}

#[test]
fn should_return_closed_when_the_sender_is_closed() {
    let mut chan = Channel::new(0u32);

    assert_eq!(chan.recv(), value(0));

    assert_eq!(chan.close(), Step::Done(Ok(())));

    assert_eq!(chan.recv(), Step::Done(Ok(Response::Closed)));
}

#[test]
fn channel_should_return_some_if_value_is_not_zero() {
    let mut chan = Channel::new(100u32);

    assert_eq!(chan.recv(), value(100));
    chan.send(50).expect("unexpected error sending value");

    assert_eq!(chan.recv(), value(50));
}

#[test]
fn should_return_latest_value_only() {
    let mut chan = Channel::new(100u32);

    assert_eq!(chan.recv(), value(100));
    chan.send(99).expect("unexpected error sending value");
    chan.send(50).expect("unexpected error sending value");

    assert_eq!(chan.recv(), value(50));

    chan.send(25).expect("unexpected error sending value");
    // the 25 is not acknowledged yet: the close has to wait for the consumer
    assert_eq!(chan.close(), Step::Sleep(10));
    assert_eq!(chan.recv(), value(25));
    assert_eq!(chan.close_resume(10), Step::Done(Ok(())));

    assert_eq!(chan.recv(), Step::Done(Ok(Response::Closed)));
}

#[test]
fn should_wait_for_ack_before_closing() {
    let mut chan = Channel::new(0u32);

    // the producer closes first, and is told to wait
    assert_eq!(chan.close(), Step::Sleep(10));
    assert!(!chan.is_closed());
    assert_eq!(chan.recv(), value(0));
    assert_eq!(chan.close_resume(10), Step::Done(Ok(())));
    assert_eq!(chan.recv(), Step::Done(Ok(Response::Closed)));
}

#[test]
fn a_close_without_ack_times_out_and_leaves_the_channel_open() {
    let mut chan = Channel::new_with_options(7u64, &[with_timeout(500)]);
    assert_eq!(chan.close(), Step::Sleep(10));
    assert_eq!(chan.close_resume(499), Step::Sleep(1));
    assert_eq!(chan.close_resume(500), timeout(500));
    assert_eq!(chan.close_resume(10_000), timeout(500));
    assert!(!chan.is_closed());
    assert_eq!(chan.current_phase(), Phase::Unacked);
    // the caller may try again
    assert_eq!(chan.recv(), value(7));
    assert_eq!(chan.current_phase(), Phase::Acked);
    assert_eq!(chan.close(), Step::Done(Ok(())));
    assert_eq!(chan.current_phase(), Phase::Closed);
}

#[test]
fn a_send_takes_the_acknowledgment_back() {
    let mut chan = Channel::new(1u8);
    assert_eq!(chan.recv(), value(1));
    assert_eq!(chan.current_phase(), Phase::Acked);
    assert_eq!(chan.send(2), Ok(()));
    assert_eq!(chan.current_phase(), Phase::Unacked);
    assert_eq!(chan.close(), Step::Sleep(10));
    assert_eq!(chan.close_resume(1000), timeout(1000));
}

#[test]
fn closed_is_terminal() {
    let mut chan = Channel::new(3u16);
    assert_eq!(chan.recv(), value(3));
    assert_eq!(chan.close(), Step::Done(Ok(())));
    for _ in 0..5 {
        assert_eq!(chan.recv(), Step::Done(Ok(Response::Closed)));
    }
    assert_eq!(chan.send(9), Ok(()));
    assert!(chan.is_closed());
    assert_eq!(chan.recv(), Step::Done(Ok(Response::Closed)));
    // nothing is left to acknowledge: a second close waits in vain
    assert_eq!(chan.close(), Step::Sleep(10));
    assert_eq!(chan.close_resume(1000), timeout(1000));
    assert!(chan.is_closed());
    assert_eq!(chan.recv(), Step::Done(Ok(Response::Closed)));
}

#[test]
fn a_value_is_handed_out_once() {
    let mut chan = Channel::new(5u64);
    assert_eq!(chan.recv(), value(5));
    assert_eq!(chan.recv(), Step::Sleep(100));
    assert_eq!(chan.recv_resume(100), Step::Sleep(100));
    chan.send(4).unwrap();
    assert_eq!(chan.recv_resume(200), value(4));
}

#[test]
fn a_late_look_still_takes_a_pending_value() {
    let mut chan = Channel::new(5u64);
    assert_eq!(chan.recv_resume(5000), value(5));
}

#[test]
fn pauses_are_cut_at_the_end_of_the_wait() {
    let mut chan = Channel::new_with_options(0u64, &[with_timeout(250), with_retry_period(100)]);
    assert_eq!(chan.recv(), value(0));
    assert_eq!(chan.recv(), Step::Sleep(100));
    assert_eq!(chan.recv_resume(100), Step::Sleep(100));
    assert_eq!(chan.recv_resume(200), Step::Sleep(50));
    assert_eq!(chan.recv_resume(249), Step::Sleep(1));
    assert_eq!(chan.recv_resume(250), timeout(250));
}

#[test]
fn a_zero_timeout_never_waits() {
    let mut chan = Channel::new_with_options(0u64, &[with_timeout(0)]);
    assert_eq!(chan.close(), timeout(0));
    assert_eq!(chan.recv(), value(0));
    assert_eq!(chan.recv(), timeout(0));
}

#[test]
fn a_zero_retry_period_asks_for_no_sleep() {
    let mut chan = Channel::new_with_options(0u64, &[with_retry_period(0)]);
    assert_eq!(chan.recv(), value(0));
    assert_eq!(chan.recv(), Step::Sleep(0));
    assert_eq!(chan.recv_resume(1000), timeout(1000));
}

#[test]
fn options_apply_in_order() {
    let defaults = ChannelConfig {
        timeout_ms: DEFAULT_TIMEOUT_MS,
        retry_period_ms: DEFAULT_PERIOD_MS,
        ack_poll_ms: DEFAULT_ACK_POLL_MS,
    };
    assert_eq!(
        defaults,
        ChannelConfig { timeout_ms: 1000, retry_period_ms: 100, ack_poll_ms: 10 }
    );
    assert_eq!(Channel::new(0u64).options(), defaults);
    assert_eq!(Channel::new_with_options(0u64, &[]).options(), defaults);
    assert_eq!(with_timeout(5), ChannelOption::Timeout(5));
    assert_eq!(with_retry_period(6), ChannelOption::RetryPeriod(6));
    let chan = Channel::new_with_options(
        0u64,
        &[with_timeout(1), with_retry_period(2), with_timeout(3)],
    );
    assert_eq!(
        chan.options(),
        ChannelConfig { timeout_ms: 3, retry_period_ms: 2, ack_poll_ms: 10 }
    );
    assert_eq!(chan.current_phase(), Phase::Unacked);
}

#[test]
fn the_acknowledgment_is_polled_at_its_own_period() {
    let mut chan = Channel::new_with_options(
        0u64,
        &[with_ack_poll_period(25), with_retry_period(7), with_timeout(60)],
    );
    assert_eq!(with_ack_poll_period(25), ChannelOption::AckPollPeriod(25));
    assert_eq!(
        chan.options(),
        ChannelConfig { timeout_ms: 60, retry_period_ms: 7, ack_poll_ms: 25 }
    );
    assert_eq!(chan.close(), Step::Sleep(25));
    assert_eq!(chan.close_resume(25), Step::Sleep(25));
    assert_eq!(chan.close_resume(50), Step::Sleep(10));
    assert_eq!(chan.close_resume(60), timeout(60));
    assert_eq!(chan.recv(), value(0));
    assert_eq!(chan.recv(), Step::Sleep(7));
}

#[test]
fn the_longest_timeout_is_reported_whole() {
    let mut chan = Channel::new_with_options(0u64, &[with_timeout(u32::MAX)]);
    assert_eq!(chan.recv(), value(0));
    assert_eq!(chan.recv_resume(u32::MAX as u64 - 1), Step::Sleep(1));
    assert_eq!(chan.recv_resume(u64::MAX), timeout(u32::MAX as u64));
}

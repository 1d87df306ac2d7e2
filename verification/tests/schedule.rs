use libtomatillo::countdown::channel::Channel;
use libtomatillo::countdown::timer::{
    calc_intervals, remaining_after, validate_duration, validate_period, InvalidCountdown,
    InvalidDuration, RunAction, RunPhase, DAY_MS, HOUR_MS,
};
use libtomatillo::countdown::{
    AsyncCountdown, ChannelError, Countdown, CountdownError, Receiver, Response, Sender, Step,
    TimerError,
};
use libtomatillo::TomatilloError;

#[test]
fn should_fail_to_create_a_countdown_given_a_period_of_zero() {
    let error = AsyncCountdown::try_new(0).expect_err("should have failed");
    assert_eq!(error, TimerError::InvalidCountdown(InvalidCountdown::ZeroInterval).into());
}

#[test]
fn should_fail_to_create_a_countdown_given_a_period_of_greater_than_one_hour() {
    let result = AsyncCountdown::try_new(HOUR_MS + 1).expect_err("should have failed");
    assert_eq!(
        result,
        TimerError::InvalidCountdown(InvalidCountdown::IntervalGreaterThanOneHour(HOUR_MS + 1))
            .into()
    );
}

#[test]
fn should_fail_to_start_a_countdown_given_an_duration_smaller_than_the_interval() {
    let error = AsyncCountdown::try_new(2000)
        .expect("unexpected error creating a countdown")
        .start(1000)
        .expect_err("should have failed to start");
    assert_eq!(
        error,
        TimerError::InvalidDuration(InvalidDuration::DurationSmallerThanPeriod {
            duration: 1000,
            period: 2000
        })
        .into()
    );
}

#[test]
fn should_fail_to_start_a_countdown_given_a_duration_of_zero() {
    let error = AsyncCountdown::try_new(100)
        .expect("unexpected error creating a countdown")
        .start(0)
        .expect_err("should have failed to start");
    assert_eq!(error, TimerError::InvalidDuration(InvalidDuration::ZeroDuration).into());
}

#[test]
fn should_fail_to_start_a_countdown_given_a_duration_of_greater_than_one_day() {
    let error = AsyncCountdown::try_new(100)
        .expect("unexpected error creating a countdown")
        .start(DAY_MS + 1)
        .expect_err("should have failed to start");
    assert_eq!(
        error,
        TimerError::InvalidDuration(InvalidDuration::DurationGreaterThanOneDay(DAY_MS + 1)).into()
    );
}

#[test]
fn timer_should_countdown_to_zero() {
    let timer = AsyncCountdown::try_new(100).expect("should have created countdown");
    let mut expectations = [
        1000u64, 900u64, 800u64, 700u64, 600u64, 500u64, 400u64, 300u64, 200u64, 100u64, 0u64,
    ]
    .iter()
    .rev()
    .cloned()
    .collect::<Vec<_>>();
    let num_expect = expectations.len();

    let (mut run, mut chan) = timer.start(1000).expect("unexpected countdown failure");

    while let Some(expect) = expectations.pop() {
        run.on_tick(&mut chan);
        if let Step::Done(Ok(Response::Value(millis_left))) = chan.recv() {
            assert_eq!(
                expect,
                millis_left,
                "[{:?}] expected {:?}, but got {:?}",
                num_expect - expectations.len(),
                expect,
                millis_left
            );
        } else {
            panic!("no value at tick {}", num_expect - expectations.len());
        }
    }

    assert_eq!(
        expectations.len(),
        0,
        "unmet expectations: {:?}",
        expectations.iter().rev().collect::<Vec<_>>()
    );
}

/// Drives a run with a consumer that pulls once after every tick, and
/// closes the channel at the end.
fn observe(period: u64, duration: u64) -> Vec<u64> {
    let timer = AsyncCountdown::try_new(period).expect("period");
    let (mut run, mut chan) = timer.start(duration).expect("duration");
    let mut seen = Vec::new();
    assert_eq!(run.next_action(), RunAction::AwaitTick);
    loop {
        let action = run.on_tick(&mut chan);
        match chan.recv() {
            Step::Done(Ok(Response::Value(v))) => seen.push(v),
            other => panic!("unexpected step {:?}", other),
        }
        match action {
            RunAction::AwaitTick => {}
            RunAction::Close => break,
            RunAction::Stop => panic!("stopped before closing"),
        }
    }
    assert_eq!(run.current_phase(), RunPhase::Closing);
    let closed = chan.close();
    assert_eq!(closed, Step::Done(Ok(())));
    assert_eq!(run.on_close(Ok(())), Ok(()));
    assert_eq!(run.current_phase(), RunPhase::Finished);
    assert_eq!(run.next_action(), RunAction::Stop);
    assert_eq!(chan.recv(), Step::Done(Ok(Response::Closed)));
    assert_eq!(run.values_sent(), seen.len() as u64);
    seen
}

#[test]
fn counts_down_in_whole_periods_then_ends() {
    assert_eq!(
        observe(100, 1000),
        vec![1000, 900, 800, 700, 600, 500, 400, 300, 200, 100, 0]
    );
}

#[test]
fn counts_down_a_duration_that_is_no_multiple_of_the_period() {
    assert_eq!(observe(300, 1000), vec![1000, 700, 400, 100, 0]);
    assert_eq!(observe(1000, 1000), vec![1000, 0]);
    assert_eq!(observe(999, 1000), vec![1000, 1, 0]);
}

#[test]
fn sequence_has_one_value_per_interval_and_one_more() {
    for (period, duration) in [(1u64, 1u64), (7, 50), (HOUR_MS, DAY_MS), (HOUR_MS, HOUR_MS), (250, 1001)] {
        let seen = observe(period, duration);
        let n = (duration + period - 1) / period;
        assert_eq!(seen.len() as u64, n + 1);
        assert_eq!(seen[0], duration);
        assert_eq!(*seen.last().unwrap(), 0);
        for w in seen.windows(2) {
            assert!(w[0] > w[1]);
        }
    }
}

#[test]
fn a_consumer_ahead_of_the_first_tick_sees_the_duration_twice() {
    let timer = AsyncCountdown::try_new(400).unwrap();
    let (mut run, mut chan) = timer.start(1000).unwrap();
    let mut seen = Vec::new();
    // the seed is there before any tick
    if let Step::Done(Ok(Response::Value(v))) = chan.recv() {
        seen.push(v);
    }
    while run.next_action() == RunAction::AwaitTick {
        run.on_tick(&mut chan);
        if let Step::Done(Ok(Response::Value(v))) = chan.recv() {
            seen.push(v);
        }
    }
    assert_eq!(seen, vec![1000, 1000, 600, 200, 0]);
}

#[test]
fn a_slow_consumer_skips_values_but_never_goes_back() {
    let timer = AsyncCountdown::try_new(100).unwrap();
    let (mut run, mut chan) = timer.start(1000).unwrap();
    let mut seen = Vec::new();
    let mut tick = 0;
    while run.next_action() == RunAction::AwaitTick {
        run.on_tick(&mut chan);
        tick += 1;
        if tick % 4 == 0 {
            if let Step::Done(Ok(Response::Value(v))) = chan.recv() {
                seen.push(v);
            }
        }
    }
    assert_eq!(seen, vec![700, 300]);
    // the zero is still pending, and gates the close
    assert_eq!(chan.close(), Step::Sleep(10));
    assert_eq!(chan.recv(), Step::Done(Ok(Response::Value(0))));
    assert_eq!(chan.close_resume(10), Step::Done(Ok(())));
}

#[test]
fn a_run_past_ticking_ignores_ticks() {
    let timer = AsyncCountdown::try_new(500).unwrap();
    let (mut run, mut chan) = timer.start(500).unwrap();
    assert_eq!(run.on_tick(&mut chan), RunAction::AwaitTick);
    assert_eq!(run.on_tick(&mut chan), RunAction::Close);
    assert_eq!(chan.recv(), Step::Done(Ok(Response::Value(0))));
    let _ = chan.send(77);
    assert_eq!(run.on_tick(&mut chan), RunAction::Close);
    assert_eq!(run.values_sent(), 2);
    assert_eq!(chan.recv(), Step::Done(Ok(Response::Value(77))));
}

#[test]
fn a_close_that_times_out_ends_the_run_and_is_handed_on() {
    let timer = AsyncCountdown::try_new(500).unwrap();
    let (mut run, mut chan) = timer.start(500).unwrap();
    run.on_tick(&mut chan);
    assert_eq!(run.on_tick(&mut chan), RunAction::Close);
    assert_eq!(chan.close(), Step::Sleep(10));
    let step = chan.close_resume(1000);
    let timeout = Err(CountdownError::ChannelError(ChannelError::Timeout(1000)));
    assert_eq!(step, Step::Done(timeout));
    assert_eq!(run.on_close(timeout), timeout);
    assert_eq!(run.current_phase(), RunPhase::Finished);
    assert!(!chan.is_closed());
    assert_eq!(chan.recv(), Step::Done(Ok(Response::Value(0))));
}

#[test]
fn on_close_leaves_a_ticking_run_alone() {
    let timer = AsyncCountdown::try_new(100).unwrap();
    let (mut run, _chan) = timer.start(1000).unwrap();
    assert_eq!(run.on_close(Ok(())), Ok(()));
    assert_eq!(run.current_phase(), RunPhase::Ticking);
}

#[test]
fn period_limits() {
    assert_eq!(validate_period(1), Ok(()));
    assert_eq!(validate_period(HOUR_MS), Ok(()));
    assert_eq!(
        validate_period(0),
        Err(CountdownError::TimerError(TimerError::InvalidCountdown(
            InvalidCountdown::ZeroInterval
        )))
    );
    assert_eq!(
        validate_period(u64::MAX),
        Err(CountdownError::TimerError(TimerError::InvalidCountdown(
            InvalidCountdown::IntervalGreaterThanOneHour(u64::MAX)
        )))
    );
    assert_eq!(AsyncCountdown::try_new(HOUR_MS).unwrap().period_millis(), HOUR_MS);
    assert_eq!(AsyncCountdown::default().period_millis(), 1000);
}

#[test]
fn duration_limits() {
    assert_eq!(validate_duration(1, 1), Ok(()));
    assert_eq!(validate_duration(DAY_MS, HOUR_MS), Ok(()));
    assert_eq!(validate_duration(100, 100), Ok(()));
    let zero = Err(CountdownError::TimerError(TimerError::InvalidDuration(
        InvalidDuration::ZeroDuration,
    )));
    assert_eq!(validate_duration(0, 0), zero);
    assert_eq!(validate_duration(0, 5), zero);
    // too long is reported before too short
    assert_eq!(
        validate_duration(DAY_MS + 1, DAY_MS + 2),
        Err(CountdownError::TimerError(TimerError::InvalidDuration(
            InvalidDuration::DurationGreaterThanOneDay(DAY_MS + 1)
        )))
    );
    assert_eq!(
        validate_duration(99, 100),
        Err(CountdownError::TimerError(TimerError::InvalidDuration(
            InvalidDuration::DurationSmallerThanPeriod { duration: 99, period: 100 }
        )))
    );
    let timer = AsyncCountdown::try_new(100).unwrap();
    assert_eq!(timer.validate_duration(100), Ok(()));
    assert_eq!(timer.validate_duration(0), zero);
}

#[test]
fn a_start_that_fails_hands_out_nothing() {
    let timer = AsyncCountdown::try_new(2000).unwrap();
    assert!(timer.start(1999).is_err());
    assert!(timer.start(0).is_err());
    assert!(timer.start(DAY_MS + 1).is_err());
    let (run, mut chan): (_, Channel<u64>) = timer.start(2000).unwrap();
    assert_eq!(run.values_sent(), 0);
    assert_eq!(run.current_phase(), RunPhase::Ticking);
    assert_eq!(chan.recv(), Step::Done(Ok(Response::Value(2000))));
}

#[test]
fn intervals_round_up() {
    assert_eq!(calc_intervals(1000, 100), 10);
    assert_eq!(calc_intervals(1000, 300), 4);
    assert_eq!(calc_intervals(1001, 1000), 2);
    assert_eq!(calc_intervals(1, 1), 1);
    assert_eq!(calc_intervals(0, 5), 0);
    assert_eq!(calc_intervals(900, 300), 3);
    assert_eq!(calc_intervals(u64::MAX, 1), u64::MAX);
    assert_eq!(calc_intervals(u64::MAX, 2), u64::MAX / 2 + 1);
}

#[test]
fn remaining_time_stops_at_zero() {
    assert_eq!(remaining_after(1000, 300, 0), 1000);
    assert_eq!(remaining_after(1000, 300, 1), 700);
    assert_eq!(remaining_after(1000, 300, 3), 100);
    assert_eq!(remaining_after(1000, 300, 4), 0);
    assert_eq!(remaining_after(1000, 300, 5), 0);
    assert_eq!(remaining_after(1000, 250, 4), 0);
    assert_eq!(remaining_after(1000, u64::MAX, 2), 0);
    assert_eq!(remaining_after(u64::MAX, 1, 1), u64::MAX - 1);
    assert_eq!(remaining_after(5, 0, 9), 5);
}

#[test]
fn errors_convert_upwards() {
    let invalid = InvalidDuration::ZeroDuration;
    let timer: TimerError = invalid.into();
    assert_eq!(timer, TimerError::InvalidDuration(InvalidDuration::ZeroDuration));
    let timer2: TimerError = InvalidCountdown::ZeroInterval.into();
    assert_eq!(timer2, TimerError::InvalidCountdown(InvalidCountdown::ZeroInterval));
    let countdown: CountdownError = timer.into();
    assert_eq!(countdown, CountdownError::TimerError(timer));
    let channel: CountdownError = ChannelError::Timeout(5).into();
    assert_eq!(channel, CountdownError::ChannelError(ChannelError::Timeout(5)));
    let top: TomatilloError = countdown.into();
    assert_eq!(top, TomatilloError::CountdownError(countdown));
    let top2: TomatilloError = ChannelError::Timeout(7).into();
    assert_eq!(top2, TomatilloError::ChannelError(ChannelError::Timeout(7)));
}

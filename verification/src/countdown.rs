//! The countdown: its schedule, its handshake channel and its watcher.

use vstd::prelude::*;

pub mod channel;
pub mod history;
pub mod timer;
pub mod watcher;

use self::channel::after_send;
use self::channel::close_poll;
use self::channel::default_config;
use self::channel::initial_state;
use self::channel::recv_poll;
use self::channel::recv_start;
use self::channel::state_wf;
use self::channel::ChannelConfig;
use self::channel::ChannelState;
use self::timer::duration_ok;
use self::timer::duration_verdict;
use self::timer::RunPhase;

pub use channel::ChannelError;
pub use channel::Channel;
pub use timer::AsyncCountdown;
pub use timer::CountdownRun;
pub use timer::TimerError;

verus! {

/// A failure of the countdown: of its configuration or of its channel.
#[derive(Debug, PartialEq, Eq, Clone, Copy)]
pub enum CountdownError {
    TimerError(TimerError),
    ChannelError(ChannelError),
}

impl From<TimerError> for CountdownError {
    fn from(e: TimerError) -> (r: Self) {
        CountdownError::TimerError(e)
    }
}

impl vstd::std_specs::convert::FromSpecImpl<TimerError> for CountdownError {
    open spec fn obeys_from_spec() -> bool {
        true
    }

    open spec fn from_spec(e: TimerError) -> Self {
        CountdownError::TimerError(e)
    }
}

impl From<ChannelError> for CountdownError {
    fn from(e: ChannelError) -> (r: Self) {
        CountdownError::ChannelError(e)
    }
}

impl vstd::std_specs::convert::FromSpecImpl<ChannelError> for CountdownError {
    open spec fn obeys_from_spec() -> bool {
        true
    }

    open spec fn from_spec(e: ChannelError) -> Self {
        CountdownError::ChannelError(e)
    }
}

/// What the consumer side of a channel hands out: the next value, or the
/// news that no value will follow.
#[derive(Debug, PartialEq, Eq)]
pub enum Response<T: PartialEq + Copy> {
    Value(T),
    Closed,
}

/// One step of an operation that may have to wait.
#[derive(Debug, PartialEq, Eq)]
pub enum Step<R> {
    /// The operation is over, with this result.
    Done(R),
    /// Nothing yet: sleep this many milliseconds, then resume.
    Sleep(u64),
}

/// A countdown that counts down from a duration given at its start.
pub trait Countdown<T: Copy> {
    /// The period of the countdown's ticks, in milliseconds.
    spec fn tick_period(&self) -> u64;

    /// Starts the countdown over `duration_millis`, where that is a legal
    /// duration for the period: hands out the run, which has sent nothing
    /// yet, and a fresh channel seeded with the duration. An illegal
    /// duration starts nothing.
    fn start(&self, duration_millis: u64) -> (r: Result<
        (CountdownRun, Channel<u64>),
        CountdownError,
    >)
        ensures
            r is Ok <==> duration_ok(duration_millis, self.tick_period()),
            match r {
                Ok((run, chan)) => {
                    &&& run.duration() == duration_millis
                    &&& run.period() == self.tick_period()
                    &&& run.sent() == 0
                    &&& run.phase() == RunPhase::Ticking
                    &&& chan@ == initial_state(duration_millis)
                    &&& chan.config() == default_config()
                    &&& chan.wf()
                },
                Err(e) => duration_verdict(duration_millis, self.tick_period()) == Err::<
                    (),
                    CountdownError,
                >(e),
            },
    ;
}

/// What the two sides of a channel share.
pub trait Slot<T> {
    /// What the slot holds.
    spec fn slot(&self) -> ChannelState<T>;

    /// The waiting parameters.
    spec fn waits(&self) -> ChannelConfig;
}

/// The producing side of a channel.
pub trait Sender<T>: Slot<T> {
    /// Puts `value` in the slot, over whatever was there. Never waits, and
    /// never fails; a closed channel stays as it is.
    fn send(&mut self, value: T) -> (r: Result<(), CountdownError>)
        ensures
            r is Ok,
            final(self).slot() == after_send(old(self).slot(), value),
            final(self).waits() == old(self).waits(),
            state_wf(final(self).slot()),
    ;

    /// Begins to close the channel, which tells the receiver that no value
    /// will follow: the close goes through at once where the last value is
    /// acknowledged, and else the step says how long to sleep before
    /// `close_resume`.
    fn close(&mut self) -> (step: Step<Result<(), CountdownError>>)
        ensures
            (final(self).slot(), step) == close_poll(old(self).slot(), old(self).waits(), 0),
            final(self).waits() == old(self).waits(),
            state_wf(final(self).slot()),
    ;

    /// Resumes a close that was told to sleep, `waited_ms` milliseconds
    /// after it began.
    fn close_resume(&mut self, waited_ms: u64) -> (step: Step<Result<(), CountdownError>>)
        ensures
            (final(self).slot(), step) == close_poll(
                old(self).slot(),
                old(self).waits(),
                waited_ms,
            ),
            final(self).waits() == old(self).waits(),
            state_wf(final(self).slot()),
    ;
}

/// The consuming side of a channel.
pub trait Receiver<T: PartialEq + Copy>: Slot<T> {
    /// Begins a receive: a closed channel says so, a pending value is taken
    /// and thereby acknowledged, and else the step says how long to sleep
    /// before `recv_resume`.
    fn recv(&mut self) -> (step: Step<Result<Response<T>, CountdownError>>)
        ensures
            (final(self).slot(), step) == recv_start(old(self).slot(), old(self).waits()),
            final(self).waits() == old(self).waits(),
            state_wf(final(self).slot()),
    ;

    /// Resumes a receive that was told to sleep, `waited_ms` milliseconds
    /// after it began.
    fn recv_resume(&mut self, waited_ms: u64) -> (step: Step<Result<Response<T>, CountdownError>>)
        ensures
            (final(self).slot(), step) == recv_poll(old(self).slot(), old(self).waits(), waited_ms),
            final(self).waits() == old(self).waits(),
            state_wf(final(self).slot()),
    ;
}

} // verus!

//! The schedule of a countdown: which periods and durations are legal, how
//! many ticks a run takes, and which remaining time each tick announces.

use vstd::prelude::*;
use vstd::arithmetic::div_mod::*;
use super::CountdownError;
use super::Countdown;
use super::Sender;
use super::channel::Channel;
use super::channel::after_send;
use super::channel::state_wf;
use super::Slot;
use super::history::after_ops;
use super::history::history;
use super::history::lemma_history;
use super::history::lemma_lockstep_delivers_all;
use super::history::lockstep;
use super::history::Op;

verus! {

/// One hour in milliseconds: the longest legal period.
pub const HOUR_MS: u64 = 3_600_000;

/// One day in milliseconds: the longest legal duration.
pub const DAY_MS: u64 = 86_400_000;

/// Why a countdown cannot be configured or started.
#[derive(Debug, PartialEq, Eq, Clone, Copy)]
pub enum TimerError {
    InvalidCountdown(InvalidCountdown),
    InvalidDuration(InvalidDuration),
}

/// An illegal period. Times are in milliseconds.
#[derive(Debug, PartialEq, Eq, Clone, Copy)]
pub enum InvalidCountdown {
    /// The period is zero.
    ZeroInterval,
    /// The period, which is carried, is longer than one hour.
    IntervalGreaterThanOneHour(u64),
}

/// An illegal duration. Times are in milliseconds.
#[derive(Debug, PartialEq, Eq, Clone, Copy)]
pub enum InvalidDuration {
    /// The duration is zero.
    ZeroDuration,
    /// The duration, which is carried, is longer than one day.
    DurationGreaterThanOneDay(u64),
    /// The duration is shorter than one period.
    DurationSmallerThanPeriod { duration: u64, period: u64 },
}

impl From<InvalidCountdown> for TimerError {
    fn from(e: InvalidCountdown) -> (r: Self) {
        TimerError::InvalidCountdown(e)
    }
}

impl vstd::std_specs::convert::FromSpecImpl<InvalidCountdown> for TimerError {
    open spec fn obeys_from_spec() -> bool {
        true
    }

    open spec fn from_spec(e: InvalidCountdown) -> Self {
        TimerError::InvalidCountdown(e)
    }
}

impl From<InvalidDuration> for TimerError {
    fn from(e: InvalidDuration) -> (r: Self) {
        TimerError::InvalidDuration(e)
    }
}

impl vstd::std_specs::convert::FromSpecImpl<InvalidDuration> for TimerError {
    open spec fn obeys_from_spec() -> bool {
        true
    }

    open spec fn from_spec(e: InvalidDuration) -> Self {
        TimerError::InvalidDuration(e)
    }
}

/// A legal period: positive and at most one hour.
pub open spec fn period_ok(period: u64) -> bool {
    0 < period <= HOUR_MS
}

/// A legal duration for a period: positive, at most one day, and at least
/// one period long.
pub open spec fn duration_ok(duration: u64, period: u64) -> bool {
    0 < duration <= DAY_MS && period <= duration
}

/// The verdict on a period.
pub open spec fn period_verdict(period: u64) -> Result<(), CountdownError> {
    if period == 0 {
        Err(CountdownError::TimerError(TimerError::InvalidCountdown(InvalidCountdown::ZeroInterval)))
    } else if period > HOUR_MS {
        Err(
            CountdownError::TimerError(
                TimerError::InvalidCountdown(InvalidCountdown::IntervalGreaterThanOneHour(period)),
            ),
        )
    } else {
        Ok(())
    }
}

/// The verdict on a duration for a period. Zero is reported first, then a
/// duration over one day, then one under the period.
pub open spec fn duration_verdict(duration: u64, period: u64) -> Result<(), CountdownError> {
    if duration == 0 {
        Err(CountdownError::TimerError(TimerError::InvalidDuration(InvalidDuration::ZeroDuration)))
    } else if duration > DAY_MS {
        Err(
            CountdownError::TimerError(
                TimerError::InvalidDuration(InvalidDuration::DurationGreaterThanOneDay(duration)),
            ),
        )
    } else if duration < period {
        Err(
            CountdownError::TimerError(
                TimerError::InvalidDuration(
                    InvalidDuration::DurationSmallerThanPeriod { duration, period },
                ),
            ),
        )
    } else {
        Ok(())
    }
}

/// Checks a period, in milliseconds.
pub fn validate_period(period: u64) -> (r: Result<(), CountdownError>)
    ensures
        r == period_verdict(period),
        r is Ok <==> period_ok(period),
{
    if period == 0u64 {
        return Err(
            CountdownError::TimerError(TimerError::InvalidCountdown(InvalidCountdown::ZeroInterval)),
        );
    }
    if period > HOUR_MS {
        return Err(
            CountdownError::TimerError(
                TimerError::InvalidCountdown(InvalidCountdown::IntervalGreaterThanOneHour(period)),
            ),
        );
    }
    Ok(())
}

/// Checks a duration against a period, both in milliseconds.
pub fn validate_duration(duration: u64, period: u64) -> (r: Result<(), CountdownError>)
    ensures
        r == duration_verdict(duration, period),
        r is Ok <==> duration_ok(duration, period),
{
    if duration == 0 {
        return Err(
            CountdownError::TimerError(TimerError::InvalidDuration(InvalidDuration::ZeroDuration)),
        );
    }
    if duration > DAY_MS {
        return Err(
            CountdownError::TimerError(
                TimerError::InvalidDuration(InvalidDuration::DurationGreaterThanOneDay(duration)),
            ),
        );
    }
    if duration < period {
        return Err(
            CountdownError::TimerError(
                TimerError::InvalidDuration(
                    InvalidDuration::DurationSmallerThanPeriod { duration, period },
                ),
            ),
        );
    }
    Ok(())
}

/// The number of periods it takes to cover a duration: the quotient,
/// rounded up.
pub open spec fn intervals(duration: int, period: int) -> int
    recommends
        period > 0,
{
    if duration % period == 0 {
        duration / period
    } else {
        duration / period + 1
    }
}

/// The time that remains after `k` whole periods: never below zero.
pub open spec fn remaining(duration: int, period: int, k: int) -> int {
    if k * period >= duration {
        0
    } else {
        duration - k * period
    }
}

/// The values that one run announces, first to last: one per tick.
pub open spec fn sequence(duration: int, period: int) -> Seq<int> {
    Seq::new((intervals(duration, period) + 1) as nat, |k: int| remaining(duration, period, k))
}

/// `intervals` is the least number of periods that cover the duration.
pub proof fn lemma_intervals_least_cover(duration: int, period: int)
    requires
        duration >= 0,
        period > 0,
    ensures
        intervals(duration, period) >= 0,
        intervals(duration, period) * period >= duration,
        duration > 0 ==> (intervals(duration, period) - 1) * period < duration,
        duration > 0 ==> intervals(duration, period) >= 1,
        intervals(duration, period) <= duration,
{
    let q = duration / period;
    let r = duration % period;
    lemma_fundamental_div_mod(duration, period);
    lemma_mod_bound(duration, period);
    lemma_div_pos_is_pos(duration, period);
    assert(duration == period * q + r);
    assert(period * q == q * period) by (nonlinear_arith);
    assert((q + 1) * period == q * period + period) by (nonlinear_arith);
    assert((q - 1) * period == q * period - period) by (nonlinear_arith);
    assert(q <= q * period) by (nonlinear_arith)
        requires
            q >= 0,
            period >= 1,
    ;
    if duration > 0 && r == 0 {
        assert(q >= 1) by (nonlinear_arith)
            requires
                q * period > 0,
                period > 0,
        ;
    }
}

/// Counts the periods it takes to cover a duration.
pub fn calc_intervals(duration: u64, period: u64) -> (n: u64)
    requires
        period > 0,
    ensures
        n == intervals(duration as int, period as int),
{
    let q: u64 = duration / period;
    if duration % period == 0 {
        q
    } else {
        proof {
            lemma_intervals_least_cover(duration as int, period as int);
        }
        q + 1
    }
}

/// The time that remains after `k` whole periods.
pub fn remaining_after(duration: u64, period: u64, k: u64) -> (left: u64)
    ensures
        left == remaining(duration as int, period as int, k as int),
{
    match k.checked_mul(period) {
        Some(gone) => {
            if gone >= duration {
                0
            } else {
                duration - gone
            }
        },
        None => {
            0
        },
    }
}

/// The values of a run go down strictly, from the duration to zero: for a
/// legal period and duration the run announces one value more than it takes
/// periods to cover the duration, the first is the duration, each is less
/// than the one before, and the last, and only the last, is zero.
pub proof fn lemma_sequence_counts_down(duration: u64, period: u64)
    requires
        period_ok(period),
        duration_ok(duration, period),
    ensures
        period_verdict(period) is Ok,
        duration_verdict(duration, period) is Ok,
        sequence(duration as int, period as int).len() == intervals(duration as int, period as int)
            + 1,
        sequence(duration as int, period as int).len() >= 2,
        sequence(duration as int, period as int).first() == duration,
        sequence(duration as int, period as int).last() == 0,
        forall|i: int, j: int|
            0 <= i < j < sequence(duration as int, period as int).len() ==> sequence(
                duration as int,
                period as int,
            )[i] > sequence(duration as int, period as int)[j],
        forall|i: int|
            0 <= i < sequence(duration as int, period as int).len() ==> 0 <= #[trigger] sequence(
                duration as int,
                period as int,
            )[i] <= duration,
{
    let d = duration as int;
    let p = period as int;
    let n = intervals(d, p);
    lemma_intervals_least_cover(d, p);
    assert(0 * p == 0) by (nonlinear_arith);
    assert forall|i: int, j: int| 0 <= i < j <= n implies remaining(d, p, i) > remaining(
        d,
        p,
        j,
    ) by {
        assert(i * p < j * p) by (nonlinear_arith)
            requires
                i < j,
                p > 0,
        ;
        assert(i * p <= (n - 1) * p) by (nonlinear_arith)
            requires
                i <= n - 1,
                p > 0,
        ;
    }
    assert forall|i: int| 0 <= i <= n implies 0 <= #[trigger] remaining(d, p, i) <= d by {
        assert(i * p >= 0) by (nonlinear_arith)
            requires
                i >= 0,
                p > 0,
        ;
    }
}

/// A run whose consumer keeps up delivers the whole countdown: where each
/// value is taken before the next tick, the consumer is handed exactly the
/// values of the run, from the duration down to zero, and the close that
/// follows goes through at once.
pub proof fn lemma_run_in_lockstep(duration: u64, period: u64)
    requires
        period_ok(period),
        duration_ok(duration, period),
    ensures
        history(duration as int, lockstep(sequence(duration as int, period as int))).taken
            == sequence(duration as int, period as int),
        after_ops(
            duration as int,
            lockstep(sequence(duration as int, period as int)).push(Op::Close),
        ).closed,
        history(
            duration as int,
            lockstep(sequence(duration as int, period as int)).push(Op::Close),
        ).taken == sequence(duration as int, period as int),
{
    lemma_sequence_counts_down(duration, period);
    lemma_lockstep_delivers_all(duration as int, sequence(duration as int, period as int));
}

/// What the consumer sees never rises, however the two sides interleave.
/// Where the producer has so far sent the first `k` values of a run into a
/// channel seeded with the duration, then of any two values that the
/// consumer was handed the later one is smaller, with one exception: the
/// duration can be seen twice, as the seed and as the value of the first
/// tick, and then these are the first two values seen.
pub proof fn lemma_observed_never_rise(duration: u64, period: u64, ops: Seq<Op<int>>, k: int)
    requires
        period_ok(period),
        duration_ok(duration, period),
        0 <= k <= sequence(duration as int, period as int).len(),
        history(duration as int, ops).sent == seq![duration as int] + sequence(
            duration as int,
            period as int,
        ).take(k),
    ensures
        forall|i: int, j: int|
            #![trigger history(duration as int, ops).taken[i], history(duration as int, ops).taken[j]]
            0 <= i < j < history(duration as int, ops).taken.len() ==> {
                &&& history(duration as int, ops).taken[i] >= history(duration as int, ops).taken[j]
                &&& (history(duration as int, ops).taken[i] == history(duration as int, ops).taken[j]
                    ==> i == 0 && j == 1 && history(duration as int, ops).taken[0] == duration)
            },
{
    let d = duration as int;
    let values = sequence(d, period as int);
    let h = history(d, ops);
    lemma_history(d, ops);
    lemma_sequence_counts_down(duration, period);
    assert forall|m: int| 1 <= m < h.sent.len() implies h.sent[m] == values[m - 1] by {
        assert(h.sent[m] == values.take(k)[m - 1]);
    }
    assert(h.sent[0] == values[0]);
    assert forall|i: int, j: int| 0 <= i < j < h.taken.len() implies #[trigger] h.taken[i]
        >= #[trigger] h.taken[j] && (h.taken[i] == h.taken[j] ==> i == 0 && j == 1 && h.taken[0]
        == duration) by {
        let a = h.taken_at[i];
        let b = h.taken_at[j];
        assert(h.taken[i] == h.sent[a]);
        assert(h.taken[j] == h.sent[b]);
        assert(a < b);
        if a == 0 {
            if i > 0 {
                assert(h.taken_at[0] < h.taken_at[i]);
            }
            if b == 1 {
                if j > 1 {
                    assert(h.taken_at[1] < h.taken_at[j]);
                    assert(h.taken_at[0] < h.taken_at[1]);
                }
            } else {
                assert(values[0] > values[b - 1]);
            }
        } else {
            assert(values[a - 1] > values[b - 1]);
        }
    }
}

/// A countdown that is configured with its period and not started yet.
#[derive(Debug)]
pub struct AsyncCountdown {
    period_ms: u64,
}

/// Where a run stands.
#[derive(Debug, PartialEq, Eq, Clone, Copy)]
pub enum RunPhase {
    /// Values are still to be sent, one at each tick.
    Ticking,
    /// The last value, zero, is out; the channel is to be closed.
    Closing,
    /// The run is over.
    Finished,
}

/// What the driver of a run does next.
#[derive(Debug, PartialEq, Eq, Clone, Copy)]
pub enum RunAction {
    /// Wait for the next tick of the period, then call `on_tick`.
    AwaitTick,
    /// Close the channel, and hand the outcome to `on_close`.
    Close,
    /// Nothing: the run is over.
    Stop,
}

/// One run of a countdown: the producer's side of the schedule.
#[derive(Debug)]
pub struct CountdownRun {
    duration: u64,
    period: u64,
    intervals: u64,
    sent: u64,
    phase: RunPhase,
}

impl AsyncCountdown {
    /// The period, in milliseconds.
    pub closed spec fn period(&self) -> u64 {
        self.period_ms
    }

    #[verifier::type_invariant]
    spec fn inv(&self) -> bool {
        period_ok(self.period_ms)
    }

    /// A countdown that ticks every `period_millis`, where that is a legal
    /// period.
    pub fn try_new(period_millis: u64) -> (r: Result<Self, CountdownError>)
        ensures
            r is Ok <==> period_ok(period_millis),
            match r {
                Ok(timer) => timer.period() == period_millis,
                Err(e) => period_verdict(period_millis) == Err::<(), CountdownError>(e),
            },
    {
        match validate_period(period_millis) {
            Ok(()) => Ok(AsyncCountdown { period_ms: period_millis }),
            Err(e) => Err(e),
        }
    }

    /// The period, in milliseconds: always a legal one.
    pub fn period_millis(&self) -> (period: u64)
        ensures
            period == self.period(),
            period_ok(period),
    {
        proof {
            use_type_invariant(self);
        }
        self.period_ms
    }

    /// Checks a duration against this countdown's period.
    pub fn validate_duration(&self, duration: u64) -> (r: Result<(), CountdownError>)
        ensures
            r == duration_verdict(duration, self.period()),
            r is Ok <==> duration_ok(duration, self.period()),
    {
        validate_duration(duration, self.period_ms)
    }
}

impl Default for AsyncCountdown {
    /// A countdown that ticks every second.
    fn default() -> (timer: Self)
        ensures
            timer.period() == 1000,
    {
        AsyncCountdown { period_ms: 1000 }
    }
}

impl Countdown<u64> for AsyncCountdown {
    open spec fn tick_period(&self) -> u64 {
        self.period()
    }

    fn start(&self, duration_millis: u64) -> (r: Result<(CountdownRun, Channel<u64>), CountdownError>) {
        match self.validate_duration(duration_millis) {
            Ok(()) => {
                proof {
                    use_type_invariant(self);
                    lemma_intervals_least_cover(duration_millis as int, self.period_ms as int);
                }
                let n: u64 = calc_intervals(duration_millis, self.period_ms);
                let run = CountdownRun {
                    duration: duration_millis,
                    period: self.period_ms,
                    intervals: n,
                    sent: 0,
                    phase: RunPhase::Ticking,
                };
                Ok((run, Channel::new(duration_millis)))
            },
            Err(e) => Err(e),
        }
    }
}

impl CountdownRun {
    /// The duration of the run, in milliseconds.
    pub closed spec fn duration(&self) -> u64 {
        self.duration
    }

    /// The period of the run, in milliseconds.
    pub closed spec fn period(&self) -> u64 {
        self.period
    }

    /// How many values the run has sent.
    pub closed spec fn sent(&self) -> u64 {
        self.sent
    }

    /// Where the run stands.
    pub closed spec fn phase(&self) -> RunPhase {
        self.phase
    }

    /// The values that the run announces, first to last.
    pub open spec fn values(&self) -> Seq<int> {
        sequence(self.duration() as int, self.period() as int)
    }

    #[verifier::type_invariant]
    spec fn inv(&self) -> bool {
        &&& period_ok(self.period)
        &&& duration_ok(self.duration, self.period)
        &&& self.intervals == intervals(self.duration as int, self.period as int)
        &&& self.sent <= self.intervals + 1
        &&& (self.phase == RunPhase::Ticking <==> self.sent <= self.intervals)
    }

    /// How many values the run has sent: never more than it has.
    pub fn values_sent(&self) -> (sent: u64)
        ensures
            sent == self.sent(),
            sent <= self.values().len(),
    {
        proof {
            use_type_invariant(self);
            lemma_intervals_least_cover(self.duration as int, self.period as int);
        }
        self.sent
    }

    /// Where the run stands: ticking exactly as long as a value is left to
    /// send, in a schedule that is legal.
    pub fn current_phase(&self) -> (phase: RunPhase)
        ensures
            phase == self.phase(),
            phase == RunPhase::Ticking <==> self.sent() < self.values().len(),
            period_ok(self.period()),
            duration_ok(self.duration(), self.period()),
    {
        proof {
            use_type_invariant(self);
            lemma_intervals_least_cover(self.duration as int, self.period as int);
        }
        self.phase
    }

    /// What the driver does next.
    pub fn next_action(&self) -> (action: RunAction)
        ensures
            action == action_in(self.phase()),
    {
        match self.phase {
            RunPhase::Ticking => RunAction::AwaitTick,
            RunPhase::Closing => RunAction::Close,
            RunPhase::Finished => RunAction::Stop,
        }
    }

    /// A tick has come: a ticking run sends its next value down the
    /// channel, and moves on to closing once that value was the last one,
    /// which is zero. A run past ticking does nothing.
    pub fn on_tick<S: Sender<u64>>(&mut self, chan: &mut S) -> (action: RunAction)
        ensures
            final(self).duration() == old(self).duration(),
            final(self).period() == old(self).period(),
            final(chan).waits() == old(chan).waits(),
            state_wf(old(chan).slot()) ==> state_wf(final(chan).slot()),
            action == action_in(final(self).phase()),
            old(self).phase() == RunPhase::Ticking ==> {
                &&& old(self).sent() < old(self).values().len()
                &&& final(chan).slot() == after_send(
                    old(chan).slot(),
                    old(self).values()[old(self).sent() as int] as u64,
                )
                &&& final(self).sent() == old(self).sent() + 1
                &&& final(self).phase() == if final(self).sent() == old(self).values().len() {
                    RunPhase::Closing
                } else {
                    RunPhase::Ticking
                }
            },
            old(self).phase() != RunPhase::Ticking ==> *final(self) == *old(self) && *final(chan)
                == *old(chan),
    {
        proof {
            use_type_invariant(&*self);
        }
        match self.phase {
            RunPhase::Ticking => {
                proof {
                    lemma_intervals_least_cover(self.duration as int, self.period as int);
                    lemma_sequence_counts_down(self.duration, self.period);
                }
                let left: u64 = remaining_after(self.duration, self.period, self.sent);
                let _ = chan.send(left);
                *self = CountdownRun {
                    duration: self.duration,
                    period: self.period,
                    intervals: self.intervals,
                    sent: self.sent + 1,
                    phase: if self.sent == self.intervals {
                        RunPhase::Closing
                    } else {
                        RunPhase::Ticking
                    },
                };
                self.next_action()
            },
            _ => self.next_action(),
        }
    }

    /// The close has ended, well or in a timeout: either way a closing run
    /// is over, and the outcome is handed on. A run that is not closing
    /// stays as it is.
    pub fn on_close(&mut self, outcome: Result<(), CountdownError>) -> (r: Result<
        (),
        CountdownError,
    >)
        ensures
            r == outcome,
            final(self).duration() == old(self).duration(),
            final(self).period() == old(self).period(),
            final(self).sent() == old(self).sent(),
            final(self).phase() == if old(self).phase() == RunPhase::Closing {
                RunPhase::Finished
            } else {
                old(self).phase()
            },
    {
        proof {
            use_type_invariant(&*self);
        }
        match self.phase {
            RunPhase::Closing => {
                self.phase = RunPhase::Finished;
            },
            _ => {},
        }
        outcome
    }
}

/// The action that goes with a phase.
pub open spec fn action_in(phase: RunPhase) -> RunAction {
    match phase {
        RunPhase::Ticking => RunAction::AwaitTick,
        RunPhase::Closing => RunAction::Close,
        RunPhase::Finished => RunAction::Stop,
    }
}

} // verus!

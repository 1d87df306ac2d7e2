//! The plain countdown: a fixed duration, counted down in whole intervals,
//! with a bound on how many sends in a row may go undelivered.
//!
//! The countdown decides what to send at each tick and what an undelivered
//! send means; ticking and sending are the caller's.

use vstd::prelude::*;
use vstd::std_specs::cmp::PartialEqSpecImpl;
use crate::countdown::timer::calc_intervals;
use crate::countdown::timer::intervals;
use crate::countdown::timer::lemma_intervals_least_cover;
use crate::countdown::timer::DAY_MS;
use crate::countdown::timer::HOUR_MS;
use crate::text::push_two_digits;
use crate::text::string_of;
use crate::text::two_digits;

verus! {

/// A time in milliseconds that is shown as `HH:MM:SS`.
#[derive(Debug, PartialEq, Eq, Clone, Copy)]
pub struct DurationDisplay(pub u64);

/// Why a countdown cannot be made.
#[derive(Debug, PartialEq, Eq, Clone, Copy)]
pub enum InvalidCountdown {
    IntervalGreaterThanDuration { duration: DurationDisplay, interval: DurationDisplay },
    ZeroDuration,
    ZeroInterval,
    DurationGreaterThanOneDay(DurationDisplay),
    IntervalGreaterThanOneHour(DurationDisplay),
}

/// A failure of the plain countdown.
#[derive(Debug, Clone, Copy)]
pub enum Error {
    /// The countdown cannot be made.
    InvalidCountdown(InvalidCountdown),
    /// Too many sends in a row went undelivered; the time left that the
    /// last of them carried is given, in milliseconds.
    CountdownError(u64),
}

impl PartialEq for Error {
    /// Two errors are equal where both say that the countdown is invalid,
    /// for whatever reason, or both carry the same undelivered time.
    fn eq(&self, other: &Error) -> (r: bool) {
        match (self, other) {
            (Error::InvalidCountdown(_), Error::InvalidCountdown(_)) => true,
            (Error::CountdownError(a), Error::CountdownError(b)) => *a == *b,
            _ => false,
        }
    }
}

impl PartialEqSpecImpl for Error {
    open spec fn obeys_eq_spec() -> bool {
        true
    }

    open spec fn eq_spec(&self, other: &Error) -> bool {
        match (self, other) {
            (Error::InvalidCountdown(_), Error::InvalidCountdown(_)) => true,
            (Error::CountdownError(a), Error::CountdownError(b)) => *a == *b,
            _ => false,
        }
    }
}

/// A number of seconds as hours, minutes and seconds, each in two digits
/// at least.
pub open spec fn hms_text(seconds: nat) -> Seq<char> {
    two_digits(seconds / 3600).push(':') + two_digits((seconds / 60) % 60).push(':') + two_digits(
        seconds % 60,
    )
}

impl DurationDisplay {
    /// The time as `HH:MM:SS`; what is left over a whole second is dropped.
    pub fn to_string(&self) -> (s: String)
        ensures
            s@ == hms_text((self.0 / 1000) as nat),
    {
        let seconds: u64 = self.0 / 1000;
        let mut text: Vec<char> = Vec::new();
        push_two_digits(&mut text, seconds / 3600);
        text.push(':');
        push_two_digits(&mut text, (seconds / 60) % 60);
        text.push(':');
        push_two_digits(&mut text, seconds % 60);
        assert(text@ =~= hms_text(seconds as nat));
        string_of(&text)
    }
}

/// The verdict on a duration and an interval, in milliseconds. The duration
/// is judged first, then the interval, then the two together.
pub open spec fn verdict(duration: u64, interval: u64) -> Result<(), InvalidCountdown> {
    if duration == 0 {
        Err(InvalidCountdown::ZeroDuration)
    } else if duration > DAY_MS {
        Err(InvalidCountdown::DurationGreaterThanOneDay(DurationDisplay(duration)))
    } else if interval == 0 {
        Err(InvalidCountdown::ZeroInterval)
    } else if interval > HOUR_MS {
        Err(InvalidCountdown::IntervalGreaterThanOneHour(DurationDisplay(interval)))
    } else if interval > duration {
        Err(
            InvalidCountdown::IntervalGreaterThanDuration {
                duration: DurationDisplay(duration),
                interval: DurationDisplay(interval),
            },
        )
    } else {
        Ok(())
    }
}

/// Checks a duration alone.
pub fn validate_duration(duration: u64) -> (r: Result<(), InvalidCountdown>)
    ensures
        r == if duration == 0 {
            Err::<(), InvalidCountdown>(InvalidCountdown::ZeroDuration)
        } else if duration > DAY_MS {
            Err(InvalidCountdown::DurationGreaterThanOneDay(DurationDisplay(duration)))
        } else {
            Ok(())
        },
{
    if duration == 0 {
        return Err(InvalidCountdown::ZeroDuration);
    }
    if duration > DAY_MS {
        return Err(InvalidCountdown::DurationGreaterThanOneDay(DurationDisplay(duration)));
    }
    Ok(())
}

/// Checks an interval alone.
pub fn validate_interval(interval: u64) -> (r: Result<(), InvalidCountdown>)
    ensures
        r == if interval == 0 {
            Err::<(), InvalidCountdown>(InvalidCountdown::ZeroInterval)
        } else if interval > HOUR_MS {
            Err(InvalidCountdown::IntervalGreaterThanOneHour(DurationDisplay(interval)))
        } else {
            Ok(())
        },
{
    if interval == 0 {
        return Err(InvalidCountdown::ZeroInterval);
    }
    if interval > HOUR_MS {
        return Err(InvalidCountdown::IntervalGreaterThanOneHour(DurationDisplay(interval)));
    }
    Ok(())
}

/// A countdown from a fixed duration, and how far its run has come.
#[derive(Debug)]
pub struct Countdown {
    duration: u64,
    interval: u64,
    send_retry_limit: u8,
    ticks_left: u64,
    retries_left: u8,
}

/// The time left that is sent when `ticks_left` sends are still to come:
/// as many whole intervals as sends follow it.
pub open spec fn time_left(interval: u64, ticks_left: u64) -> int {
    interval * (ticks_left - 1)
}

impl Countdown {
    /// The duration, in milliseconds.
    pub closed spec fn duration(&self) -> u64 {
        self.duration
    }

    /// The interval, in milliseconds.
    pub closed spec fn interval(&self) -> u64 {
        self.interval
    }

    /// How many sends in a row may go undelivered.
    pub closed spec fn send_retry_limit(&self) -> u8 {
        self.send_retry_limit
    }

    /// How many sends of the run are still to come.
    pub closed spec fn ticks_left(&self) -> u64 {
        self.ticks_left
    }

    /// How many more sends may go undelivered before the run fails.
    pub closed spec fn retries_left(&self) -> u8 {
        self.retries_left
    }

    /// How many sends a whole run makes: one for each interval that it
    /// takes to cover the duration, and one for zero.
    pub open spec fn ticks(&self) -> int {
        intervals(self.duration() as int, self.interval() as int) + 1
    }

    #[verifier::type_invariant]
    spec fn inv(&self) -> bool {
        &&& verdict(self.duration, self.interval) is Ok
        &&& self.ticks_left <= intervals(self.duration as int, self.interval as int) + 1
        &&& self.retries_left <= self.send_retry_limit
    }

    /// Duration and interval are legal, no more sends are to come than a
    /// run makes, and no more may go undelivered than the limit: this
    /// always holds.
    pub open spec fn wf(&self) -> bool {
        &&& verdict(self.duration(), self.interval()) is Ok
        &&& self.ticks_left() <= self.ticks()
        &&& self.retries_left() <= self.send_retry_limit()
    }

    /// A countdown of `duration` in steps of `interval`, both in
    /// milliseconds and legal, with a whole run before it.
    pub fn try_new(duration: u64, interval: u64, send_retry_limit: u8) -> (r: Result<Self, Error>)
        ensures
            r is Ok <==> verdict(duration, interval) is Ok,
            match r {
                Ok(c) => {
                    &&& c.duration() == duration
                    &&& c.interval() == interval
                    &&& c.send_retry_limit() == send_retry_limit
                    &&& c.retries_left() == send_retry_limit
                    &&& c.ticks_left() == c.ticks()
                    &&& c.wf()
                },
                Err(e) => e == Error::InvalidCountdown(verdict(duration, interval)->Err_0),
            },
    {
        match validate_duration(duration) {
            Err(e) => {
                return Err(Error::InvalidCountdown(e));
            },
            Ok(()) => {},
        }
        match validate_interval(interval) {
            Err(e) => {
                return Err(Error::InvalidCountdown(e));
            },
            Ok(()) => {},
        }
        if interval > duration {
            return Err(
                Error::InvalidCountdown(
                    InvalidCountdown::IntervalGreaterThanDuration {
                        duration: DurationDisplay(duration),
                        interval: DurationDisplay(interval),
                    },
                ),
            );
        }
        proof {
            lemma_intervals_least_cover(duration as int, interval as int);
        }
        let n: u64 = calc_intervals(duration, interval);
        Ok(
            Countdown {
                duration,
                interval,
                send_retry_limit,
                ticks_left: n + 1,
                retries_left: send_retry_limit,
            },
        )
    }

    /// Begins a run: all of its sends are to come again, and the first of
    /// them is handed out.
    pub fn start(&mut self) -> (first: u64)
        ensures
            final(self).wf(),
            final(self).duration() == old(self).duration(),
            final(self).interval() == old(self).interval(),
            final(self).send_retry_limit() == old(self).send_retry_limit(),
            final(self).ticks_left() == final(self).ticks(),
            final(self).retries_left() == final(self).send_retry_limit(),
            first == time_left(final(self).interval(), final(self).ticks_left()),
    {
        proof {
            use_type_invariant(&*self);
            lemma_intervals_least_cover(self.duration as int, self.interval as int);
        }
        let n: u64 = calc_intervals(self.duration, self.interval);
        *self = Countdown {
            duration: self.duration,
            interval: self.interval,
            send_retry_limit: self.send_retry_limit,
            ticks_left: n + 1,
            retries_left: self.send_retry_limit,
        };
        proof {
            self.lemma_time_left_bounded();
        }
        self.interval * n
    }

    /// The time left that the next tick sends, or `None` where the run has
    /// sent them all.
    pub fn next_time_left(&self) -> (value: Option<u64>)
        ensures
            self.wf(),
            value == if self.ticks_left() == 0 {
                None::<u64>
            } else {
                Some(time_left(self.interval(), self.ticks_left()) as u64)
            },
            self.ticks_left() > 0 ==> time_left(self.interval(), self.ticks_left()) <= u64::MAX,
    {
        proof {
            use_type_invariant(self);
        }
        if self.ticks_left == 0 {
            None
        } else {
            proof {
                self.lemma_time_left_bounded();
            }
            Some(self.interval * (self.ticks_left - 1))
        }
    }

    /// The send of this tick is over. A delivered one restores the
    /// allowance of undelivered sends; an undelivered one uses one of it
    /// up, and fails the run, with the time left that it carried, where
    /// none is left. Unless it fails, the run moves on to its next tick.
    pub fn on_sent(&mut self, delivered: bool) -> (r: Result<(), Error>)
        ensures
            final(self).wf(),
            final(self).duration() == old(self).duration(),
            final(self).interval() == old(self).interval(),
            final(self).send_retry_limit() == old(self).send_retry_limit(),
            r is Err <==> old(self).ticks_left() > 0 && !delivered && old(self).retries_left() == 0,
            r matches Err(e) ==> e == Error::CountdownError(
                time_left(old(self).interval(), old(self).ticks_left()) as u64,
            ) && final(self).ticks_left() == old(self).ticks_left() && final(self).retries_left()
                == 0,
            r is Ok && old(self).ticks_left() == 0 ==> final(self).ticks_left() == 0
                && final(self).retries_left() == old(self).retries_left(),
            r is Ok && old(self).ticks_left() > 0 ==> final(self).ticks_left() == old(
                self,
            ).ticks_left() - 1 && final(self).retries_left() == if delivered {
                old(self).send_retry_limit() as int
            } else {
                old(self).retries_left() - 1
            },
    {
        proof {
            use_type_invariant(&*self);
        }
        if self.ticks_left == 0 {
            return Ok(());
        }
        if !delivered && self.retries_left == 0 {
            proof {
                self.lemma_time_left_bounded();
            }
            return Err(Error::CountdownError(self.interval * (self.ticks_left - 1)));
        }
        *self = Countdown {
            duration: self.duration,
            interval: self.interval,
            send_retry_limit: self.send_retry_limit,
            ticks_left: self.ticks_left - 1,
            retries_left: if delivered {
                self.send_retry_limit
            } else {
                self.retries_left - 1
            },
        };
        Ok(())
    }

    /// The times left of a run fit their type: none is more than the
    /// duration and one interval.
    pub proof fn lemma_time_left_bounded(&self)
        requires
            self.wf(),
            self.ticks_left() > 0,
        ensures
            0 <= time_left(self.interval(), self.ticks_left()) < self.duration() + self.interval(),
            time_left(self.interval(), self.ticks_left()) <= u64::MAX,
    {
        let d = self.duration() as int;
        let p = self.interval() as int;
        let n = intervals(d, p);
        let i = self.ticks_left() - 1;
        lemma_intervals_least_cover(d, p);
        assert(p * i <= p * n) by (nonlinear_arith)
            requires
                0 <= i <= n,
                p > 0,
        ;
        assert(p * i >= 0) by (nonlinear_arith)
            requires
                0 <= i,
                p > 0,
        ;
        assert(p * n == (n - 1) * p + p) by (nonlinear_arith);
    }
}

impl Default for Countdown {
    /// Twenty-five minutes in steps of a second, with five sends in a row
    /// allowed to go undelivered.
    fn default() -> (c: Self)
        ensures
            c.duration() == 1_500_000,
            c.interval() == 1000,
            c.send_retry_limit() == 5,
            c.retries_left() == 5,
            c.ticks_left() == c.ticks(),
            c.wf(),
    {
        proof {
            lemma_intervals_least_cover(1_500_000, 1000);
        }
        let n: u64 = calc_intervals(1_500_000, 1000);
        Countdown {
            duration: 1_500_000,
            interval: 1000,
            send_retry_limit: 5,
            ticks_left: n + 1,
            retries_left: 5,
        }
    }
}

} // verus!

//! The watcher: the consumer's side of a channel as a plain pull, "the
//! next remaining time, or the end".

use vstd::prelude::*;
use super::CountdownError;
use super::Receiver;
use super::Response;
use super::Step;
use super::channel::state_wf;
use super::Slot;
use super::channel::ChannelConfig;
use super::channel::ChannelError;
use super::channel::ChannelState;
use super::channel::recv_poll;
use super::channel::recv_start;

verus! {

/// A value that can tell whether it is zero.
pub trait Zeroable: Copy + PartialEq + Eq {
    /// Whether the value is zero.
    spec fn zero(&self) -> bool;

    /// Whether the value is zero.
    fn is_zero(&self) -> (z: bool)
        ensures
            z == self.zero(),
    ;
}

impl Zeroable for u8 {
    open spec fn zero(&self) -> bool {
        *self == 0
    }

    fn is_zero(&self) -> (z: bool) {
        *self == 0
    }
}

impl Zeroable for u16 {
    open spec fn zero(&self) -> bool {
        *self == 0
    }

    fn is_zero(&self) -> (z: bool) {
        *self == 0
    }
}

impl Zeroable for u32 {
    open spec fn zero(&self) -> bool {
        *self == 0
    }

    fn is_zero(&self) -> (z: bool) {
        *self == 0
    }
}

impl Zeroable for u64 {
    open spec fn zero(&self) -> bool {
        *self == 0
    }

    fn is_zero(&self) -> (z: bool) {
        *self == 0
    }
}

impl Zeroable for u128 {
    open spec fn zero(&self) -> bool {
        *self == 0
    }

    fn is_zero(&self) -> (z: bool) {
        *self == 0
    }
}

/// A failure of a pull.
#[derive(Debug, PartialEq, Eq, Clone, Copy)]
pub enum WatcherError {
    /// The sequence is over.
    EOF,
    /// No value came within the timeout, given in milliseconds.
    Timeout(u64),
}

/// The consumer's view of one countdown: what it has seen go by.
#[derive(Debug, PartialEq, Eq, Clone, Copy)]
pub struct ChannelWatcher {
    zero_seen: bool,
    ended: bool,
}

/// What a pull hands out for a step of the channel's receive: a value as
/// `Some`, zero included; the closed channel as `None`; a timeout as the
/// watcher's own; a sleep as it is. A failure of the timer, which no
/// receive ends in, would read as the end of the input.
pub open spec fn pulled<T: PartialEq + Copy>(
    step: Step<Result<Response<T>, CountdownError>>,
) -> Step<Result<Option<T>, WatcherError>> {
    match step {
        Step::Sleep(ms) => Step::Sleep(ms),
        Step::Done(Ok(Response::Value(v))) => Step::Done(Ok(Some(v))),
        Step::Done(Ok(Response::Closed)) => Step::Done(Ok(None)),
        Step::Done(Err(CountdownError::ChannelError(ChannelError::Timeout(ms)))) => Step::Done(
            Err(WatcherError::Timeout(ms)),
        ),
        Step::Done(Err(CountdownError::TimerError(_))) => Step::Done(Err(WatcherError::EOF)),
    }
}

/// Whether a step of a pull hands out a zero.
pub open spec fn pulls_zero<T: Zeroable>(step: Step<Result<Option<T>, WatcherError>>) -> bool {
    step matches Step::Done(Ok(Some(v))) && v.zero()
}

/// Whether a step of a pull hands out the end of the sequence.
pub open spec fn pulls_end<T>(step: Step<Result<Option<T>, WatcherError>>) -> bool {
    step matches Step::Done(Ok(None))
}

impl ChannelWatcher {
    /// A zero has been handed out.
    pub closed spec fn zero_seen(&self) -> bool {
        self.zero_seen
    }

    /// The end of the sequence has been handed out.
    pub closed spec fn ended(&self) -> bool {
        self.ended
    }

    /// A watcher that has seen nothing yet.
    pub fn new() -> (watcher: Self)
        ensures
            !watcher.zero_seen(),
            !watcher.ended(),
    {
        ChannelWatcher { zero_seen: false, ended: false }
    }

    /// Whether a zero has been handed out.
    pub fn has_seen_zero(&self) -> (seen: bool)
        ensures
            seen == self.zero_seen(),
    {
        self.zero_seen
    }

    /// Whether the end of the sequence has been handed out.
    pub fn has_ended(&self) -> (ended: bool)
        ensures
            ended == self.ended(),
    {
        self.ended
    }

    fn note<T: Zeroable>(&mut self, step: Step<Result<Response<T>, CountdownError>>) -> (out: Step<
        Result<Option<T>, WatcherError>,
    >)
        requires
            !(step matches Step::Done(Err(CountdownError::TimerError(_)))),
        ensures
            out == pulled(step),
            final(self).zero_seen() == (old(self).zero_seen() || pulls_zero(out)),
            final(self).ended() == (old(self).ended() || pulls_end(out)),
    {
        match step {
            Step::Sleep(ms) => Step::Sleep(ms),
            Step::Done(Ok(Response::Value(v))) => {
                if v.is_zero() {
                    self.zero_seen = true;
                }
                Step::Done(Ok(Some(v)))
            },
            Step::Done(Ok(Response::Closed)) => {
                self.ended = true;
                Step::Done(Ok(None))
            },
            Step::Done(Err(CountdownError::ChannelError(ChannelError::Timeout(ms)))) => Step::Done(
                Err(WatcherError::Timeout(ms)),
            ),
            Step::Done(Err(CountdownError::TimerError(_))) => Step::Done(Err(WatcherError::EOF)),
        }
    }

    /// Begins to pull the next value from the channel: `Some` value, zero
    /// included; `None` once the channel is closed; a timeout; or a time to
    /// sleep before `next_resume`. The watcher notes a zero and the end as
    /// they go by.
    pub fn next<T: Zeroable, R: Receiver<T>>(&mut self, chan: &mut R) -> (out: Step<
        Result<Option<T>, WatcherError>,
    >)
        ensures
            out == pulled(recv_start(old(chan).slot(), old(chan).waits()).1),
            final(chan).slot() == recv_start(old(chan).slot(), old(chan).waits()).0,
            final(chan).waits() == old(chan).waits(),
            state_wf(final(chan).slot()),
            final(self).zero_seen() == (old(self).zero_seen() || pulls_zero(out)),
            final(self).ended() == (old(self).ended() || pulls_end(out)),
    {
        let step = chan.recv();
        self.note(step)
    }

    /// Resumes a pull that was told to sleep, `waited_ms` after it began.
    pub fn next_resume<T: Zeroable, R: Receiver<T>>(&mut self, chan: &mut R, waited_ms: u64) -> (out:
        Step<Result<Option<T>, WatcherError>>)
        ensures
            out == pulled(recv_poll(old(chan).slot(), old(chan).waits(), waited_ms).1),
            final(chan).slot() == recv_poll(old(chan).slot(), old(chan).waits(), waited_ms).0,
            final(chan).waits() == old(chan).waits(),
            state_wf(final(chan).slot()),
            final(self).zero_seen() == (old(self).zero_seen() || pulls_zero(out)),
            final(self).ended() == (old(self).ended() || pulls_end(out)),
    {
        let step = chan.recv_resume(waited_ms);
        self.note(step)
    }
}

/// Once the end has been pulled, every pull hands out the end: a pull from
/// a closed channel is `None`, and leaves the channel closed.
pub proof fn lemma_end_repeats<T: PartialEq + Copy>(s: ChannelState<T>, config: ChannelConfig)
    requires
        s.closed,
    ensures
        pulled(recv_start(s, config).1) == Step::<Result<Option<T>, WatcherError>>::Done(Ok(None)),
        recv_start(s, config).0 == s,
{
}

/// The end is pulled from a closed channel only: a pull that hands out
/// `None` found the channel closed.
pub proof fn lemma_end_means_closed<T: PartialEq + Copy>(s: ChannelState<T>, config: ChannelConfig)
    ensures
        pulls_end(pulled(recv_start(s, config).1)) <==> s.closed,
{
}

} // verus!

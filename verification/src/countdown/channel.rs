//! The handshake channel: a single-slot, acknowledgment-gated mailbox
//! between one producer and one consumer.
//!
//! The slot holds the latest value and three flags. A send overwrites an
//! unread value; a receive hands the value out once and acknowledges it; a
//! close goes through only after the last value sent was acknowledged. The
//! two waits, for a value and for an acknowledgment, are bounded by the
//! configured timeout and are taken one step at a time: the caller holds
//! the clock, sleeps as a step asks, and resumes with the time it has waited.

use vstd::prelude::*;
use super::CountdownError;
use super::Response;
use super::Step;
use super::Sender;
use super::Receiver;
use super::Slot;

verus! {

/// How long a wait lasts unless configured otherwise, in milliseconds.
pub const DEFAULT_TIMEOUT_MS: u32 = 1000;

/// How often a waiting consumer looks for a value unless configured
/// otherwise, in milliseconds.
pub const DEFAULT_PERIOD_MS: u16 = 100;

/// How often a closing producer looks for the acknowledgment, in
/// milliseconds.
pub const DEFAULT_ACK_POLL_MS: u8 = 10;

/// A failure of a channel operation.
#[derive(Debug, PartialEq, Eq, Clone, Copy)]
pub enum ChannelError {
    /// A wait ran longer than the configured timeout, given in milliseconds.
    Timeout(u64),
}

/// The waiting parameters of a channel, in milliseconds.
#[derive(Debug, PartialEq, Eq, Clone, Copy)]
pub struct ChannelConfig {
    /// The bound on every wait.
    pub timeout_ms: u32,
    /// The pause between two looks for a new value.
    pub retry_period_ms: u16,
    /// The pause between two looks for the acknowledgment.
    pub ack_poll_ms: u8,
}

/// One setting of a channel under construction.
#[derive(Debug, PartialEq, Eq, Clone, Copy)]
pub enum ChannelOption {
    /// The bound on every wait.
    Timeout(u32),
    /// The pause between two looks for a new value.
    RetryPeriod(u16),
    /// The pause between two looks for the acknowledgment.
    AckPollPeriod(u8),
}

/// What the slot holds.
#[derive(Debug)]
pub struct ChannelState<T> {
    /// The latest value, pending or delivered.
    pub value: T,
    /// The value has not been handed to the consumer yet.
    pub changed: bool,
    /// The consumer has acknowledged the value.
    pub ack: bool,
    /// No value will follow.
    pub closed: bool,
}

/// Where a channel stands in its life.
#[derive(Debug, PartialEq, Eq, Clone, Copy)]
pub enum Phase {
    /// Open, and the value is waiting for the consumer.
    Unacked,
    /// Open, and the consumer has taken the value.
    Acked,
    /// Closed for good.
    Closed,
}

/// The channel: the slot and its waiting parameters.
#[derive(Debug)]
pub struct Channel<T: Copy + PartialEq> {
    state: ChannelState<T>,
    config: ChannelConfig,
}

/// The configuration of a channel made without options.
pub open spec fn default_config() -> ChannelConfig {
    ChannelConfig {
        timeout_ms: DEFAULT_TIMEOUT_MS,
        retry_period_ms: DEFAULT_PERIOD_MS,
        ack_poll_ms: DEFAULT_ACK_POLL_MS,
    }
}

/// A configuration with one option applied.
pub open spec fn apply_option(config: ChannelConfig, option: ChannelOption) -> ChannelConfig {
    match option {
        ChannelOption::Timeout(ms) => ChannelConfig { timeout_ms: ms, ..config },
        ChannelOption::RetryPeriod(ms) => ChannelConfig { retry_period_ms: ms, ..config },
        ChannelOption::AckPollPeriod(ms) => ChannelConfig { ack_poll_ms: ms, ..config },
    }
}

/// A configuration with options applied first to last: a later option
/// overrides an earlier one of its kind.
pub open spec fn apply_options(config: ChannelConfig, options: Seq<ChannelOption>) -> ChannelConfig
    decreases options.len(),
{
    if options.len() == 0 {
        config
    } else {
        apply_option(apply_options(config, options.drop_last()), options.last())
    }
}

/// Exactly one of the three flags is up.
pub open spec fn state_wf<T>(s: ChannelState<T>) -> bool {
    (s.changed && !s.ack && !s.closed) || (!s.changed && s.ack && !s.closed) || (!s.changed
        && !s.ack && s.closed)
}

/// The phase that the flags spell.
pub open spec fn phase_of<T>(s: ChannelState<T>) -> Phase {
    if s.closed {
        Phase::Closed
    } else if s.ack {
        Phase::Acked
    } else {
        Phase::Unacked
    }
}

/// The slot of a fresh channel: the seed, waiting for the consumer.
pub open spec fn initial_state<T>(init: T) -> ChannelState<T> {
    ChannelState { value: init, changed: true, ack: false, closed: false }
}

/// The slot after a send: the new value replaces the old one, read or not,
/// and is unacknowledged. A closed channel takes no value.
pub open spec fn after_send<T>(s: ChannelState<T>, value: T) -> ChannelState<T> {
    if s.closed {
        s
    } else {
        ChannelState { value, changed: true, ack: false, closed: false }
    }
}

/// The slot after the consumer took the value: delivered and acknowledged.
pub open spec fn after_take<T>(s: ChannelState<T>) -> ChannelState<T> {
    ChannelState { value: s.value, changed: false, ack: true, closed: false }
}

/// The slot after a close went through.
pub open spec fn after_close<T>(s: ChannelState<T>) -> ChannelState<T> {
    ChannelState { value: s.value, changed: false, ack: false, closed: true }
}

/// The pause before the next look, a wait of `timeout_ms` having lasted
/// `waited_ms` so far: one period, cut at the end of the wait.
pub open spec fn pause(timeout_ms: u32, period_ms: int, waited_ms: u64) -> u64
    recommends
        waited_ms < timeout_ms,
        0 <= period_ms <= u16::MAX,
{
    if period_ms <= timeout_ms - waited_ms {
        period_ms as u64
    } else {
        (timeout_ms - waited_ms) as u64
    }
}

/// One look of a waiting consumer, `waited_ms` into its wait: the slot
/// afterwards and the step. A pending value is taken, however late; without
/// one the wait is over once it has lasted the timeout.
pub open spec fn recv_poll<T: PartialEq + Copy>(
    s: ChannelState<T>,
    config: ChannelConfig,
    waited_ms: u64,
) -> (ChannelState<T>, Step<Result<Response<T>, CountdownError>>) {
    if s.changed {
        (after_take(s), Step::Done(Ok(Response::Value(s.value))))
    } else if waited_ms >= config.timeout_ms {
        (
            s,
            Step::Done(
                Err(CountdownError::ChannelError(ChannelError::Timeout(config.timeout_ms as u64))),
            ),
        )
    } else {
        (s, Step::Sleep(pause(config.timeout_ms, config.retry_period_ms as int, waited_ms)))
    }
}

/// The start of a receive: a closed channel says so at once; an open one
/// takes its first look.
pub open spec fn recv_start<T: PartialEq + Copy>(s: ChannelState<T>, config: ChannelConfig) -> (
    ChannelState<T>,
    Step<Result<Response<T>, CountdownError>>,
) {
    if s.closed {
        (s, Step::Done(Ok(Response::Closed)))
    } else {
        recv_poll(s, config, 0)
    }
}

/// One look of a closing producer, `waited_ms` into its wait: the slot
/// afterwards and the step. The close goes through on an acknowledged value
/// and on nothing else; without one the wait is over once it has lasted the
/// timeout, and the slot is left as it was.
pub open spec fn close_poll<T>(s: ChannelState<T>, config: ChannelConfig, waited_ms: u64) -> (
    ChannelState<T>,
    Step<Result<(), CountdownError>>,
) {
    if s.ack {
        (after_close(s), Step::Done(Ok(())))
    } else if waited_ms >= config.timeout_ms {
        (
            s,
            Step::Done(
                Err(CountdownError::ChannelError(ChannelError::Timeout(config.timeout_ms as u64))),
            ),
        )
    } else {
        (s, Step::Sleep(pause(config.timeout_ms, config.ack_poll_ms as int, waited_ms)))
    }
}

/// Latest value wins: of two values sent to an open channel before the
/// consumer looks, the consumer is handed the second, and the first is
/// gone: the receive after that finds nothing to take.
pub proof fn lemma_latest_value_wins<T: PartialEq + Copy>(
    s: ChannelState<T>,
    config: ChannelConfig,
    first: T,
    second: T,
    waited_ms: u64,
)
    requires
        state_wf(s),
        !s.closed,
    ensures
        recv_start(after_send(after_send(s, first), second), config) == (
            after_take(after_send(s, second)),
            Step::<Result<Response<T>, CountdownError>>::Done(Ok(Response::Value(second))),
        ),
        after_send(after_send(s, first), second) == after_send(s, second),
        !(recv_poll(after_take(after_send(s, second)), config, waited_ms).1 matches Step::Done(
            Ok(_),
        )),
{
}

/// A close is gated by the acknowledgment: a look of the closing producer
/// goes through if and only if the consumer has acknowledged the value in
/// the slot, and only so does an open channel become a closed one. Without
/// the acknowledgment the slot stays as it is, and the wait ends, in a
/// timeout, exactly when it has lasted the configured bound. A value just
/// sent is never acknowledged: no close goes through between a send and
/// the receive that takes its value.
pub proof fn lemma_close_waits_for_ack<T>(
    s: ChannelState<T>,
    config: ChannelConfig,
    value: T,
    waited_ms: u64,
)
    requires
        state_wf(s),
    ensures
        close_poll(s, config, waited_ms).1 == Step::<Result<(), CountdownError>>::Done(Ok(()))
            <==> s.ack,
        close_poll(s, config, waited_ms).0.closed <==> s.closed || s.ack,
        !s.ack ==> close_poll(s, config, waited_ms).0 == s,
        !s.ack ==> (close_poll(s, config, waited_ms).1 is Done <==> waited_ms
            >= config.timeout_ms),
        !s.ack ==> (close_poll(s, config, waited_ms).1 is Done ==> close_poll(
            s,
            config,
            waited_ms,
        ).1 == Step::<Result<(), CountdownError>>::Done(
            Err(CountdownError::ChannelError(ChannelError::Timeout(config.timeout_ms as u64))),
        )),
        !after_send(s, value).ack,
        close_poll(after_send(s, value), config, waited_ms).0 == after_send(s, value),
        close_poll(after_send(s, value), config, waited_ms).1 != Step::<
            Result<(), CountdownError>,
        >::Done(Ok(())),
{
}

/// Closed is terminal: on a closed channel every receive answers `Closed`,
/// and no operation changes the slot.
pub proof fn lemma_closed_is_terminal<T: PartialEq + Copy>(
    s: ChannelState<T>,
    config: ChannelConfig,
    value: T,
    waited_ms: u64,
)
    requires
        state_wf(s),
        s.closed,
    ensures
        recv_start(s, config) == (
            s,
            Step::<Result<Response<T>, CountdownError>>::Done(Ok(Response::Closed)),
        ),
        recv_poll(s, config, waited_ms).0 == s,
        close_poll(s, config, waited_ms).0 == s,
        after_send(s, value) == s,
{
}

/// Every operation takes a channel from one of its three phases to one of
/// them.
pub proof fn lemma_phases_preserved<T: PartialEq + Copy>(
    s: ChannelState<T>,
    config: ChannelConfig,
    value: T,
    waited_ms: u64,
)
    requires
        state_wf(s),
    ensures
        state_wf(after_send(s, value)),
        state_wf(recv_start(s, config).0),
        state_wf(recv_poll(s, config, waited_ms).0),
        state_wf(close_poll(s, config, waited_ms).0),
        state_wf(initial_state(value)),
{
}

/// A wait never outlasts its bound: the pause that a step asks for ends at
/// or before the timeout, and is no longer than the polling period.
pub proof fn lemma_pause_bounded(timeout_ms: u32, period_ms: u16, waited_ms: u64)
    requires
        waited_ms < timeout_ms,
    ensures
        waited_ms + pause(timeout_ms, period_ms as int, waited_ms) <= timeout_ms,
        pause(timeout_ms, period_ms as int, waited_ms) <= period_ms,
        period_ms > 0 ==> pause(timeout_ms, period_ms as int, waited_ms) > 0,
{
}

/// A setting for the bound on every wait.
pub fn with_timeout(timeout_ms: u32) -> (option: ChannelOption)
    ensures
        option == ChannelOption::Timeout(timeout_ms),
{
    ChannelOption::Timeout(timeout_ms)
}

/// A setting for the pause between two looks for a new value.
pub fn with_retry_period(period_ms: u16) -> (option: ChannelOption)
    ensures
        option == ChannelOption::RetryPeriod(period_ms),
{
    ChannelOption::RetryPeriod(period_ms)
}

/// A setting for the pause between two looks for the acknowledgment.
pub fn with_ack_poll_period(period_ms: u8) -> (option: ChannelOption)
    ensures
        option == ChannelOption::AckPollPeriod(period_ms),
{
    ChannelOption::AckPollPeriod(period_ms)
}

fn pause_of(timeout_ms: u32, period_ms: u16, waited_ms: u64) -> (ms: u64)
    requires
        waited_ms < timeout_ms,
    ensures
        ms == pause(timeout_ms, period_ms as int, waited_ms),
        ms <= period_ms,
        waited_ms + ms <= timeout_ms,
{
    let left: u64 = timeout_ms as u64 - waited_ms;
    if period_ms as u64 <= left {
        period_ms as u64
    } else {
        left
    }
}

impl<T: Copy + PartialEq> View for Channel<T> {
    type V = ChannelState<T>;

    closed spec fn view(&self) -> ChannelState<T> {
        self.state
    }
}

impl<T: Copy + PartialEq> Channel<T> {
    /// The waiting parameters.
    pub closed spec fn config(&self) -> ChannelConfig {
        self.config
    }

    #[verifier::type_invariant]
    spec fn inv(&self) -> bool {
        state_wf(self.state)
    }

    /// The channel is in one of its three phases: it always is.
    pub open spec fn wf(&self) -> bool {
        state_wf(self@)
    }

    /// Where the channel stands.
    pub open spec fn phase(&self) -> Phase {
        phase_of(self@)
    }

    /// A channel seeded with `init`, with the default waiting parameters.
    pub fn new(init: T) -> (chan: Self)
        ensures
            chan@ == initial_state(init),
            chan.config() == default_config(),
            chan.wf(),
    {
        Channel {
            state: ChannelState { value: init, changed: true, ack: false, closed: false },
            config: ChannelConfig {
                timeout_ms: DEFAULT_TIMEOUT_MS,
                retry_period_ms: DEFAULT_PERIOD_MS,
                ack_poll_ms: DEFAULT_ACK_POLL_MS,
            },
        }
    }

    /// A channel seeded with `init`, its waiting parameters the defaults
    /// with `options` applied first to last.
    pub fn new_with_options(init: T, options: &[ChannelOption]) -> (chan: Self)
        ensures
            chan@ == initial_state(init),
            chan.config() == apply_options(default_config(), options@),
            chan.wf(),
    {
        let mut chan = Self::new(init);
        let mut i: usize = 0;
        while i < options.len()
            invariant
                i <= options.len(),
                chan@ == initial_state(init),
                chan.config() == apply_options(default_config(), options@.take(i as int)),
            decreases options.len() - i,
        {
            proof {
                assert(options@.take(i + 1).drop_last() =~= options@.take(i as int));
            }
            match options[i] {
                ChannelOption::Timeout(ms) => {
                    chan.config.timeout_ms = ms;
                },
                ChannelOption::RetryPeriod(ms) => {
                    chan.config.retry_period_ms = ms;
                },
                ChannelOption::AckPollPeriod(ms) => {
                    chan.config.ack_poll_ms = ms;
                },
            }
            i += 1;
        }
        proof {
            assert(options@.take(options@.len() as int) =~= options@);
        }
        chan
    }

    /// The waiting parameters.
    pub fn options(&self) -> (config: ChannelConfig)
        ensures
            config == self.config(),
    {
        self.config
    }

    /// Where the channel stands.
    pub fn current_phase(&self) -> (phase: Phase)
        ensures
            phase == self.phase(),
            self.wf(),
    {
        proof {
            use_type_invariant(self);
        }
        if self.state.closed {
            Phase::Closed
        } else if self.state.ack {
            Phase::Acked
        } else {
            Phase::Unacked
        }
    }

    /// Whether the channel is closed.
    pub fn is_closed(&self) -> (closed: bool)
        ensures
            closed == self@.closed,
            self.wf(),
    {
        proof {
            use_type_invariant(self);
        }
        self.state.closed
    }
}

impl<T: Copy + PartialEq> Slot<T> for Channel<T> {
    open spec fn slot(&self) -> ChannelState<T> {
        self@
    }

    open spec fn waits(&self) -> ChannelConfig {
        self.config()
    }
}

impl<T: Copy + PartialEq> Sender<T> for Channel<T> {
    fn send(&mut self, value: T) -> (r: Result<(), CountdownError>) {
        proof {
            use_type_invariant(&*self);
        }
        if !self.state.closed {
            self.state = ChannelState { value, changed: true, ack: false, closed: false };
        }
        Ok(())
    }

    fn close(&mut self) -> (step: Step<Result<(), CountdownError>>) {
        self.close_resume(0)
    }

    fn close_resume(&mut self, waited_ms: u64) -> (step: Step<Result<(), CountdownError>>) {
        proof {
            use_type_invariant(&*self);
        }
        if self.state.ack {
            self.state = ChannelState {
                value: self.state.value,
                changed: false,
                ack: false,
                closed: true,
            };
            Step::Done(Ok(()))
        } else if waited_ms >= self.config.timeout_ms as u64 {
            Step::Done(
                Err(
                    CountdownError::ChannelError(
                        ChannelError::Timeout(self.config.timeout_ms as u64),
                    ),
                ),
            )
        } else {
            Step::Sleep(pause_of(self.config.timeout_ms, self.config.ack_poll_ms as u16, waited_ms))
        }
    }
}

impl<T: Copy + PartialEq> Receiver<T> for Channel<T> {
    fn recv(&mut self) -> (step: Step<Result<Response<T>, CountdownError>>) {
        proof {
            use_type_invariant(&*self);
        }
        if self.state.closed {
            Step::Done(Ok(Response::Closed))
        } else {
            self.recv_resume(0)
        }
    }

    fn recv_resume(&mut self, waited_ms: u64) -> (step: Step<
        Result<Response<T>, CountdownError>,
    >) {
        proof {
            use_type_invariant(&*self);
        }
        if self.state.changed {
            self.state = ChannelState {
                value: self.state.value,
                changed: false,
                ack: true,
                closed: false,
            };
            Step::Done(Ok(Response::Value(self.state.value)))
        } else if waited_ms >= self.config.timeout_ms as u64 {
            Step::Done(
                Err(
                    CountdownError::ChannelError(
                        ChannelError::Timeout(self.config.timeout_ms as u64),
                    ),
                ),
            )
        } else {
            Step::Sleep(pause_of(self.config.timeout_ms, self.config.retry_period_ms, waited_ms))
        }
    }
}

} // verus!

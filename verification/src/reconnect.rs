//! Reconnection strategies for the WebRTC transport.
//!
//! When a peer connection becomes disconnected or fails, a reconnection strategy
//! decides whether and after how long to re-establish it. The state here holds
//! the attempt counter and the current delay; the caller sleeps for the delay
//! that [`ReconnectState::begin_attempt`] hands out and reports the scaled delay
//! back through [`ReconnectState::finish_attempt`].

use vstd::prelude::*;

verus! {

/// Strategy for reconnecting after a connection failure. Delays are in nanoseconds.
#[derive(Clone, Copy, Debug, PartialEq, Eq, Structural)]
pub enum ReconnectStrategy {
    /// Do not attempt to reconnect.
    Disabled,
    /// Exponential backoff.
    ExponentialBackoff {
        /// Delay before the first retry.
        initial_delay_ns: u64,
        /// Maximum delay between retries.
        max_delay_ns: u64,
        /// IEEE-754 bits (`f64::to_bits`) of the factor applied to the delay after each retry.
        multiplier_bits: u64,
        /// Maximum number of attempts (0 = unlimited).
        max_attempts: u32,
    },
}

/// `f64::to_bits(2.0)`.
pub const MULTIPLIER_TWO_BITS: u64 = 0x4000_0000_0000_0000;

impl ReconnectStrategy {
    /// Exponential backoff with the usual defaults: 1 s initial delay, 30 s maximum
    /// delay, a factor of 2 and 10 attempts.
    pub fn exponential_backoff() -> (r: ReconnectStrategy)
        ensures
            r == (ReconnectStrategy::ExponentialBackoff {
                initial_delay_ns: 1_000_000_000,
                max_delay_ns: 30_000_000_000,
                multiplier_bits: MULTIPLIER_TWO_BITS,
                max_attempts: 10,
            }),
    {
        ReconnectStrategy::ExponentialBackoff {
            initial_delay_ns: 1_000_000_000,
            max_delay_ns: 30_000_000_000,
            multiplier_bits: MULTIPLIER_TWO_BITS,
            max_attempts: 10,
        }
    }
}

impl Default for ReconnectStrategy {
    fn default() -> (r: ReconnectStrategy)
        ensures
            r == ReconnectStrategy::Disabled,
    {
        ReconnectStrategy::Disabled
    }
}

/// The state of reconnection: the strategy, the attempts made and the delay before the next.
pub struct ReconnectView {
    pub strategy: ReconnectStrategy,
    pub attempt: u32,
    pub delay_ns: u64,
}

/// The delay a strategy starts with.
pub open spec fn initial_delay(s: ReconnectStrategy) -> u64 {
    match s {
        ReconnectStrategy::Disabled => 0,
        ReconnectStrategy::ExponentialBackoff { initial_delay_ns, .. } => initial_delay_ns,
    }
}

/// Whether another attempt may be made after `attempt` attempts.
pub open spec fn retry_allowed(s: ReconnectStrategy, attempt: u32) -> bool {
    match s {
        ReconnectStrategy::Disabled => false,
        ReconnectStrategy::ExponentialBackoff { max_attempts, .. } => max_attempts == 0 || attempt < max_attempts,
    }
}

/// Beginning an attempt: counted, and handed the current delay, when a retry is allowed.
pub open spec fn begin_spec(v: ReconnectView) -> (ReconnectView, Option<u64>) {
    if retry_allowed(v.strategy, v.attempt) {
        (ReconnectView { attempt: (v.attempt + 1) as u32, ..v }, Some(v.delay_ns))
    } else {
        (v, None)
    }
}

/// Finishing an attempt: the next delay is the scaled delay, capped at the maximum.
pub open spec fn finish_spec(v: ReconnectView, scaled_ns: u64) -> ReconnectView {
    match v.strategy {
        ReconnectStrategy::Disabled => v,
        ReconnectStrategy::ExponentialBackoff { max_delay_ns, .. } => ReconnectView {
            delay_ns: if scaled_ns < max_delay_ns {
                scaled_ns
            } else {
                max_delay_ns
            },
            ..v
        },
    }
}

/// Resetting: no attempts made, and the initial delay again.
pub open spec fn reset_spec(v: ReconnectView) -> ReconnectView {
    match v.strategy {
        ReconnectStrategy::Disabled => ReconnectView { attempt: 0, ..v },
        ReconnectStrategy::ExponentialBackoff { initial_delay_ns, .. } => ReconnectView {
            attempt: 0,
            delay_ns: initial_delay_ns,
            ..v
        },
    }
}

/// Stateful tracker for reconnection attempts.
pub struct ReconnectState {
    strategy: ReconnectStrategy,
    attempt: u32,
    current_delay_ns: u64,
}

impl View for ReconnectState {
    type V = ReconnectView;

    closed spec fn view(&self) -> ReconnectView {
        ReconnectView { strategy: self.strategy, attempt: self.attempt, delay_ns: self.current_delay_ns }
    }
}

impl ReconnectState {
    /// A fresh reconnection state for a strategy.
    pub fn new(strategy: ReconnectStrategy) -> (r: ReconnectState)
        ensures
            r@ == (ReconnectView { strategy, attempt: 0, delay_ns: initial_delay(strategy) }),
    {
        let initial: u64 = match strategy {
            ReconnectStrategy::Disabled => 0,
            ReconnectStrategy::ExponentialBackoff { initial_delay_ns, .. } => initial_delay_ns,
        };
        ReconnectState { strategy, attempt: 0, current_delay_ns: initial }
    }

    /// Whether another reconnection attempt should be made.
    pub fn should_retry(&self) -> (r: bool)
        ensures
            r == retry_allowed(self@.strategy, self@.attempt),
    {
        match self.strategy {
            ReconnectStrategy::Disabled => false,
            ReconnectStrategy::ExponentialBackoff { max_attempts, .. } => max_attempts == 0 || self.attempt
                < max_attempts,
        }
    }

    /// Counts a new attempt and returns the delay to wait before it, or `None`
    /// when no more attempts should be made.
    pub fn begin_attempt(&mut self) -> (r: Option<u64>)
        requires
            retry_allowed(old(self)@.strategy, old(self)@.attempt) ==> old(self)@.attempt < u32::MAX,
        ensures
            (final(self)@, r) == begin_spec(old(self)@),
    {
        if !self.should_retry() {
            return None;
        }
        let delay: u64 = self.current_delay_ns;
        self.attempt = self.attempt + 1;
        Some(delay)
    }

    /// Sets the delay for the next attempt to `scaled_ns` (the previous delay times the
    /// multiplier), capped at the strategy's maximum.
    pub fn finish_attempt(&mut self, scaled_ns: u64)
        ensures
            final(self)@ == finish_spec(old(self)@, scaled_ns),
    {
        if let ReconnectStrategy::ExponentialBackoff { max_delay_ns, .. } = self.strategy {
            self.current_delay_ns = if scaled_ns < max_delay_ns {
                scaled_ns
            } else {
                max_delay_ns
            };
        }
    }

    /// Resets the state (after a successful connection).
    pub fn reset(&mut self)
        ensures
            final(self)@ == reset_spec(old(self)@),
    {
        self.attempt = 0;
        if let ReconnectStrategy::ExponentialBackoff { initial_delay_ns, .. } = self.strategy {
            self.current_delay_ns = initial_delay_ns;
        }
    }

    /// The number of attempts made since the last reset.
    pub fn attempt(&self) -> (r: u32)
        ensures
            r == self@.attempt,
    {
        self.attempt
    }

    /// The delay before the next attempt, in nanoseconds.
    pub fn current_delay_ns(&self) -> (r: u64)
        ensures
            r == self@.delay_ns,
    {
        self.current_delay_ns
    }

    /// The strategy.
    pub fn strategy(&self) -> (r: ReconnectStrategy)
        ensures
            r == self@.strategy,
    {
        self.strategy
    }
}

/// The strategy `Disabled` never retries.
pub proof fn law_none_never_retries(v: ReconnectView)
    requires
        v.strategy == ReconnectStrategy::Disabled,
    ensures
        begin_spec(v) == (v, None::<u64>),
        !retry_allowed(v.strategy, v.attempt),
{
}

/// With a limit of `m` attempts, an attempt is granted exactly while fewer than `m` were made,
/// and each granted attempt is counted.
pub proof fn law_attempts_bounded(v: ReconnectView)
    requires
        v.strategy matches ReconnectStrategy::ExponentialBackoff { max_attempts, .. } && max_attempts > 0,
    ensures
        (begin_spec(v).1 is Some) == (v.attempt < v.strategy->max_attempts),
        begin_spec(v).1 is Some ==> begin_spec(v).0.attempt == v.attempt + 1,
        begin_spec(v).1 is None ==> begin_spec(v).0 == v,
{
}

/// With no limit, an attempt is always granted.
pub proof fn law_unlimited_attempts(v: ReconnectView)
    requires
        v.strategy matches ReconnectStrategy::ExponentialBackoff { max_attempts, .. } && max_attempts == 0,
    ensures
        begin_spec(v).1 == Some(v.delay_ns),
{
}

/// After a reset no attempts are counted, the delay is the initial one, and a retry is
/// allowed unless the strategy is `Disabled`.
pub proof fn law_reset_restores(v: ReconnectView)
    ensures
        reset_spec(v).attempt == 0,
        reset_spec(v).strategy == v.strategy,
        v.strategy is ExponentialBackoff ==> reset_spec(v).delay_ns == initial_delay(v.strategy),
        retry_allowed(reset_spec(v).strategy, 0) == (v.strategy is ExponentialBackoff),
{
}

/// The delay never exceeds the maximum once it does not: beginning, finishing and
/// resetting all keep it within bounds when the initial delay is within them.
pub proof fn law_delay_within_max(v: ReconnectView, scaled_ns: u64)
    requires
        v.strategy matches ReconnectStrategy::ExponentialBackoff { initial_delay_ns, max_delay_ns, .. }
            && initial_delay_ns <= max_delay_ns,
        v.delay_ns <= v.strategy->max_delay_ns,
    ensures
        begin_spec(v).0.delay_ns <= v.strategy->max_delay_ns,
        begin_spec(v).1 matches Some(d) ==> d <= v.strategy->max_delay_ns,
        finish_spec(v, scaled_ns).delay_ns <= v.strategy->max_delay_ns,
        reset_spec(v).delay_ns <= v.strategy->max_delay_ns,
{
}

/// Beginning an attempt hands out exactly the current delay whenever a retry is
/// allowed, and nothing otherwise; it counts the attempt and leaves the delay and
/// the strategy as they were.
pub proof fn law_begin_hands_current_delay(v: ReconnectView)
    requires
        retry_allowed(v.strategy, v.attempt) ==> v.attempt < u32::MAX,
    ensures
        retry_allowed(v.strategy, v.attempt) ==> begin_spec(v).1 == Some(v.delay_ns),
        !retry_allowed(v.strategy, v.attempt) ==> begin_spec(v).1 is None,
        begin_spec(v).0.delay_ns == v.delay_ns,
        begin_spec(v).0.strategy == v.strategy,
        retry_allowed(v.strategy, v.attempt) ==> begin_spec(v).0.attempt == v.attempt + 1,
{
}

/// The delay grows between attempts: after an attempt is finished with a scaled delay
/// within the maximum, the next attempt, if allowed, waits exactly that scaled delay;
/// a scaled delay above the maximum is held at the maximum.
pub proof fn law_next_attempt_waits_scaled_delay(v: ReconnectView, scaled_ns: u64)
    requires
        v.strategy is ExponentialBackoff,
        retry_allowed(v.strategy, v.attempt),
        v.attempt + 1 < u32::MAX,
        retry_allowed(v.strategy, (v.attempt + 1) as u32),
    ensures
        ({
            let next = begin_spec(finish_spec(begin_spec(v).0, scaled_ns)).1;
            &&& begin_spec(v).1 == Some(v.delay_ns)
            &&& scaled_ns <= v.strategy->max_delay_ns ==> next == Some(scaled_ns)
            &&& scaled_ns > v.strategy->max_delay_ns ==> next == Some(v.strategy->max_delay_ns)
        }),
{
}

/// From a fresh state of the usual exponential backoff, with each finished attempt
/// reporting twice the delay it waited, the first attempts wait 1 s, 2 s, 4 s, 8 s,
/// 16 s and then the 30 s maximum.
pub proof fn law_default_backoff_doubles(v: ReconnectView)
    requires
        v.strategy == (ReconnectStrategy::ExponentialBackoff {
            initial_delay_ns: 1_000_000_000,
            max_delay_ns: 30_000_000_000,
            multiplier_bits: MULTIPLIER_TWO_BITS,
            max_attempts: 10,
        }),
        v.attempt == 0,
        v.delay_ns == initial_delay(v.strategy),
    ensures
        ({
            let b1 = begin_spec(v);
            let b2 = begin_spec(finish_spec(b1.0, (2 * b1.1->0) as u64));
            let b3 = begin_spec(finish_spec(b2.0, (2 * b2.1->0) as u64));
            let b4 = begin_spec(finish_spec(b3.0, (2 * b3.1->0) as u64));
            let b5 = begin_spec(finish_spec(b4.0, (2 * b4.1->0) as u64));
            let b6 = begin_spec(finish_spec(b5.0, (2 * b5.1->0) as u64));
            &&& b1.1 == Some(1_000_000_000u64)
            &&& b2.1 == Some(2_000_000_000u64)
            &&& b3.1 == Some(4_000_000_000u64)
            &&& b4.1 == Some(8_000_000_000u64)
            &&& b5.1 == Some(16_000_000_000u64)
            &&& b6.1 == Some(30_000_000_000u64)
        }),
{
}

} // verus!

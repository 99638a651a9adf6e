use aiko::reconnect::{ReconnectState, ReconnectStrategy, MULTIPLIER_TWO_BITS};

fn backoff(initial_ms: u64, max_ms: u64, max_attempts: u32) -> ReconnectStrategy {
    ReconnectStrategy::ExponentialBackoff {
        initial_delay_ns: initial_ms * 1_000_000,
        max_delay_ns: max_ms * 1_000_000,
        multiplier_bits: 2.0f64.to_bits(),
        max_attempts,
    }
}

fn advance(state: &mut ReconnectState) -> bool {
    match state.begin_attempt() {
        Some(delay) => {
            let factor = match state.strategy() {
                ReconnectStrategy::ExponentialBackoff { multiplier_bits, .. } => f64::from_bits(multiplier_bits),
                ReconnectStrategy::Disabled => 1.0,
            };
            state.finish_attempt((delay as f64 * factor) as u64);
            true
        }
        None => false,
    }
}

#[test]
fn test_none_strategy_never_retries() {
    let state = ReconnectState::new(ReconnectStrategy::Disabled);
    assert!(!state.should_retry());
}

#[test]
fn test_exponential_backoff_retries() {
    let state = ReconnectState::new(backoff(100, 5000, 3));
    assert!(state.should_retry());
    assert_eq!(state.attempt(), 0);
}

#[test]
fn test_exponential_backoff_advances() {
    let mut state = ReconnectState::new(backoff(1, 100, 3));

    assert!(advance(&mut state));
    assert_eq!(state.attempt(), 1);

    assert!(advance(&mut state));
    assert_eq!(state.attempt(), 2);

    assert!(advance(&mut state));
    assert_eq!(state.attempt(), 3);

    assert!(!advance(&mut state));
    assert_eq!(state.attempt(), 3);
}

#[test]
fn test_reset_clears_attempts() {
    let mut state = ReconnectState::new(backoff(1, 100, 2));

    assert!(advance(&mut state));
    assert!(advance(&mut state));
    assert!(!state.should_retry());

    state.reset();
    assert_eq!(state.attempt(), 0);
    assert!(state.should_retry());
}

#[test]
fn test_unlimited_attempts() {
    let state = ReconnectState::new(backoff(100, 30_000, 0));
    assert!(state.should_retry());
}

#[test]
fn delays_double_up_to_the_cap() {
    let mut state = ReconnectState::new(backoff(100, 500, 0));
    let mut seen = Vec::new();
    for _ in 0..5 {
        seen.push(state.current_delay_ns() / 1_000_000);
        assert!(advance(&mut state));
    }
    assert_eq!(seen, vec![100, 200, 400, 500, 500]);
    state.reset();
    assert_eq!(state.current_delay_ns(), 100_000_000);
}

#[test]
fn default_strategies() {
    assert_eq!(ReconnectStrategy::default(), ReconnectStrategy::Disabled);
    assert_eq!(
        ReconnectStrategy::exponential_backoff(),
        ReconnectStrategy::ExponentialBackoff {
            initial_delay_ns: 1_000_000_000,
            max_delay_ns: 30_000_000_000,
            multiplier_bits: MULTIPLIER_TWO_BITS,
            max_attempts: 10,
        }
    );
    assert_eq!(MULTIPLIER_TWO_BITS, 2.0f64.to_bits());
    let mut disabled = ReconnectState::new(ReconnectStrategy::Disabled);
    assert_eq!(disabled.begin_attempt(), None);
    assert_eq!(disabled.current_delay_ns(), 0);
}

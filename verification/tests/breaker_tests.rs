use axiom_shell::breaker::{CircuitBreaker, CircuitState, FaultTolerance};

#[test]
fn five_consecutive_failures_open_the_breaker() {
    let mut b = CircuitBreaker::new();
    assert!(matches!(b.state, CircuitState::Closed));
    for i in 0..4u64 {
        b.report_failure_at(1_000 + i);
        assert!(matches!(b.state, CircuitState::Closed));
    }
    b.report_failure_at(1_004);
    assert!(matches!(b.state, CircuitState::Open));
    assert_eq!(b.failure_count, 5);
}

#[test]
fn open_breaker_blocks_until_cooldown_then_probes() {
    let mut b = CircuitBreaker::new();
    for _ in 0..5 {
        b.report_failure_at(10_000);
    }
    assert!(matches!(b.state, CircuitState::Open));
    // Thirty whole seconds have not elapsed: blocked.
    assert!(!b.should_allow_at(10_000 + 30_000));
    assert!(matches!(b.state, CircuitState::Open));
    // More than thirty whole seconds: one probe is admitted.
    assert!(b.should_allow_at(10_000 + 31_000));
    assert!(matches!(b.state, CircuitState::HalfOpen));
    // A success returns it to Closed with a cleared count.
    b.report_success();
    assert!(matches!(b.state, CircuitState::Closed));
    assert_eq!(b.failure_count, 0);
}

#[test]
fn half_open_breaker_admits_calls() {
    let mut b = CircuitBreaker::new();
    for _ in 0..5 {
        b.report_failure_at(0);
    }
    assert!(b.should_allow_at(40_000));
    assert!(matches!(b.state, CircuitState::HalfOpen));
    assert!(b.should_allow_at(40_001));
}

#[test]
fn guard_reports_closed_for_unknown_alias() {
    let mut guard = FaultTolerance::new();
    assert!(matches!(guard.get_status("x"), CircuitState::Closed));
    assert!(guard.allow("x", 0));
    guard.report_failure("x", 0);
    assert!(matches!(guard.get_status("x"), CircuitState::Closed));
    for _ in 0..4 {
        guard.report_failure("x", 1);
    }
    assert!(matches!(guard.get_status("x"), CircuitState::Open));
    guard.report_success("x");
    assert!(matches!(guard.get_status("x"), CircuitState::Closed));
}

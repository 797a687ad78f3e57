//! When to try again and when to stop.

use brook::service::retry::{
    spread_delay, CrashLoopGuard, CrashLoopState, RetryDecision, RetryPolicy, MILLION,
};

const SECOND: f64 = 1_000_000_000.0;
const EPS: f64 = 0.01;

fn policy() -> RetryPolicy {
    RetryPolicy::default()
}

fn secs(nanos: u128) -> f64 {
    nanos as f64 / SECOND
}

#[test]
fn delay_first_attempt_in_jitter_band() {
    let p = policy();
    for _ in 0..64 {
        let d = secs(p.delay_for(0));
        assert!((0.8 - EPS..=1.2 + EPS).contains(&d), "unexpected: {d}s");
    }
}

#[test]
fn delay_third_attempt_is_eight_seconds_plus_jitter() {
    let p = policy();
    for _ in 0..64 {
        let d = secs(p.delay_for(3));
        assert!((6.4 - EPS..=9.6 + EPS).contains(&d), "unexpected: {d}s");
    }
}

#[test]
fn delay_clamped_to_max() {
    let p = policy();
    for _ in 0..64 {
        let d = secs(p.delay_for(30));
        assert!((48.0 - EPS..=72.0 + EPS).contains(&d), "unexpected: {d}s");
    }
}

#[test]
fn delay_without_jitter_is_exact() {
    let p = RetryPolicy {
        jitter_ppm: 0,
        ..policy()
    };
    assert_eq!(p.delay_for(0), 1_000_000_000);
    assert_eq!(p.delay_for(2), 4_000_000_000);
    assert_eq!(p.delay_for(100), 60_000_000_000);
}

#[test]
fn delays_are_spread() {
    let p = policy();
    let first = p.delay_for(4);
    assert!((0..64).any(|_| p.delay_for(4) != first));
}

#[test]
fn a_factor_scales_a_delay() {
    assert_eq!(spread_delay(1_000_000_000, MILLION), 1_000_000_000);
    assert_eq!(spread_delay(1_000_000_000, 800_000), 800_000_000);
    assert_eq!(spread_delay(3, 500_000), 1);
}

#[test]
fn huge_attempt_numbers_are_capped() {
    let p = RetryPolicy { jitter_ppm: 0, ..policy() };
    assert_eq!(p.delay_for(u32::MAX), 60_000_000_000);
    let zero = RetryPolicy { base_nanos: 0, jitter_ppm: 0, ..policy() };
    assert_eq!(zero.delay_for(u32::MAX), 0);
}

#[test]
fn classify_non_transient_gives_up() {
    assert_eq!(policy().classify(0, false), RetryDecision::GiveUp);
    assert_eq!(policy().classify(3, false), RetryDecision::GiveUp);
}

#[test]
fn classify_last_attempt_gives_up() {
    let p = policy();
    assert_eq!(p.classify(p.max_attempts - 1, true), RetryDecision::GiveUp);
}

#[test]
fn classify_penultimate_retries() {
    let p = policy();
    match p.classify(p.max_attempts - 2, true) {
        RetryDecision::Retry(_) => {}
        RetryDecision::GiveUp => panic!("expected Retry on penultimate attempt"),
    }
}

#[test]
fn crash_loop_triggers_on_fifth_identical_error() {
    let mut g = CrashLoopGuard::new(5);
    for _ in 0..4 {
        assert_eq!(g.observe("network"), CrashLoopState::Clear);
    }
    assert_eq!(g.observe("network"), CrashLoopState::Triggered);
}

#[test]
fn crash_loop_resets_on_different_key() {
    let mut g = CrashLoopGuard::new(5);
    for _ in 0..4 {
        assert_eq!(g.observe("network"), CrashLoopState::Clear);
    }
    assert_eq!(g.observe("timeout"), CrashLoopState::Clear);
    for _ in 0..3 {
        assert_eq!(g.observe("timeout"), CrashLoopState::Clear);
    }
    assert_eq!(g.observe("timeout"), CrashLoopState::Triggered);
}

#[test]
fn crash_loop_reset_clears_state() {
    let mut g = CrashLoopGuard::new(3);
    g.observe("x");
    g.observe("x");
    g.reset();
    assert_eq!(g.observe("x"), CrashLoopState::Clear);
    assert_eq!(g.observe("x"), CrashLoopState::Clear);
    assert_eq!(g.observe("x"), CrashLoopState::Triggered);
}

#[test]
fn crash_loop_default_limit_is_five() {
    let mut g = CrashLoopGuard::default();
    let states: Vec<CrashLoopState> = (0..6).map(|_| g.observe("k")).collect();
    assert_eq!(states[3], CrashLoopState::Clear);
    assert_eq!(states[4], CrashLoopState::Triggered);
    assert_eq!(states[5], CrashLoopState::Triggered);
}

use deepseek_bot::retry::RetryState;

/// Drives a retry sequence whose attempt `i` (counted from zero) comes
/// out as `outcomes(i)`; returns how many attempts ran and whether the
/// last one succeeded.
fn drive(bound: u64, outcomes: impl Fn(u64) -> bool) -> (u64, bool) {
    let mut state = RetryState::new(bound);
    let mut invocations: u64 = 0;
    let mut success;
    loop {
        success = outcomes(invocations);
        invocations += 1;
        let again = state.record(success);
        if !again {
            break;
        }
    }
    (invocations, success)
}

#[test]
fn retry_returns_first_success_after_k_failures() {
    // Fails exactly three times, then succeeds: four invocations in all.
    let (invocations, success) = drive(10, |i| i >= 3);
    assert_eq!(invocations, 4);
    assert!(success);
}

#[test]
fn retry_immediate_success_runs_once() {
    let (invocations, success) = drive(10, |_| true);
    assert_eq!(invocations, 1);
    assert!(success);
}

#[test]
fn retry_succeeds_on_last_allowed_attempt() {
    let (invocations, success) = drive(10, |i| i == 9);
    assert_eq!(invocations, 10);
    assert!(success);
}

#[test]
fn retry_exhausts_bound_on_constant_failure() {
    let (invocations, success) = drive(10, |_| false);
    assert_eq!(invocations, 10);
    assert!(!success);
}

#[test]
fn retry_bound_of_one_never_retries() {
    let (invocations, success) = drive(1, |_| false);
    assert_eq!(invocations, 1);
    assert!(!success);
}

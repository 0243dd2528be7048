use qsingleton::policy::{
    slept_ms, ExposureMode, WaitPolicy, DEFAULT_INTERVAL_MS, DEFAULT_MAX_ATTEMPTS,
};
use qsingleton::text::decimal_string;
use qsingleton::wait::{next_action, simulate, Action, WaitOutcome};

#[test]
fn default_policy_is_500ms_and_20_attempts() {
    let policy = WaitPolicy::default();
    assert_eq!(policy.interval_ms, 500);
    assert_eq!(policy.max_attempts, 20);
    assert_eq!(DEFAULT_INTERVAL_MS, 500);
    assert_eq!(DEFAULT_MAX_ATTEMPTS, 20);
    assert!(policy.is_valid());
    assert_eq!(policy.worst_case_wait_ms(), 9500);
}

#[test]
fn policy_refuses_zero_interval_and_zero_attempts() {
    assert_eq!(WaitPolicy::new(0, 20), None);
    assert_eq!(WaitPolicy::new(100, 0), None);
    assert_eq!(WaitPolicy::with_interval(0), None);
    assert_eq!(
        WaitPolicy::new(100, 20),
        Some(WaitPolicy { interval_ms: 100, max_attempts: 20 })
    );
    assert_eq!(
        WaitPolicy::with_interval(1000),
        Some(WaitPolicy { interval_ms: 1000, max_attempts: 20 })
    );
    assert!(!WaitPolicy { interval_ms: 0, max_attempts: 1 }.is_valid());
    assert!(!WaitPolicy { interval_ms: 1, max_attempts: 0 }.is_valid());
}

#[test]
fn worst_case_wait_has_no_sleep_after_the_last_attempt() {
    assert_eq!(WaitPolicy { interval_ms: 100, max_attempts: 20 }.worst_case_wait_ms(), 1900);
    assert_eq!(WaitPolicy { interval_ms: 100, max_attempts: 1 }.worst_case_wait_ms(), 0);
    assert_eq!(WaitPolicy { interval_ms: 100, max_attempts: 0 }.worst_case_wait_ms(), 0);
    assert_eq!(
        WaitPolicy { interval_ms: u64::MAX, max_attempts: 3 }.worst_case_wait_ms(),
        2 * (u64::MAX as u128)
    );
    assert_eq!(slept_ms(100, 19), 1900);
    assert_eq!(slept_ms(0, 19), 0);
}

#[test]
fn exposure_modes_differ() {
    assert_ne!(ExposureMode::Direct, ExposureMode::Shared);
}

#[test]
fn next_action_by_case() {
    let policy = WaitPolicy { interval_ms: 100, max_attempts: 20 };
    assert_eq!(next_action(&policy, 0, true), Action::Deliver);
    assert_eq!(next_action(&policy, 19, true), Action::Deliver);
    assert_eq!(next_action(&policy, 0, false), Action::Sleep { interval_ms: 100 });
    assert_eq!(next_action(&policy, 18, false), Action::Sleep { interval_ms: 100 });
    assert_eq!(next_action(&policy, 19, false), Action::GiveUp);
    assert_eq!(next_action(&policy, 20, true), Action::GiveUp);
    let none = WaitPolicy { interval_ms: 100, max_attempts: 0 };
    assert_eq!(next_action(&none, 0, true), Action::GiveUp);
    let one = WaitPolicy { interval_ms: 100, max_attempts: 1 };
    assert_eq!(next_action(&one, 0, false), Action::GiveUp);
}

#[test]
fn unpublished_cell_times_out_after_all_attempts() {
    let policy = WaitPolicy { interval_ms: 100, max_attempts: 20 };
    let outcome = simulate(&policy, None);
    assert_eq!(outcome, WaitOutcome { delivered: false, sleeps: 19 });
    assert_eq!(slept_ms(policy.interval_ms, outcome.sleeps), 1900);
    assert_eq!(slept_ms(policy.interval_ms, outcome.sleeps), policy.worst_case_wait_ms());
    let single = WaitPolicy { interval_ms: 7, max_attempts: 1 };
    assert_eq!(simulate(&single, None), WaitOutcome { delivered: false, sleeps: 0 });
}

#[test]
fn published_before_read_returns_without_sleep() {
    let policy = WaitPolicy::default();
    assert_eq!(simulate(&policy, Some(0)), WaitOutcome { delivered: true, sleeps: 0 });
    let single = WaitPolicy { interval_ms: 7, max_attempts: 1 };
    assert_eq!(simulate(&single, Some(0)), WaitOutcome { delivered: true, sleeps: 0 });
}

#[test]
fn wait_ends_at_the_first_attempt_after_the_publish() {
    let policy = WaitPolicy { interval_ms: 100, max_attempts: 20 };
    assert_eq!(simulate(&policy, Some(150)), WaitOutcome { delivered: true, sleeps: 2 });
    assert_eq!(simulate(&policy, Some(1)), WaitOutcome { delivered: true, sleeps: 1 });
    assert_eq!(simulate(&policy, Some(100)), WaitOutcome { delivered: true, sleeps: 1 });
    assert_eq!(simulate(&policy, Some(101)), WaitOutcome { delivered: true, sleeps: 2 });
    assert_eq!(simulate(&policy, Some(1900)), WaitOutcome { delivered: true, sleeps: 19 });
    let mut delay: u64 = 0;
    while delay <= 1900 {
        let outcome = simulate(&policy, Some(delay));
        let slept = slept_ms(policy.interval_ms, outcome.sleeps);
        assert!(outcome.delivered);
        assert!(slept >= delay as u128);
        assert!(slept < delay as u128 + 100);
        assert_eq!(outcome.sleeps as u64, (delay + 99) / 100);
        delay += 37;
    }
}

#[test]
fn publish_after_the_last_attempt_is_not_seen() {
    let policy = WaitPolicy { interval_ms: 100, max_attempts: 20 };
    assert_eq!(simulate(&policy, Some(1901)), WaitOutcome { delivered: false, sleeps: 19 });
    assert_eq!(simulate(&policy, Some(u64::MAX)), simulate(&policy, None));
}

#[test]
fn simulate_with_degenerate_policies() {
    let no_attempts = WaitPolicy { interval_ms: 100, max_attempts: 0 };
    assert_eq!(simulate(&no_attempts, Some(0)), WaitOutcome { delivered: false, sleeps: 0 });
    let no_interval = WaitPolicy { interval_ms: 0, max_attempts: 5 };
    assert_eq!(simulate(&no_interval, Some(0)), WaitOutcome { delivered: true, sleeps: 0 });
    assert_eq!(simulate(&no_interval, Some(1)), WaitOutcome { delivered: false, sleeps: 4 });
}

#[test]
fn decimal_string_by_case() {
    assert_eq!(decimal_string(0), "0");
    assert_eq!(decimal_string(7), "7");
    assert_eq!(decimal_string(10), "10");
    assert_eq!(decimal_string(1900), "1900");
    assert_eq!(decimal_string(1234567890), "1234567890");
    assert_eq!(decimal_string(u64::MAX), "18446744073709551615");
}

use messengerx::dispatcher::{
    decide, DedupGuard, DispatchOutcome, LastDispatch, DEDUP_WINDOW, NANOS_PER_SEC,
};

fn last(sender: &str, count: u32, fired_at: u128) -> LastDispatch {
    LastDispatch { sender: sender.to_string(), count, fired_at }
}

const NOW: u128 = 1_000 * NANOS_PER_SEC;

#[test]
fn no_prior_dispatch_always_fires() {
    assert_eq!(decide(None, "Alice", 1, NOW, DEDUP_WINDOW), DispatchOutcome::Fired);
}

#[test]
fn same_key_inside_window_is_suppressed() {
    let prev = last("Alice", 1, NOW - 2 * NANOS_PER_SEC);
    match decide(Some(&prev), "Alice", 1, NOW, DEDUP_WINDOW) {
        DispatchOutcome::Suppressed { age_ms } => {
            assert!((1_900..=2_100).contains(&age_ms), "age_ms={age_ms}");
        }
        other => panic!("expected Suppressed, got {other:?}"),
    }
}

#[test]
fn same_key_outside_window_fires() {
    let prev = last("Alice", 1, NOW - DEDUP_WINDOW - NANOS_PER_SEC);
    assert_eq!(decide(Some(&prev), "Alice", 1, NOW, DEDUP_WINDOW), DispatchOutcome::Fired);
}

#[test]
fn different_sender_fires_immediately() {
    let prev = last("Alice", 1, NOW);
    assert_eq!(decide(Some(&prev), "Bob", 1, NOW, DEDUP_WINDOW), DispatchOutcome::Fired);
}

#[test]
fn different_count_fires_immediately() {
    let prev = last("Alice", 1, NOW);
    assert_eq!(decide(Some(&prev), "Alice", 2, NOW, DEDUP_WINDOW), DispatchOutcome::Fired);
}

#[test]
fn empty_sender_dedups_against_empty_sender() {
    let prev = last("", 1, NOW - NANOS_PER_SEC);
    match decide(Some(&prev), "", 1, NOW, DEDUP_WINDOW) {
        DispatchOutcome::Suppressed { .. } => {}
        other => panic!("expected Suppressed for empty-sender match, got {other:?}"),
    }
}

#[test]
fn empty_sender_does_not_dedup_against_named_sender() {
    let prev = last("Alice", 1, NOW);
    assert_eq!(decide(Some(&prev), "", 1, NOW, DEDUP_WINDOW), DispatchOutcome::Fired);
}

#[test]
fn dedup_window_is_within_phase_m_design_bounds() {
    assert!(
        DEDUP_WINDOW >= 3 * NANOS_PER_SEC,
        "dedup window must absorb back-to-back same-event fires"
    );
    assert!(
        DEDUP_WINDOW <= 10 * NANOS_PER_SEC,
        "dedup window must not silently swallow real second messages"
    );
}

#[test]
fn reset_helper_clears_baseline() {
    let mut guard = DedupGuard::new();
    guard.record_success("Alice", 1, NOW);
    assert!(guard.last().is_some());
    guard.reset_for_tests();
    assert!(guard.last().is_none());
}

#[test]
fn exact_age_in_whole_milliseconds() {
    let prev = last("Alice", 1, NOW - 2_345_678_901);
    assert_eq!(
        decide(Some(&prev), "Alice", 1, NOW, DEDUP_WINDOW),
        DispatchOutcome::Suppressed { age_ms: 2_345 }
    );
}

#[test]
fn window_boundary_is_inclusive() {
    let prev = last("Alice", 1, NOW - DEDUP_WINDOW);
    assert_eq!(
        decide(Some(&prev), "Alice", 1, NOW, DEDUP_WINDOW),
        DispatchOutcome::Suppressed { age_ms: 5_000 }
    );
    let prev = last("Alice", 1, NOW - DEDUP_WINDOW - 1);
    assert_eq!(decide(Some(&prev), "Alice", 1, NOW, DEDUP_WINDOW), DispatchOutcome::Fired);
}

#[test]
fn guard_suppresses_recorded_key_then_fires_later() {
    let mut guard = DedupGuard::new();
    assert_eq!(guard.check("Alice", 2, NOW), DispatchOutcome::Fired);
    guard.record_success("Alice", 2, NOW);
    assert!(matches!(
        guard.check("Alice", 2, NOW + NANOS_PER_SEC),
        DispatchOutcome::Suppressed { age_ms: 1_000 }
    ));
    assert_eq!(guard.check("Alice", 2, NOW + 6 * NANOS_PER_SEC), DispatchOutcome::Fired);
    assert_eq!(guard.check("Bob", 2, NOW + NANOS_PER_SEC), DispatchOutcome::Fired);
}

#[test]
fn failed_delivery_is_not_a_baseline() {
    let mut guard = DedupGuard::new();
    guard.complete("Alice", 1, NOW, false);
    assert!(guard.last().is_none());
    assert_eq!(guard.check("Alice", 1, NOW + 1), DispatchOutcome::Fired);
    guard.complete("Alice", 1, NOW, true);
    assert_eq!(guard.last().map(|l| l.count), Some(1));
}

use messengerx::dispatcher::DispatchOutcome;
use messengerx::notif_state::NotifState;
use messengerx::unread::{tray_tooltip, UnreadTracker, NO_COUNT_YET};

#[test]
fn tooltip_text() {
    assert_eq!(tray_tooltip(0), "Messenger X");
    assert_eq!(tray_tooltip(5), "Messenger X (5)");
}

#[test]
fn rise_notifies_with_sender_or_fallback() {
    let mut t = UnreadTracker::new();
    assert_eq!(t.last_count(), NO_COUNT_YET);
    let p = t.update(0, "", "", false, false, true, true, 100, 100 * 1_000_000_000, "New message");
    assert!(p.notification.is_none());
    let p = t.update(1, "  ", "1:0:A", false, false, true, false, 101, 101 * 1_000_000_000, "New message");
    let n = p.notification.expect("rise must notify");
    assert_eq!(n.title, "New message");
    assert!(n.silent);
    assert!(p.request_attention);
    let tray = p.tray.expect("count changed");
    assert_eq!(tray.tooltip, "Messenger X (1)");
    assert_eq!(tray.badge_label.as_deref(), Some("1"));
    let p = t.update(2, "Alice", "2:0:A", false, false, true, true, 102, 102 * 1_000_000_000, "New message");
    let n = p.notification.expect("rise must notify");
    assert_eq!(n.title, "Alice");
    assert!(!n.silent);
}

#[test]
fn same_count_leaves_tray_alone() {
    let mut t = UnreadTracker::new();
    let _ = t.update(0, "", "", false, false, true, true, 100, 100 * 1_000_000_000, "x");
    let _ = t.update(1, "A", "1:0:A", false, false, true, true, 101, 101 * 1_000_000_000, "x");
    let p = t.update(1, "A", "1:0:A", false, false, true, true, 102, 102 * 1_000_000_000, "x");
    assert!(p.tray.is_none());
    assert!(p.notification.is_none());
}

#[test]
fn focus_resets_only_when_read() {
    let mut t = UnreadTracker::new();
    let _ = t.update(0, "", "", false, false, true, true, 100, 100 * 1_000_000_000, "x");
    let _ = t.update(2, "A", "2:0:A", false, false, true, true, 101, 101 * 1_000_000_000, "x");
    assert!(!t.on_focus_gained());
    assert!(!t.state().is_idle());
    let _ = t.update(0, "", "", false, false, true, true, 102, 102 * 1_000_000_000, "x");
    assert!(matches!(t.state(), NotifState::ZeroPending { .. }));
    assert!(t.on_focus_gained());
    assert!(t.state().is_idle());
    assert!(!t.on_focus_gained());
}

#[test]
fn empty_signature_warning_is_throttled() {
    let mut t = UnreadTracker::new();
    let _ = t.update(0, "", "", false, false, true, true, 1_000, 1_000 * 1_000_000_000, "x");
    let p = t.update(1, "", "", false, false, true, true, 1_001, 1_001 * 1_000_000_000, "x");
    assert!(p.warn_empty_sig);
    let p = t.update(1, "", "", false, false, true, true, 1_010, 1_010 * 1_000_000_000, "x");
    assert!(!p.warn_empty_sig);
    let p = t.update(1, "", "", false, false, true, true, 1_031, 1_031 * 1_000_000_000, "x");
    assert!(p.warn_empty_sig);
}

#[test]
fn repeat_fire_within_dedup_window_shows_nothing() {
    let mut t = UnreadTracker::new();
    let _ = t.update(0, "", "", false, false, true, true, 100, 0, "x");
    let p = t.update(1, "Alice", "", false, false, true, true, 100, 0, "x");
    assert_eq!(p.dispatch, Some(DispatchOutcome::Fired));
    assert!(p.notification.is_some());
    t.record_delivery("Alice", 1, 0, true);
    // Typing indicator, then the same message again: the re-arm fires, but
    // the dedup window (4 s after delivery) swallows it.
    let _ = t.update(0, "", "", true, false, true, true, 101, 1_000_000_000, "x");
    let p = t.update(1, "Alice", "", false, false, true, true, 106, 4_000_000_000, "x");
    assert!(p.decision.should_fire);
    assert_eq!(p.decision.reason, "typing-indicator-rearm");
    assert_eq!(p.dispatch, Some(DispatchOutcome::Suppressed { age_ms: 4_000 }));
    assert!(p.notification.is_none());
    assert!(p.request_attention);
}

#[test]
fn failed_delivery_does_not_suppress_the_retry() {
    let mut t = UnreadTracker::new();
    let _ = t.update(0, "", "", false, false, true, true, 100, 0, "x");
    let p = t.update(1, "Alice", "", false, false, true, true, 100, 0, "x");
    assert!(p.notification.is_some());
    t.record_delivery("Alice", 1, 0, false);
    let _ = t.update(0, "", "", true, false, true, true, 101, 1_000_000_000, "x");
    let p = t.update(1, "Alice", "", false, false, true, true, 106, 4_000_000_000, "x");
    assert_eq!(p.dispatch, Some(DispatchOutcome::Fired));
    assert_eq!(p.notification.expect("retry must show").title, "Alice");
}

#[test]
fn other_sender_within_window_is_shown() {
    let mut t = UnreadTracker::new();
    let _ = t.update(0, "", "", false, false, true, true, 100, 0, "x");
    let _ = t.update(1, "Alice", "", false, false, true, true, 100, 0, "x");
    t.record_delivery("Alice", 1, 0, true);
    let p = t.update(2, "Bob", "", false, false, true, true, 101, 1_000_000_000, "x");
    assert_eq!(p.dispatch, Some(DispatchOutcome::Fired));
    assert_eq!(p.notification.expect("new key must show").title, "Bob");
}

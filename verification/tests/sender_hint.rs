use messengerx::sender_hint::{
    SenderHintCache, LIVE_HINT_MAX_AGE, SENDER_HINT_POLL, SENDER_HINT_RETAIN, SENDER_HINT_WAIT,
};

const SEC: u128 = 1_000_000_000;

#[test]
fn default_cache_is_empty() {
    let c = SenderHintCache::default();
    assert!(c.live.is_none());
    assert!(c.retained.is_none());
    let c = SenderHintCache::new();
    assert!(c.live.is_none());
    assert!(c.retained.is_none());
}

#[test]
fn live_take_then_retained_promotion_round_trip() {
    let mut c = SenderHintCache::new();
    c.store(1, "Alice".into(), 100 * SEC);
    assert!(c.live.is_some(), "live present");
    let taken = c.poll(1, 100 * SEC + 1, false);
    assert_eq!(taken.as_deref(), Some("Alice"));
    assert!(c.live.is_none());
    let (sender, _) = c.retained.as_ref().expect("retained set");
    assert_eq!(sender, "Alice");
}

#[test]
fn retained_ttl_is_long_enough_to_cover_typing_pause() {
    assert!(
        SENDER_HINT_RETAIN >= 5 * SEC,
        "retain window must cover typical typing pause (>= 5s)"
    );
    assert!(
        SENDER_HINT_RETAIN <= 30 * SEC,
        "retain window must stay short enough to avoid cross-conv attribution"
    );
}

#[test]
fn retained_expiry_check_uses_consumed_at_age() {
    let now = 100 * SEC;
    let stale = now - SENDER_HINT_RETAIN - SEC;
    let mut c = SenderHintCache { live: None, retained: Some(("Bob".into(), stale)) };
    // After the wait deadline an expired retained sender is not used.
    assert_eq!(c.poll(1, now, true).as_deref(), Some(""), "stale retained entry must be detected as expired");
    let fresh = now - SEC;
    let mut c = SenderHintCache { live: None, retained: Some(("Bob".into(), fresh)) };
    assert_eq!(c.poll(1, now, true).as_deref(), Some("Bob"));
}

#[test]
fn stale_or_mismatched_live_hint_is_dropped() {
    let mut c = SenderHintCache::new();
    c.store(2, "Alice".into(), 0);
    assert_eq!(c.poll(2, LIVE_HINT_MAX_AGE + 1, false), None);
    assert!(c.live.is_none());
    c.store(2, "Alice".into(), 0);
    assert_eq!(c.poll(3, 1, false), None);
    assert!(c.live.is_none());
    assert!(c.retained.is_none());
}

#[test]
fn waiting_constants() {
    assert_eq!(SENDER_HINT_WAIT, 1_200_000_000);
    assert_eq!(SENDER_HINT_POLL, 50_000_000);
    assert_eq!(LIVE_HINT_MAX_AGE, 3 * SEC);
}

use messengerx::notif_state::{
    decide_notification, NotifState, EMPTY_SIG_WARN_THROTTLE_SECS, MIN_SIG_CHANGE_NOTIFY_SECS,
    TYPING_REARM_SECS, UNREAD_REARM_SECS, ZERO_SUSTAIN_SECS,
};
use messengerx::startup::{clamp_zoom_percent, MAX_ZOOM_PERCENT, MIN_ZOOM_PERCENT};

#[test]
fn test_activity_sig_change_detection() {
    // New sig format: "<count>:<seq>:<snapshot_prefix>"
    let last_sig = "1:0:Alice".to_string();
    let new_sig_same = "1:0:Alice".to_string();
    let new_sig_changed = "1:1:Alice".to_string();
    let new_sig_new_convo = "1:1:Bob".to_string();
    let empty_sig = "".to_string();

    assert!(new_sig_same.is_empty() || new_sig_same == last_sig);
    assert!(!new_sig_changed.is_empty() && new_sig_changed != last_sig);
    assert!(!new_sig_new_convo.is_empty() && new_sig_new_convo != last_sig);
    assert!(empty_sig.is_empty() || empty_sig == last_sig);

    // The same rule as the state machine applies it.
    let mut state = NotifState::Notified {
        count: 1,
        sig: last_sig.clone(),
        fired_at_secs: 100,
        typing_rearm_exhausted: false,
    };
    let same = decide_notification(&mut state, 1, &new_sig_same, false, true, false, 200);
    assert!(!same.sig_changed);
    let changed = decide_notification(&mut state, 1, &new_sig_changed, false, true, false, 300);
    assert!(changed.sig_changed);
}

#[test]
fn test_zero_sustain_constant_exceeds_title_oscillation() {
    assert!(ZERO_SUSTAIN_SECS > 3);
    assert!(ZERO_SUSTAIN_SECS <= 30);
}

#[test]
fn test_notif_state_idle_positive_fires() {
    let mut state = NotifState::Idle;
    let decision = decide_notification(&mut state, 1, "", false, true, false, 100);
    assert!(decision.should_fire);
    assert_eq!(decision.reason, "idle-count-positive");
    assert_eq!(
        state,
        NotifState::Notified {
            count: 1,
            sig: String::new(),
            fired_at_secs: 100,
            typing_rearm_exhausted: false,
        }
    );
}

#[test]
fn test_notif_state_suppresses_transient_zero_bounce() {
    let mut state = NotifState::Notified {
        count: 1,
        sig: String::new(),
        fired_at_secs: 100,
        typing_rearm_exhausted: false,
    };

    let zero = decide_notification(&mut state, 0, "", false, true, false, 103);
    assert!(!zero.should_fire);
    assert!(!zero.clear_badge);
    assert_eq!(zero.reason, "zero-pending-start");

    let bounce = decide_notification(&mut state, 1, "", false, true, false, 106);
    assert!(!bounce.should_fire);
    assert_eq!(bounce.reason, "zero-bounce-oscillation-suppressed");
    assert_eq!(
        state,
        NotifState::Notified {
            count: 1,
            sig: String::new(),
            fired_at_secs: 100,
            typing_rearm_exhausted: false,
        }
    );
}

#[test]
fn test_notif_state_confirms_sustained_zero_as_read_all() {
    let mut state = NotifState::Notified {
        count: 1,
        sig: String::new(),
        fired_at_secs: 100,
        typing_rearm_exhausted: false,
    };

    let _ = decide_notification(&mut state, 0, "", false, true, false, 103);
    let sustained = decide_notification(&mut state, 0, "", false, true, false, 111);
    assert!(!sustained.should_fire);
    assert!(sustained.clear_badge);
    assert_eq!(sustained.reason, "zero-sustained-read-all");
    assert_eq!(state, NotifState::Idle);
}

#[test]
fn test_notif_state_fires_after_sustained_read_all() {
    let mut state = NotifState::Notified {
        count: 1,
        sig: String::new(),
        fired_at_secs: 100,
        typing_rearm_exhausted: false,
    };

    let _ = decide_notification(&mut state, 0, "", false, true, false, 103);
    let _ = decide_notification(&mut state, 0, "", false, true, false, 111);
    let next = decide_notification(&mut state, 1, "", false, true, false, 112);
    assert!(next.should_fire);
    assert_eq!(next.reason, "idle-count-positive");
}

#[test]
fn test_notif_state_sig_changed_bypasses_zero_pending() {
    let mut state = NotifState::ZeroPending {
        prev_count: 1,
        prev_sig: "1:0:Alice".to_string(),
        prev_fired_at_secs: 100,
        zero_since_secs: 103,
        zero_from_typing: false,
        prev_typing_rearm_exhausted: false,
    };

    let decision = decide_notification(&mut state, 1, "1:1:Alice", false, true, false, 104);
    assert!(decision.should_fire);
    assert!(decision.sig_changed);
    assert_eq!(decision.reason, "zero-bounce-sig-changed");
}

#[test]
fn test_count_increased_detection() {
    let last: u32 = 1;
    let increased: u32 = 2;
    let same: u32 = 1;
    let decreased: u32 = 0;
    assert!(increased > last);
    assert!(same <= last);
    assert!(decreased <= last);

    // The state machine reports the same comparison.
    let mut state = NotifState::Notified {
        count: last,
        sig: String::new(),
        fired_at_secs: 100,
        typing_rearm_exhausted: false,
    };
    let d = decide_notification(&mut state, increased, "", false, true, false, 100);
    assert!(d.count_increased);
    let d = decide_notification(&mut state, increased, "", false, true, false, 101);
    assert!(!d.count_increased);
}

#[test]
fn test_sig_changed_after_floor_fires() {
    let mut state = NotifState::Notified {
        count: 1,
        sig: "1:0:Alice".to_string(),
        fired_at_secs: 100,
        typing_rearm_exhausted: false,
    };
    let now = 100 + MIN_SIG_CHANGE_NOTIFY_SECS;
    let decision = decide_notification(&mut state, 1, "1:1:Alice", false, true, false, now);
    assert!(decision.should_fire, "sig_changed after floor should fire");
    assert_eq!(decision.reason, "sig-changed");
}

#[test]
fn test_sig_changed_under_floor_suppressed() {
    let mut state = NotifState::Notified {
        count: 1,
        sig: "1:0:Alice".to_string(),
        fired_at_secs: 100,
        typing_rearm_exhausted: false,
    };
    let now = 100 + MIN_SIG_CHANGE_NOTIFY_SECS - 1;
    let decision = decide_notification(&mut state, 1, "1:1:Alice", false, true, false, now);
    assert!(!decision.should_fire, "sig_changed under floor must be suppressed");
    assert_eq!(decision.reason, "sig-changed-floor-suppressed");
}

#[test]
fn test_count_increased_bypasses_floor() {
    let mut state = NotifState::Notified {
        count: 1,
        sig: "1:0:Alice".to_string(),
        fired_at_secs: 100,
        typing_rearm_exhausted: false,
    };
    let decision = decide_notification(&mut state, 2, "2:0:Alice", false, true, false, 100);
    assert!(decision.should_fire, "count_increased must bypass sig floor");
    assert_eq!(decision.reason, "count-increased");
}

#[test]
fn test_empty_sig_warn_throttle_constant_is_reasonable() {
    assert!(
        EMPTY_SIG_WARN_THROTTLE_SECS >= 10,
        "throttle should be at least 10s to avoid log spam"
    );
    assert!(
        EMPTY_SIG_WARN_THROTTLE_SECS <= 300,
        "throttle should be at most 5 minutes so issues surface quickly"
    );
}

#[test]
fn test_count_increase_fires_with_empty_sig() {
    let mut state = NotifState::Idle;
    let decision = decide_notification(&mut state, 3, "", false, true, false, 200);
    assert!(
        decision.should_fire,
        "count-increase from Idle must fire even with empty activity_sig"
    );
    assert_eq!(decision.reason, "idle-count-positive");
}

#[test]
fn test_empty_sig_never_triggers_sig_changed() {
    let mut state = NotifState::Notified {
        count: 1,
        sig: "1:0:Alice".to_string(),
        fired_at_secs: 100,
        typing_rearm_exhausted: false,
    };
    let decision = decide_notification(&mut state, 1, "", false, true, false, 200);
    assert!(
        !decision.should_fire,
        "empty activity_sig must not trigger sig_changed notification"
    );
    assert!(!decision.sig_changed, "sig_changed must be false for empty sig");
}

#[test]
fn test_typing_indicator_rearm_fires_after_cooldown() {
    let mut state = NotifState::Notified {
        count: 1,
        sig: String::new(),
        fired_at_secs: 100,
        typing_rearm_exhausted: false,
    };

    let zero = decide_notification(&mut state, 0, "", false, true, true, 106);
    assert!(!zero.should_fire);
    assert_eq!(zero.reason, "zero-pending-start");
    assert_eq!(
        state,
        NotifState::ZeroPending {
            prev_count: 1,
            prev_sig: String::new(),
            prev_fired_at_secs: 100,
            zero_since_secs: 106,
            zero_from_typing: true,
            prev_typing_rearm_exhausted: false,
        }
    );

    let rearm = decide_notification(&mut state, 1, "", false, true, false, 108);
    assert!(rearm.should_fire, "typing rearm must fire after cooldown");
    assert_eq!(rearm.reason, "typing-indicator-rearm");
}

#[test]
fn test_typing_indicator_rearm_suppressed_too_soon() {
    let mut state = NotifState::Notified {
        count: 1,
        sig: String::new(),
        fired_at_secs: 100,
        typing_rearm_exhausted: false,
    };

    let _ = decide_notification(&mut state, 0, "", false, true, true, 101);

    let d = decide_notification(&mut state, 1, "", false, true, false, 103);
    assert!(!d.should_fire, "typing rearm must be suppressed before cooldown expires");
    assert_eq!(d.reason, "zero-bounce-oscillation-suppressed");
}

#[test]
fn test_non_typing_zero_not_rearmed() {
    let mut state = NotifState::Notified {
        count: 1,
        sig: String::new(),
        fired_at_secs: 100,
        typing_rearm_exhausted: false,
    };

    let _ = decide_notification(&mut state, 0, "", false, true, false, 103);

    let d = decide_notification(&mut state, 1, "", false, true, false, 110);
    assert!(
        !d.should_fire,
        "non-typing zero bounce must not re-arm even after cooldown"
    );
    assert_eq!(d.reason, "zero-bounce-oscillation-suppressed");
}

#[test]
fn test_typing_indicator_rearm_fires_only_once() {
    let mut state = NotifState::Idle;
    let d = decide_notification(&mut state, 1, "", false, true, false, 100);
    assert!(d.should_fire);

    let d = decide_notification(&mut state, 0, "", false, true, true, 106);
    assert!(!d.should_fire);

    let d = decide_notification(&mut state, 1, "", false, true, false, 112);
    assert!(d.should_fire, "first rearm must fire");
    assert_eq!(d.reason, "typing-indicator-rearm");

    let d = decide_notification(&mut state, 0, "", false, true, true, 118);
    assert!(!d.should_fire);

    let d = decide_notification(&mut state, 1, "", false, true, false, 124);
    assert!(!d.should_fire, "second rearm must be blocked (exhausted=true)");
    assert_eq!(d.reason, "zero-bounce-oscillation-suppressed");
}

#[test]
fn test_typing_indicator_rearm_reset_by_count_increase() {
    let mut state = NotifState::Idle;
    let d = decide_notification(&mut state, 1, "", false, true, false, 100);
    assert!(d.should_fire);

    let _ = decide_notification(&mut state, 0, "", false, true, true, 106);

    let d = decide_notification(&mut state, 1, "", false, true, false, 112);
    assert!(d.should_fire);
    assert_eq!(d.reason, "typing-indicator-rearm");

    let d = decide_notification(&mut state, 2, "", false, true, false, 114);
    assert!(d.should_fire, "count_increased must fire");
    assert_eq!(d.reason, "count-increased");

    let _ = decide_notification(&mut state, 0, "", false, true, true, 120);

    let d = decide_notification(&mut state, 1, "", false, true, false, 126);
    assert!(
        d.should_fire,
        "rearm must be allowed after exhausted was reset by count_increased"
    );
    assert_eq!(d.reason, "typing-indicator-rearm");
}

#[test]
fn test_typing_rearm_constant_is_reasonable() {
    assert!(TYPING_REARM_SECS >= 3, "rearm floor must exceed oscillation interval (~3s)");
    assert!(TYPING_REARM_SECS <= 15, "rearm floor must be short enough to catch real replies");
}

#[test]
fn test_zoom_clamp_logic() {
    // Zoom is handled in whole percent: 60 % .. 120 %.
    assert!(MIN_ZOOM_PERCENT > 0);
    assert!(MIN_ZOOM_PERCENT < 100);
    assert!(MAX_ZOOM_PERCENT > 100);
    assert!(MAX_ZOOM_PERCENT <= 200);

    let too_low = clamp_zoom_percent(10);
    assert_eq!(too_low, MIN_ZOOM_PERCENT);

    let too_high = clamp_zoom_percent(1000);
    assert_eq!(too_high, MAX_ZOOM_PERCENT);

    let normal = clamp_zoom_percent(110);
    assert_eq!(normal, 110);
}

#[test]
fn focused_or_disabled_never_fires() {
    let mut state = NotifState::Idle;
    let d = decide_notification(&mut state, 5, "5:0:Bob", true, true, false, 100);
    assert!(!d.should_fire);
    let mut state = NotifState::Idle;
    let d = decide_notification(&mut state, 5, "5:0:Bob", false, false, false, 100);
    assert!(!d.should_fire);
}

#[test]
fn unread_rearm_fires_after_a_minute() {
    assert_eq!(UNREAD_REARM_SECS, 60);
    let mut state = NotifState::Notified {
        count: 1,
        sig: "1:0:A".to_string(),
        fired_at_secs: 100,
        typing_rearm_exhausted: true,
    };
    let early = decide_notification(&mut state, 1, "1:0:A", false, true, false, 159);
    assert!(!early.should_fire);
    assert_eq!(early.reason, "same-activity-suppressed");
    let d = decide_notification(&mut state, 1, "1:0:A", false, true, false, 160);
    assert!(d.should_fire);
    assert_eq!(d.reason, "unread-rearm");
    assert_eq!(d.elapsed_since_fire, Some(60));
    assert_eq!(
        state,
        NotifState::Notified {
            count: 1,
            sig: "1:0:A".to_string(),
            fired_at_secs: 160,
            typing_rearm_exhausted: false,
        }
    );
    // The next minute starts from the re-arm.
    let again = decide_notification(&mut state, 1, "1:0:A", false, true, false, 200);
    assert!(!again.should_fire);
}

#[test]
fn unread_rearm_needs_unfocused_enabled_window() {
    let start = NotifState::Notified {
        count: 2,
        sig: "2:0:B".to_string(),
        fired_at_secs: 0,
        typing_rearm_exhausted: false,
    };
    let mut focused = start.clone();
    let d = decide_notification(&mut focused, 2, "2:0:B", true, true, false, 500);
    assert!(!d.should_fire);
    assert_eq!(focused, start);
    let mut disabled = start.clone();
    let d = decide_notification(&mut disabled, 2, "2:0:B", false, false, false, 500);
    assert!(!d.should_fire);
    assert_eq!(disabled, start);
}

#[test]
fn count_rise_after_typing_zero_keeps_rearm_available() {
    let mut state = NotifState::ZeroPending {
        prev_count: 1,
        prev_sig: String::new(),
        prev_fired_at_secs: 100,
        zero_since_secs: 106,
        zero_from_typing: true,
        prev_typing_rearm_exhausted: false,
    };
    let d = decide_notification(&mut state, 2, "", false, true, false, 108);
    assert!(d.should_fire);
    assert_eq!(d.reason, "zero-bounce-count-increased");
    assert_eq!(
        state,
        NotifState::Notified {
            count: 2,
            sig: String::new(),
            fired_at_secs: 108,
            typing_rearm_exhausted: false,
        }
    );
}

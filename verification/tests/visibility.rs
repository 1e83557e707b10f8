use messengerx::visibility::{effective_visible, focus_event_script, poll_sync_script, VisibilityPoll, WINDOW_STATE_POLL_INTERVAL_MS};

#[test]
fn visible_means_focused_and_not_minimized() {
    assert!(effective_visible(true, false));
    assert!(!effective_visible(true, true));
    assert!(!effective_visible(false, false));
}

#[test]
fn scripts_for_visibility() {
    assert_eq!(focus_event_script(true), "window.__messengerx_set_visible?.(true, 'window-event-focused')");
    assert_eq!(focus_event_script(false), "window.__messengerx_set_visible?.(false, 'window-event-blurred')");
    assert_eq!(poll_sync_script(true), "window.__messengerx_set_visible?.(true, 'poll-focused-unminimized')");
    assert_eq!(poll_sync_script(false), "window.__messengerx_set_visible?.(false, 'poll-unfocused-or-minimized')");
    assert_eq!(WINDOW_STATE_POLL_INTERVAL_MS, 500);
}

#[test]
fn repeated_reading_pushes_nothing() {
    let mut p = VisibilityPoll::start(true, false);
    assert!(p.was_visible);
    let out = p.step(true, false);
    assert_eq!(out.set_visible, None);
    assert!(!out.stamp_restore);
}

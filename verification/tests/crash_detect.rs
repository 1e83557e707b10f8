use messengerx::crash_detect::{CrashAction, CrashDetector, MAX_CRASH_RELOADS};
use messengerx::main_window::on_title_changed;
use messengerx::sender_hint::SenderHintCache;
use messengerx::title::TitleEvent;
use messengerx::navigation::{navigation_policy, UrlParts};
use messengerx::unread::UnreadTracker;
use messengerx::visibility::{PollOutcome, VisibilityPoll};

fn url(href: &str, scheme: &str, host: &str, path: &str, query: Option<&str>) -> UrlParts {
    UrlParts {
        href: href.to_string(),
        scheme: scheme.to_string(),
        host: Some(host.to_string()),
        path: path.to_string(),
        query: query.map(|q| q.to_string()),
    }
}

fn messenger_root() -> UrlParts {
    url("https://www.messenger.com/", "https", "www.messenger.com", "/", None)
}

/// A detector on a loaded, settled Messenger page.
fn armed() -> CrashDetector {
    let mut d = CrashDetector::new();
    d.on_navigation("www.messenger.com");
    d.on_page_load_finished("www.messenger.com");
    assert_eq!(d.on_title("Messenger"), CrashAction::Nothing);
    assert!(d.had_good_title);
    d
}

#[test]
fn had_good_title_is_gated_on_messenger_com_navigated() {
    // The loading splash page's title contains "Messenger" too; without a
    // messenger.com navigation it must not arm the detector.
    let mut d = CrashDetector::new();
    d.on_page_load_finished("www.messenger.com");
    assert_eq!(d.on_title("Messenger X"), CrashAction::Nothing);
    assert!(!d.had_good_title, "had_good_title arming must be guarded by && messenger_com_navigated");
    assert_eq!(d.on_title(""), CrashAction::Nothing);
}

#[test]
fn on_navigation_sets_messenger_com_navigated_for_messenger_host() {
    let mut d = CrashDetector::new();
    let _ = navigation_policy(
        &url("https://www.facebook.com/", "https", "www.facebook.com", "/", None),
        &mut d,
        true,
    );
    assert!(!d.messenger_com_navigated, "on_navigation must have a www.messenger.com host check");
    let out = navigation_policy(&messenger_root(), &mut d, true);
    assert!(out.allow);
    assert!(d.messenger_com_navigated, "on_navigation must reference messenger_com_navigated_nav to set the flag");
}

#[test]
fn had_good_title_arming_is_gated_on_page_load_stable() {
    let mut d = CrashDetector::new();
    d.on_navigation("www.messenger.com");
    assert!(!d.page_load_stable);
    let _ = d.on_title("(1) Messenger");
    // Arming only ever happens together with a settled page.
    assert!(d.had_good_title);
    assert!(d.page_load_stable);
}

#[test]
fn crash_detect_fire_is_gated_on_page_load_stable() {
    let mut d = armed();
    // A new navigation (reload, SPA navigation) unsettles the page.
    d.on_navigation("www.messenger.com");
    assert!(!d.page_load_stable);
    assert_eq!(d.on_title(""), CrashAction::Nothing);
    assert_eq!(d.crash_reload_count, 0);
}

#[test]
fn on_navigation_resets_page_load_stable() {
    let mut d = CrashDetector::new();
    d.on_page_load_finished("www.messenger.com");
    assert!(d.page_load_stable);
    let _ = navigation_policy(&messenger_root(), &mut d, false);
    assert!(!d.page_load_stable, "page_load_stable reset must not depend on the platform");
    d.on_page_load_finished("www.messenger.com");
    let _ = navigation_policy(&messenger_root(), &mut d, true);
    assert!(!d.page_load_stable);
}

#[test]
fn on_page_load_sets_page_load_stable_true_on_finished() {
    let mut d = CrashDetector::new();
    d.on_page_load_finished("tauri.localhost");
    assert!(!d.page_load_stable);
    d.on_page_load_finished("www.messenger.com");
    assert!(d.page_load_stable, "on_page_load must set the stability flag on Finished");
}

#[test]
fn max_reloads_else_resets_had_good_title_to_break_loop() {
    let mut d = armed();
    for attempt in 1..=MAX_CRASH_RELOADS {
        assert_eq!(d.on_title(""), CrashAction::Reload { attempt });
        assert!(!d.had_good_title);
        assert!(d.post_crash_proxy_block);
        d.on_navigation("www.messenger.com");
        d.on_page_load_finished("www.messenger.com");
        assert!(!d.post_crash_proxy_block);
        let _ = d.on_title("Messenger");
    }
    assert_eq!(d.on_title(""), CrashAction::RecoverToRoot);
    assert!(!d.had_good_title);
    // Further blank titles do not loop.
    assert_eq!(d.on_title(""), CrashAction::Nothing);
    assert_eq!(d.on_title(" "), CrashAction::Nothing);
}

#[test]
fn good_title_recovery_sets_page_load_stable_when_finished_not_received() {
    let mut d = CrashDetector::new();
    d.on_navigation("www.messenger.com");
    assert!(!d.page_load_stable);
    let _ = d.on_title("Alice | Messenger");
    assert!(d.page_load_stable);
    assert_eq!(d.on_title(""), CrashAction::Reload { attempt: 1 });
}

#[test]
fn blink_stamp_requires_was_minimized() {
    // Focus blinks of a window that was never minimized stamp nothing.
    let mut p = VisibilityPoll::start(false, false);
    let out = p.step(true, false);
    assert_eq!(out, PollOutcome { stamp_restore: false, set_visible: Some(true) });
    let out = p.step(false, false);
    assert_eq!(out, PollOutcome { stamp_restore: false, set_visible: Some(false) });
    // A genuine restore from minimized is stamped.
    let _ = p.step(false, true);
    let out = p.step(true, false);
    assert_eq!(out, PollOutcome { stamp_restore: true, set_visible: Some(true) });
}

#[test]
fn was_minimized_is_updated_every_poll_cycle() {
    let mut p = VisibilityPoll::start(false, false);
    let out = p.step(false, true);
    assert_eq!(out.set_visible, None);
    assert!(p.was_minimized);
    let _ = p.step(false, false);
    assert!(!p.was_minimized);
    let out = p.step(true, false);
    assert!(!out.stamp_restore);
}

#[test]
fn post_crash_proxy_block_cleared_on_page_load_finished() {
    let mut d = armed();
    assert_eq!(d.on_title(""), CrashAction::Reload { attempt: 1 });
    assert!(d.post_crash_proxy_block);
    let trigger = url(
        "https://www.fbsbx.com/maw_proxy_page?x=1",
        "https",
        "www.fbsbx.com",
        "/maw_proxy_page",
        Some("x=1"),
    );
    let blocked = navigation_policy(&trigger, &mut d, true);
    assert!(!blocked.allow);
    assert_eq!(blocked.open_external, None);
    // Not blocked off Linux.
    assert!(navigation_policy(&trigger, &mut d, false).allow);
    assert!(d.on_page_load_finished("www.messenger.com"));
    assert!(!d.post_crash_proxy_block);
    assert!(navigation_policy(&trigger, &mut d, true).allow);
}

#[test]
fn startup_baseline_suppresses_pre_existing_unread_notification() {
    let mut t = UnreadTracker::new();
    let plan = t.update(3, "Alice", "3:0:Alice", false, false, true, true, 100, 100 * 1_000_000_000, "New message");
    assert!(plan.notification.is_none());
    assert_eq!(plan.decision.reason, "startup-baseline");
    assert!(!plan.request_attention);
    // The tray still shows the count.
    assert!(plan.tray.is_some());
    // A later rise does notify.
    let plan = t.update(4, "Bob", "4:0:Bob", false, false, true, true, 110, 110 * 1_000_000_000, "New message");
    assert!(plan.notification.is_some());
}

#[test]
fn answered_crash_counts_are_reported() {
    let mut d = armed();
    assert_eq!(d.on_title("   "), CrashAction::Reload { attempt: 1 });
    assert_eq!(d.crash_reload_count, 1);
}

#[test]
fn sentinel_titles_skip_the_crash_detector() {
    let mut d = CrashDetector::new();
    d.on_navigation("www.messenger.com");
    let mut hints = SenderHintCache::new();
    let r = on_title_changed(&mut d, &mut hints, "__MX_SENDER_V1__?count=1&sender=Messenger", 7);
    assert_eq!(r.event, TitleEvent::SenderHint { count: 1, sender: "Messenger".into() });
    assert_eq!(r.crash, CrashAction::Nothing);
    assert!(!d.page_load_stable && !d.had_good_title);
    assert_eq!(hints.live, Some((1, "Messenger".to_string(), 7)));
    let r = on_title_changed(&mut d, &mut hints, "(1) Messenger", 8);
    assert_eq!(r.event, TitleEvent::Unread { count: 1, is_typing_indicator: false });
    assert!(d.had_good_title);
    let r = on_title_changed(&mut d, &mut hints, "", 9);
    assert_eq!(r.crash, CrashAction::Reload { attempt: 1 });
    assert_eq!(hints.live, Some((1, "Messenger".to_string(), 7)));
}

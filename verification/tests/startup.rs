use messengerx::startup::{
    activate_on_ready, appimage_env_to_set, chrome_theme, fill_placeholder, startup_plan,
    update_check_due, zoom_menu_id, zoom_menu_label, zoom_menu_percents, ChromeTheme,
    UPDATE_CHECK_INTERVAL_SECS,
};

#[test]
fn startup_minimized_preference_stays_guarded_via_initial_visibility() {
    let plan = startup_plan(true, None, true);
    assert!(!plan.visible, "main window creation must keep start_minimized visibility guard");
    let plan = startup_plan(true, None, false);
    assert!(plan.visible);
    assert!(!activate_on_ready(true, false), "Windows Ready activation must only run for initially visible windows");
}

#[test]
fn windows_startup_activation_runs_in_ready_event() {
    assert!(activate_on_ready(true, true), "Windows startup activation must remain in RunEvent::Ready");
    assert!(!activate_on_ready(false, true));
}

#[test]
fn online_start_goes_through_loading_page() {
    let plan = startup_plan(true, Some("https://www.messenger.com/t/7"), false);
    assert_eq!(plan.first_page, "loading.html");
    assert_eq!(plan.navigate_to.as_deref(), Some("https://www.messenger.com/t/7"));
    let plan = startup_plan(true, Some("https://www.messenger.com/e2ee/t/7"), false);
    assert_eq!(plan.navigate_to.as_deref(), Some("https://www.messenger.com/"));
    let plan = startup_plan(false, Some("https://www.messenger.com/t/7"), false);
    assert_eq!(plan.first_page, "index.html");
    assert_eq!(plan.navigate_to, None);
}

#[test]
fn update_check_every_thirty_days() {
    assert_eq!(UPDATE_CHECK_INTERVAL_SECS, 30 * 24 * 3600);
    assert!(update_check_due(true, None, 0));
    assert!(!update_check_due(false, None, 0));
    let last = 1_700_000_000;
    assert!(!update_check_due(true, Some(last), last + UPDATE_CHECK_INTERVAL_SECS - 1));
    assert!(update_check_due(true, Some(last), last + UPDATE_CHECK_INTERVAL_SECS));
    // A clock set back never triggers.
    assert!(!update_check_due(true, Some(last), last - 10));
}

#[test]
fn window_theme_from_appearance() {
    assert_eq!(chrome_theme("dark"), ChromeTheme::Dark);
    assert_eq!(chrome_theme("light"), ChromeTheme::Light);
    assert_eq!(chrome_theme("system"), ChromeTheme::System);
    assert_eq!(chrome_theme("Dark"), ChromeTheme::System);
}

#[test]
fn zoom_menu() {
    assert_eq!(zoom_menu_percents(), vec![60, 70, 80, 90, 100, 110, 120]);
    assert_eq!(zoom_menu_id(90), "zoom_90");
    assert_eq!(zoom_menu_label(110), "110%");
}

#[test]
fn placeholders_are_filled() {
    assert_eq!(fill_placeholder("Update available: v{}", "1.4.2"), "Update available: v1.4.2");
    assert_eq!(fill_placeholder("{}-{}", "x"), "x-x");
    assert_eq!(fill_placeholder("none", "x"), "none");
    assert_eq!(fill_placeholder("{{}}", "x"), "{x}");
    for (t, v) in [("a{}b{", "Z"), ("", "Q"), ("{}{}{}", ""), ("é{}ü", "ř")] {
        assert_eq!(fill_placeholder(t, v), t.replace("{}", v));
    }
}

#[test]
fn appimage_runtime_overrides_are_skipped_outside_appimage() {
    let set: Vec<String> = Vec::new();
    for (key, _) in appimage_env_to_set(false, &set) {
        panic!("configure_linux_runtime_env() must not set {key} outside AppImage");
    }
    assert_eq!(
        appimage_env_to_set(true, &set),
        vec![("GIO_USE_VFS", "local"), ("GSETTINGS_BACKEND", "memory"), ("GTK_USE_PORTAL", "0")]
    );
}

#[test]
fn appimage_runtime_overrides_preserve_existing_operator_values() {
    let set = vec!["GSETTINGS_BACKEND".to_string(), "APPIMAGE".to_string()];
    let plan = appimage_env_to_set(true, &set);
    assert!(plan.iter().any(|(k, _)| *k == "GIO_USE_VFS"), "expected GIO_USE_VFS to be set in AppImage");
    assert!(
        !plan.iter().any(|(k, _)| *k == "GSETTINGS_BACKEND"),
        "configure_linux_runtime_env() must preserve an existing GSETTINGS_BACKEND value"
    );
}

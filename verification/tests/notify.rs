use messengerx::notify::{
    apple_script_string_literal, build_osascript_notification_script, bundle_short_version_from_plist,
    default_sound, delegate_check, DelegateRefusal, helper_args, initialize, is_app_bundle_path, notification_request_silence,
    notification_sinks, notify_helper_command, notify_send_args, HelperCommand, NotificationIdClock,
    NotificationSink, Platform,
};

#[test]
fn test_default_sound_returns_non_empty() {
    let sound = default_sound(Platform::Linux);
    assert!(!sound.is_empty(), "default_sound() should return a non-empty string");
    assert!(!default_sound(Platform::Windows).is_empty());
}

#[test]
fn test_default_sound_is_known_value() {
    let known_sounds = ["default", "Default", "message-new-instant"];
    for p in [Platform::Linux, Platform::Windows, Platform::MacOs] {
        let sound = default_sound(p);
        assert!(known_sounds.contains(&sound), "default_sound() returned unexpected value: {sound}");
    }
    assert_eq!(default_sound(Platform::Linux), "message-new-instant");
    assert_eq!(default_sound(Platform::Windows), "Default");
}

#[test]
fn test_macos_notification_identifier_uses_expected_prefix() {
    let mut clock = NotificationIdClock::new();
    let now = 1_712_800_000_000_000_000;
    let tagged1 = clock.build_macos_notification_identifier("thread-123", now);
    let tagged2 = clock.build_macos_notification_identifier("thread-123", now);
    let untagged = clock.build_macos_notification_identifier("", now);

    assert!(
        tagged1.starts_with("messengerx-thread-123-"),
        "expected 'messengerx-thread-123-' prefix, got: {tagged1}"
    );
    assert_ne!(tagged1, tagged2, "tagged identifiers should be unique across calls");
    assert!(untagged.starts_with("messengerx-message-"));
    assert_ne!(tagged1, untagged);
}

#[test]
fn identifier_stamps_never_go_back() {
    let mut clock = NotificationIdClock::new();
    assert_eq!(clock.build_macos_notification_identifier("t", 50), "messengerx-t-50");
    // A clock that went backwards still yields a later stamp.
    assert_eq!(clock.build_macos_notification_identifier("t", 10), "messengerx-t-51");
    assert_eq!(clock.build_macos_notification_identifier("", 51), "messengerx-message-52");
    assert_eq!(clock.build_macos_notification_identifier("x", 1000), "messengerx-x-1000");
}

#[test]
fn test_osascript_dev_fallback_args_assembled_without_panic() {
    let title = "Test \"title\"";
    let body = "Test body\\line\nnext";

    let script_sound = build_osascript_notification_script(title, body, false);
    assert!(script_sound.contains("display notification"), "should contain AppleScript verb");
    assert!(!script_sound.contains("sound name"), "dev fallback should omit sound name for reliability");
    assert!(script_sound.contains("\\\"title\\\""), "quotes should be escaped");
    assert!(script_sound.contains("body\\\\line next"), "backslash/newline should be escaped/sanitized");

    let script_silent = build_osascript_notification_script(title, body, true);
    assert!(!script_silent.contains("sound name"), "silent should omit sound name");
    assert_eq!(
        script_silent,
        "display notification \"Test body\\\\line next\" with title \"Test \\\"title\\\"\""
    );
}

#[test]
fn applescript_literal_sanitizes_controls() {
    assert_eq!(apple_script_string_literal("a\tb\rc\u{7}d\u{85}e"), "\"a b c d e\"");
    assert_eq!(apple_script_string_literal(""), "\"\"");
    assert_eq!(apple_script_string_literal("Žluťoučký"), "\"Žluťoučký\"");
}

#[test]
fn test_read_bundle_short_version_from_xml_plist() {
    let plist = r#"<?xml version="1.0" encoding="UTF-8"?>
<plist version="1.0">
<dict>
  <key>CFBundleName</key>
  <string>Messenger X</string>
  <key>CFBundleShortVersionString</key>
  <string>1.3.17</string>
</dict>
</plist>"#;
    let version = bundle_short_version_from_plist(plist).expect("read version");
    assert_eq!(version, "1.3.17");
}

#[test]
fn plist_without_version_gives_none() {
    assert_eq!(bundle_short_version_from_plist("<dict></dict>"), None);
    assert_eq!(
        bundle_short_version_from_plist("<key>CFBundleShortVersionString</key><string>1.0"),
        None
    );
    assert_eq!(
        bundle_short_version_from_plist("<key>CFBundleShortVersionString</key>\n<string>  2.0 </string>"),
        Some("2.0".to_string())
    );
}

#[test]
fn test_notify_send_args_assembled_without_panic() {
    let args = notify_send_args("Test title", "Test body", false);
    assert_eq!(
        args,
        vec![
            "--app-name=Messenger X",
            "--urgency=normal",
            "--expire-time=5000",
            "--icon=message-im",
            "--hint=string:sound-name:message-new-instant",
            "Test title",
            "Test body",
        ]
    );
    let silent = notify_send_args("T", "B", true);
    assert!(!silent.iter().any(|a| a.starts_with("--hint")));
    assert_eq!(silent.len(), 6);
}

#[test]
fn initialize_succeeds() {
    assert_eq!(initialize(), Ok(()));
}

#[test]
fn requests_follow_the_settings() {
    assert_eq!(notification_request_silence(false, true, false), None);
    assert_eq!(notification_request_silence(true, true, false), Some(false));
    assert_eq!(notification_request_silence(true, false, false), Some(true));
    assert_eq!(notification_request_silence(true, true, true), Some(true));
}

#[test]
fn sinks_per_platform() {
    assert_eq!(
        notification_sinks(Platform::Linux),
        vec![NotificationSink::NotifySend, NotificationSink::FrameworkPlugin]
    );
    assert_eq!(notification_sinks(Platform::Windows), vec![NotificationSink::FrameworkPlugin]);
    assert_eq!(notification_sinks(Platform::MacOs), vec![NotificationSink::UserNotifications]);
}

#[test]
fn test_bundle_guard_does_not_panic() {
    assert!(is_app_bundle_path("/Applications/Messenger X.app/Contents/MacOS/messengerx"));
    assert!(!is_app_bundle_path("/home/u/target/debug/messengerx"));
}

#[test]
fn helper_command_line() {
    let args: Vec<String> = ["messengerx", "-psn_0_123", "--notify", "Hi", "There", "silent"]
        .iter()
        .map(|s| s.to_string())
        .collect();
    assert_eq!(
        notify_helper_command(&args, false),
        HelperCommand::Notify { title: "Hi".into(), body: "There".into(), silent: true }
    );
    let args: Vec<String> = ["messengerx", "--notify", "Hi"].iter().map(|s| s.to_string()).collect();
    assert_eq!(notify_helper_command(&args, false), HelperCommand::Malformed);
    let args: Vec<String> = ["messengerx"].iter().map(|s| s.to_string()).collect();
    assert_eq!(notify_helper_command(&args, true), HelperCommand::MissingNotify);
    assert_eq!(notify_helper_command(&args, false), HelperCommand::RunApp);
    let args: Vec<String> =
        ["messengerx", "--notify", "A", "B", "loud"].iter().map(|s| s.to_string()).collect();
    assert_eq!(
        notify_helper_command(&args, false),
        HelperCommand::Notify { title: "A".into(), body: "B".into(), silent: false }
    );
    assert_eq!(helper_args("A", "B", true), vec!["--notify", "A", "B", "silent"]);
    assert_eq!(helper_args("A", "B", false), vec!["--notify", "A", "B", "not-silent"]);
}

#[test]
fn applescript_literal_round_trips() {
    let value = "say \"hi\"\\\n\u{1b}ok";
    let lit = apple_script_string_literal(value);
    assert_eq!(lit, "\"say \\\"hi\\\"\\\\  ok\"");
    assert!(lit.starts_with('"') && lit.ends_with('"'));
    assert!(!lit.chars().any(|c| c.is_control()));
    let inner: Vec<char> = lit[1..lit.len() - 1].chars().collect();
    let mut undone = String::new();
    let mut i = 0;
    while i < inner.len() {
        if inner[i] == '\\' {
            assert!(inner[i + 1] == '\\' || inner[i + 1] == '"');
            undone.push(inner[i + 1]);
            i += 2;
        } else {
            assert_ne!(inner[i], '"');
            undone.push(inner[i]);
            i += 1;
        }
    }
    let expected: String = value.chars().map(|c| if c.is_control() { ' ' } else { c }).collect();
    assert_eq!(undone, expected);
}

#[test]
fn bundle_delegation_checks_in_order() {
    assert_eq!(delegate_check(false, true, false, Some("1.4.0"), "1.4.0"), Ok(()));
    assert_eq!(
        delegate_check(true, true, false, Some("1.4.0"), "1.4.0"),
        Err(DelegateRefusal::AlreadyInBundle)
    );
    assert_eq!(
        delegate_check(false, false, true, None, "1.4.0"),
        Err(DelegateRefusal::BundleMissing)
    );
    assert_eq!(
        delegate_check(false, true, true, Some("1.4.0"), "1.4.0"),
        Err(DelegateRefusal::SameFile)
    );
    assert_eq!(
        delegate_check(false, true, false, None, "1.4.0"),
        Err(DelegateRefusal::VersionUnreadable)
    );
    assert_eq!(
        delegate_check(false, true, false, Some("1.3.9"), "1.4.0"),
        Err(DelegateRefusal::VersionMismatch)
    );
}

use messengerx::crash_detect::CrashDetector;
use messengerx::navigation::{
    find_pair_value, host_in_domain, is_allowed_host, is_allowed_popup_host,
    is_safe_messenger_startup_url, navigation_policy, popup_label, startup_url, NavigationOutcome,
    UrlParts,
};

fn parts(href: &str, scheme: &str, host: Option<&str>, path: &str, query: Option<&str>) -> UrlParts {
    UrlParts {
        href: href.to_string(),
        scheme: scheme.to_string(),
        host: host.map(|h| h.to_string()),
        path: path.to_string(),
        query: query.map(|q| q.to_string()),
    }
}

fn allow() -> NavigationOutcome {
    NavigationOutcome { allow: true, open_external: None, persist_url: None }
}

#[test]
fn non_web_schemes_and_local_assets_load() {
    let mut d = CrashDetector::new();
    assert_eq!(navigation_policy(&parts("blob:x", "blob", None, "x", None), &mut d, true), allow());
    assert_eq!(
        navigation_policy(&parts("http://tauri.localhost/", "http", Some("tauri.localhost"), "/", None), &mut d, true),
        allow()
    );
    assert_eq!(d, CrashDetector::new());
}

#[test]
fn link_shim_opens_target_outside() {
    let mut d = CrashDetector::new();
    let u = parts(
        "https://l.facebook.com/l.php?u=https%3A%2F%2Fexample.com%2Fa%3Fb%3D1&h=x",
        "https",
        Some("l.facebook.com"),
        "/l.php",
        Some("u=https%3A%2F%2Fexample.com%2Fa%3Fb%3D1&h=x"),
    );
    let out = navigation_policy(&u, &mut d, false);
    assert!(!out.allow);
    assert_eq!(out.open_external.as_deref(), Some("https://example.com/a?b=1"));
    // Without a `u` parameter the shim is a login redirect and loads.
    let login = parts("https://l.messenger.com/l.php?x=1", "https", Some("l.messenger.com"), "/l.php", Some("x=1"));
    assert_eq!(navigation_policy(&login, &mut d, false), allow());
}

#[test]
fn foreign_hosts_open_in_browser() {
    let mut d = CrashDetector::new();
    let u = parts("https://example.com/page", "https", Some("example.com"), "/page", None);
    let out = navigation_policy(&u, &mut d, false);
    assert_eq!(
        out,
        NavigationOutcome {
            allow: false,
            open_external: Some("https://example.com/page".to_string()),
            persist_url: None
        }
    );
    // Lookalike hosts are not subdomains.
    let fake = parts("https://evilmessenger.com/", "https", Some("evilmessenger.com"), "/", None);
    assert!(!navigation_policy(&fake, &mut d, false).allow);
    // Only Messenger, Facebook and their CDNs load in the window.
    let google = parts("https://accounts.google.com/x", "https", Some("accounts.google.com"), "/x", None);
    assert_eq!(
        navigation_policy(&google, &mut d, false),
        NavigationOutcome {
            allow: false,
            open_external: Some("https://accounts.google.com/x".to_string()),
            persist_url: None
        }
    );
    let cdn = parts("https://scontent.xx.fbcdn.net/v/a.jpg", "https", Some("scontent.xx.fbcdn.net"), "/v/a.jpg", None);
    assert_eq!(navigation_policy(&cdn, &mut d, false), allow());
}

#[test]
fn thread_urls_are_remembered_but_not_e2ee() {
    let mut d = CrashDetector::new();
    let t = parts("https://www.messenger.com/t/123", "https", Some("www.messenger.com"), "/t/123", None);
    let out = navigation_policy(&t, &mut d, false);
    assert!(out.allow);
    assert_eq!(out.persist_url.as_deref(), Some("https://www.messenger.com/t/123"));
    let e = parts("https://www.messenger.com/e2ee/t/9", "https", Some("www.messenger.com"), "/e2ee/t/9", None);
    assert_eq!(navigation_policy(&e, &mut d, false), allow());
}

#[test]
fn domain_matching() {
    assert!(host_in_domain("messenger.com", "messenger.com"));
    assert!(host_in_domain("www.messenger.com", "messenger.com"));
    assert!(!host_in_domain("xmessenger.com", "messenger.com"));
    assert!(is_allowed_host("static.xx.fbcdn.net"));
    assert!(is_allowed_host("upload.fbsbx.com"));
    assert!(!is_allowed_host("www.recaptcha.net"));
    assert!(!is_allowed_host("www.gstatic.com"));
    assert!(!is_allowed_host("accounts.google.com"));
    assert!(!is_allowed_host(""));
    assert!(is_allowed_popup_host("www.facebook.com"));
    assert!(!is_allowed_popup_host("www.google.com"));
    assert_eq!(popup_label(0), "popup-0");
    assert_eq!(popup_label(42), "popup-42");
}

#[test]
fn startup_urls() {
    assert!(is_safe_messenger_startup_url("https://www.messenger.com/t/123"));
    assert!(!is_safe_messenger_startup_url("https://www.messenger.com/e2ee/t/123"));
    assert!(!is_safe_messenger_startup_url("http://www.messenger.com/t/123"));
    assert!(!is_safe_messenger_startup_url("https://messenger.com/t/123"));
    assert!(!is_safe_messenger_startup_url("not a url"));
    assert_eq!(startup_url(Some("https://www.messenger.com/t/5")), "https://www.messenger.com/t/5");
    assert_eq!(startup_url(Some("https://example.com/t/5")), "https://www.messenger.com/");
    assert_eq!(startup_url(None), "https://www.messenger.com/");
}

#[test]
fn first_pair_wins() {
    let pairs = vec![("a".to_string(), "1".to_string()), ("u".to_string(), "x".to_string()), ("u".to_string(), "y".to_string())];
    assert_eq!(find_pair_value(&pairs, "u").as_deref(), Some("x"));
    assert_eq!(find_pair_value(&pairs, "z"), None);
}

#[test]
fn remembered_thread_is_restored() {
    let mut d = CrashDetector::new();
    let t = parts("https://www.messenger.com/t/42/", "https", Some("www.messenger.com"), "/t/42/", None);
    let remembered = navigation_policy(&t, &mut d, true).persist_url.expect("thread is remembered");
    assert!(is_safe_messenger_startup_url(&remembered));
    assert_eq!(startup_url(Some(&remembered)), remembered);
}

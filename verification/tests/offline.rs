use messengerx::offline::{offline_loading_note_script, offline_snapshot_script, RECONNECT_SCRIPT};

#[test]
fn snapshot_html_is_json_encoded() {
    let html = "<div class=\"test\">Hello \"world\" & <script>alert('xss')</script>\n\u{1}</div>";
    let s = offline_snapshot_script(html, "Offline");
    let encoded = serde_json::to_string(html).unwrap();
    assert!(s.contains(&format!("document.write({encoded});")));
    assert!(s.contains("b.textContent='Offline';"));
    assert!(s.contains("\\u0001"));
    assert!(s.starts_with("(function(){"));
    assert!(s.ends_with("})()"));
}

#[test]
fn loading_note_is_json_encoded() {
    let s = offline_loading_note_script("Žádné připojení \\ \"x\"\t");
    assert_eq!(
        s,
        "if(document.querySelector('.loading p')){document.querySelector('.loading p').textContent=\"Žádné připojení \\\\ \\\"x\\\"\\t\";}"
    );
}

#[test]
fn reconnect_timer_targets_messenger() {
    assert!(RECONNECT_SCRIPT.contains("window.location.href='https://www.messenger.com'"));
    assert!(RECONNECT_SCRIPT.contains("},15000);"));
}

use messengerx::scripts::{
    appearance_switch_script, build_appearance_script, build_offline_banner_script,
    build_scrollbar_fix_script, LOGOUT_CLEAR_SCRIPT, VISIBILITY_OVERRIDE_SCRIPT,
};

#[test]
fn default_state_is_visible() {
    assert!(
        VISIBILITY_OVERRIDE_SCRIPT.contains("var _hidden = false"),
        "script must default _hidden to false (safe for foreground startup)"
    );
}

#[test]
fn exposes_set_visible_function() {
    assert!(
        VISIBILITY_OVERRIDE_SCRIPT.contains("__messengerx_set_visible"),
        "script must define __messengerx_set_visible"
    );
}

#[test]
fn overrides_visibility_api_properties() {
    assert!(
        VISIBILITY_OVERRIDE_SCRIPT.contains("visibilityState"),
        "script must override visibilityState"
    );
    assert!(
        VISIBILITY_OVERRIDE_SCRIPT.contains("visibilitychange"),
        "script must dispatch visibilitychange event"
    );
}

#[test]
fn overrides_focus_api_properties() {
    assert!(
        VISIBILITY_OVERRIDE_SCRIPT.contains("hasFocus"),
        "script must override document.hasFocus"
    );
    assert!(
        VISIBILITY_OVERRIDE_SCRIPT.contains("'focus'"),
        "script must dispatch a synthetic focus event"
    );
    assert!(
        VISIBILITY_OVERRIDE_SCRIPT.contains("'blur'"),
        "script must dispatch a synthetic blur event"
    );
}

#[test]
fn resyncs_from_ipc_on_page_load() {
    assert!(
        VISIBILITY_OVERRIDE_SCRIPT.contains("get_window_focused"),
        "script must invoke get_window_focused to resync state on each navigation"
    );
}

#[test]
fn clears_cookies() {
    assert!(
        LOGOUT_CLEAR_SCRIPT.contains("document.cookie"),
        "logout script must touch document.cookie"
    );
}

#[test]
fn clears_storage() {
    assert!(
        LOGOUT_CLEAR_SCRIPT.contains("localStorage.clear()"),
        "logout script must clear localStorage"
    );
    assert!(
        LOGOUT_CLEAR_SCRIPT.contains("sessionStorage.clear()"),
        "logout script must clear sessionStorage"
    );
}

#[test]
fn resets_appearance_key() {
    assert!(
        LOGOUT_CLEAR_SCRIPT.contains("__mx_appearance"),
        "logout script must reset __mx_appearance"
    );
}

#[test]
fn navigates_to_messenger() {
    assert!(
        LOGOUT_CLEAR_SCRIPT.contains("https://www.messenger.com"),
        "logout script must redirect to messenger.com"
    );
}

#[test]
fn cookie_expiry_uses_gmt() {
    assert!(LOGOUT_CLEAR_SCRIPT.contains("00:00:00 GMT"), "cookie expiry must use GMT format");
    assert!(
        !LOGOUT_CLEAR_SCRIPT.contains("00:00:00 UTC"),
        "cookie expiry must not use UTC format"
    );
}

#[test]
fn skips_empty_cookie_names() {
    assert!(
        LOGOUT_CLEAR_SCRIPT.contains("if (!name) return"),
        "logout script must skip empty cookie names"
    );
}

#[test]
fn clears_cookie_path_variants() {
    assert!(
        LOGOUT_CLEAR_SCRIPT.contains("pathSegments"),
        "logout script must compute path segments"
    );
    assert!(
        LOGOUT_CLEAR_SCRIPT.contains("window.location.pathname"),
        "logout script must read current pathname"
    );
    assert!(
        LOGOUT_CLEAR_SCRIPT.contains("var pSlash = p + '/'"),
        "logout script must clear trailing-slash path variants"
    );
}

#[test]
fn stops_before_tld() {
    assert!(
        LOGOUT_CLEAR_SCRIPT.contains("hostParts.length > 1"),
        "cookie loop must stop before TLD"
    );
}

#[test]
fn wrapped_in_iife() {
    assert!(
        LOGOUT_CLEAR_SCRIPT.trim_start().starts_with("(function()"),
        "logout script must be wrapped in an IIFE"
    );
    assert!(
        LOGOUT_CLEAR_SCRIPT.trim_end().ends_with(")();"),
        "logout script IIFE must end with )();"
    );
}

#[test]
fn offline_banner_holds_text_once() {
    let s = build_offline_banner_script("Offline Mode");
    assert!(s.contains("banner.textContent = 'Offline Mode';"));
    assert_eq!(s.matches("Offline Mode").count(), 1);
    assert!(s.starts_with("(function() {\n    function injectBanner() {"));
    assert!(s.ends_with("})();"));
    assert!(s.contains("window.__messenger_updateBanner = updateBanner;"));
    assert!(!s.contains("{{"));
}

#[test]
fn scrollbar_rule_depends_on_platform() {
    let mac = build_scrollbar_fix_script(true);
    let other = build_scrollbar_fix_script(false);
    assert!(mac.contains("scrollbar-width: none !important;"));
    assert!(!mac.contains("scrollbar-color: rgba(128,128,128,0.5) transparent !important;"));
    assert!(other.contains("scrollbar-color: rgba(128,128,128,0.5) transparent !important;"));
    assert!(!other.contains("scrollbar-width: none !important;"));
    assert!(mac.contains("::-webkit-scrollbar { width: 8px; height: 8px; }"));
    assert!(other.contains("var STYLE_ID = '__messengerx_scrollbar_fix__';"));
}

#[test]
fn appearance_script_bakes_in_mode() {
    let s = build_appearance_script("dark");
    assert!(s.contains("var _m = (_rt !== null) ? _rt : 'dark';"));
    assert!(s.contains("sessionStorage.getItem('__mx_appearance')"));
    let sys = build_appearance_script("system");
    assert!(sys.contains(": 'system';"));
}

#[test]
fn appearance_switch_script_exact() {
    assert_eq!(
        appearance_switch_script("light"),
        "sessionStorage.setItem('__mx_appearance','light');window.location.reload();"
    );
}

use messengerx::proxy::{parse_hex_u32, proxy_flag, proxy_settings_from_reg, resolve_webview2_proxy_args, ProxySettings};

const HEADER: &str = "\r\nHKEY_CURRENT_USER\\Software\\Microsoft\\Windows\\CurrentVersion\\Internet Settings\r\n";

#[test]
fn pac_url_wins() {
    let listing = format!(
        "{HEADER}    AutoConfigURL    REG_SZ    http://wpad/proxy.pac\r\n    ProxyEnable    REG_DWORD    0x1\r\n    ProxyServer    REG_SZ    127.0.0.1:8080\r\n"
    );
    assert_eq!(
        resolve_webview2_proxy_args(&listing),
        "--proxy-pac-url=http://wpad/proxy.pac --disable-background-networking"
    );
}

#[test]
fn manual_proxy_when_enabled() {
    let listing = format!(
        "{HEADER}    ProxyEnable    REG_DWORD    0x1\r\n    ProxyServer    REG_SZ    127.0.0.1:8080\r\n"
    );
    assert_eq!(
        resolve_webview2_proxy_args(&listing),
        "--proxy-server=127.0.0.1:8080 --disable-background-networking"
    );
    let disabled = format!(
        "{HEADER}    ProxyEnable    REG_DWORD    0x0\r\n    ProxyServer    REG_SZ    127.0.0.1:8080\r\n"
    );
    assert_eq!(
        resolve_webview2_proxy_args(&disabled),
        "--no-proxy-server --disable-background-networking"
    );
}

#[test]
fn wpad_only_goes_direct() {
    let listing = format!("{HEADER}    AutoDetect    REG_DWORD    0x1\r\n");
    let s = proxy_settings_from_reg(&listing);
    assert_eq!(s.auto_detect, 1);
    assert_eq!(resolve_webview2_proxy_args(&listing), "--no-proxy-server --disable-background-networking");
    assert_eq!(resolve_webview2_proxy_args(""), "--no-proxy-server --disable-background-networking");
}

#[test]
fn listing_values_are_read() {
    let listing = "    AutoDetect    REG_DWORD    0x0\n    ProxyEnable    REG_DWORD    0x10\n    ProxyServer    REG_SZ    a:1\n    ProxyOverride    REG_SZ    <local>\n    AutoConfigURL    REG_SZ   \n";
    let s = proxy_settings_from_reg(listing);
    assert_eq!(
        s,
        ProxySettings {
            auto_detect: 0,
            proxy_enable: 16,
            proxy_server: "a:1".to_string(),
            auto_config_url: String::new(),
        }
    );
    assert_eq!(proxy_flag(&s), "--no-proxy-server");
}

#[test]
fn bad_dword_reads_as_zero() {
    let s = proxy_settings_from_reg("ProxyEnable REG_DWORD 0xzz\nAutoDetect REG_DWORD 0x100000000");
    assert_eq!(s.proxy_enable, 0);
    assert_eq!(s.auto_detect, 0);
    let s = proxy_settings_from_reg("ProxyEnable REG_SZ 1");
    assert_eq!(s.proxy_enable, 0);
}

#[test]
fn hex_parsing() {
    let p = |s: &str| parse_hex_u32(&s.chars().collect());
    assert_eq!(p("ff"), Some(255));
    assert_eq!(p("+1A"), Some(26));
    assert_eq!(p("ffffffff"), Some(u32::MAX));
    assert_eq!(p("100000000"), None);
    assert_eq!(p(""), None);
    assert_eq!(p("+"), None);
    assert_eq!(p("-1"), None);
    for s in ["0", "7f", "DEAD", "+beef", "123456789", "g"] {
        assert_eq!(p(s), u32::from_str_radix(s, 16).ok(), "{s}");
    }
}

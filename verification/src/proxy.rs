//! Browser arguments for WebView2 derived from the Windows Internet Options
//! proxy settings, as `reg query` prints them.
use vstd::prelude::*;
use crate::text::{has_at, to_chars, trim, trim_bounds};

verus! {

/// Appended to every argument string: no background networking.
pub const DISABLE_BACKGROUND_NETWORKING: &'static str = "--disable-background-networking";

/// The proxy values read from the registry listing.
#[derive(Debug, Clone, PartialEq, Eq)]
pub struct ProxySettings {
    /// `AutoDetect` (WPAD discovery).
    pub auto_detect: u32,
    /// `ProxyEnable`.
    pub proxy_enable: u32,
    /// `ProxyServer`, or empty.
    pub proxy_server: String,
    /// `AutoConfigURL` (a PAC file), or empty.
    pub auto_config_url: String,
}

/// Model of [`ProxySettings`].
pub type ProxyModel = (u32, u32, Seq<char>, Seq<char>);

impl View for ProxySettings {
    type V = ProxyModel;

    open spec fn view(&self) -> ProxyModel {
        (self.auto_detect, self.proxy_enable, self.proxy_server@, self.auto_config_url@)
    }
}

/// Whether `c` is an ASCII hexadecimal digit.
pub open spec fn is_hex_digit(c: char) -> bool {
    ('0' <= c && c <= '9') || ('a' <= c && c <= 'f') || ('A' <= c && c <= 'F')
}

/// Value of an ASCII hexadecimal digit.
pub open spec fn hex_digit_value(c: char) -> nat {
    if '0' <= c && c <= '9' {
        ((c as u32) - ('0' as u32)) as nat
    } else if 'a' <= c && c <= 'f' {
        ((c as u32) - ('a' as u32) + 10) as nat
    } else {
        ((c as u32) - ('A' as u32) + 10) as nat
    }
}

/// Value of a string of hexadecimal digits.
pub open spec fn hex_value(s: Seq<char>) -> nat
    decreases s.len(),
{
    if s.len() == 0 {
        0
    } else {
        hex_value(s.drop_last()) * 16 + hex_digit_value(s.last())
    }
}

/// Whether every character of `s` is a hexadecimal digit.
pub open spec fn all_hex(s: Seq<char>) -> bool {
    forall|i: int| 0 <= i < s.len() ==> is_hex_digit(s[i])
}

/// `u32::from_str_radix(s, 16)`: an optional `+` followed by at least one
/// hexadecimal digit, with a value that fits in `u32`.
pub open spec fn parse_hex_spec(s: Seq<char>) -> Option<u32> {
    let d = if s.len() > 0 && s[0] == '+' {
        s.skip(1)
    } else {
        s
    };
    if d.len() > 0 && all_hex(d) && hex_value(d) <= u32::MAX {
        Some(hex_value(d) as u32)
    } else {
        None
    }
}

/// `str::trim_start_matches("0x")`: every leading `0x` removed.
pub open spec fn strip_hex_prefixes(s: Seq<char>) -> Seq<char>
    decreases s.len(),
{
    if has_at(s, 0, "0x"@) && s.len() >= 2 {
        strip_hex_prefixes(s.skip(2))
    } else {
        s
    }
}

/// A `REG_DWORD` value: the hexadecimal number after the type (with its
/// `0x` prefixes removed), or zero when it does not parse.
pub open spec fn dword_value(rest: Seq<char>) -> u32 {
    match parse_hex_spec(strip_hex_prefixes(trim(rest))) {
        Some(n) => n,
        None => 0,
    }
}

/// One listing line's effect: a line (trimmed) that starts with a value's
/// name sets that value when the rest, trimmed, starts with the expected type
/// (`REG_DWORD` for `AutoDetect` and `ProxyEnable`, `REG_SZ` for
/// `ProxyServer` and `AutoConfigURL`); the first matching name decides.
pub open spec fn reg_line(a: ProxyModel, line: Seq<char>) -> ProxyModel {
    let t = trim(line);
    if has_at(t, 0, "AutoDetect"@) {
        let rest = trim(t.skip(10));
        if has_at(rest, 0, "REG_DWORD"@) {
            (dword_value(rest.skip(9)), a.1, a.2, a.3)
        } else {
            a
        }
    } else if has_at(t, 0, "ProxyEnable"@) {
        let rest = trim(t.skip(11));
        if has_at(rest, 0, "REG_DWORD"@) {
            (a.0, dword_value(rest.skip(9)), a.2, a.3)
        } else {
            a
        }
    } else if has_at(t, 0, "ProxyServer"@) {
        let rest = trim(t.skip(11));
        if has_at(rest, 0, "REG_SZ"@) {
            (a.0, a.1, trim(rest.skip(6)), a.3)
        } else {
            a
        }
    } else if has_at(t, 0, "AutoConfigURL"@) {
        let rest = trim(t.skip(13));
        if has_at(rest, 0, "REG_SZ"@) {
            (a.0, a.1, a.2, trim(rest.skip(6)))
        } else {
            a
        }
    } else {
        a
    }
}

/// The listing read up to its last character: the values after the
/// complete lines, and the line still being read.
pub open spec fn reg_scan(s: Seq<char>) -> (ProxyModel, Seq<char>)
    decreases s.len(),
{
    if s.len() == 0 {
        ((0, 0, Seq::empty(), Seq::empty()), Seq::empty())
    } else {
        let (a, cur) = reg_scan(s.drop_last());
        if s.last() == '\n' {
            (reg_line(a, cur), Seq::empty())
        } else {
            (a, cur.push(s.last()))
        }
    }
}

/// The proxy values of a whole listing, line by line, each value starting at
/// zero or empty.
pub open spec fn proxy_settings_spec(s: Seq<char>) -> ProxyModel {
    reg_line(reg_scan(s).0, reg_scan(s).1)
}

/// The proxy argument: the PAC URL when one is set, else the manual proxy
/// server when it is enabled and set, else a direct connection.
pub open spec fn proxy_flag_spec(p: ProxyModel) -> Seq<char> {
    if p.3.len() > 0 {
        "--proxy-pac-url="@ + p.3
    } else if p.1 == 1 && p.2.len() > 0 {
        "--proxy-server="@ + p.2
    } else {
        "--no-proxy-server"@
    }
}

/// The whole argument string for a listing.
pub open spec fn webview2_args_spec(s: Seq<char>) -> Seq<char> {
    proxy_flag_spec(proxy_settings_spec(s)) + " "@ + DISABLE_BACKGROUND_NETWORKING@
}

/// The value of a hex string is at least that of each of its prefixes.
pub proof fn lemma_hex_value_prefix(s: Seq<char>, k: int)
    requires
        0 <= k <= s.len(),
    ensures
        hex_value(s.take(k)) <= hex_value(s),
    decreases s.len() - k,
{
    if k < s.len() {
        lemma_hex_value_prefix(s, k + 1);
        assert(s.take(k + 1).drop_last() =~= s.take(k));
    } else {
        assert(s.take(k) =~= s);
    }
}

/// `u32::from_str_radix(s, 16)` over the characters of `v`.
pub fn parse_hex_u32(v: &Vec<char>) -> (r: Option<u32>)
    ensures
        r == parse_hex_spec(v@),
{
    let ghost s = v@;
    let to = v.len();
    let mut start: usize = 0;
    if 0 < to && v[0] == '+' {
        start = 1;
    }
    let ghost d = v@.subrange(start as int, to as int);
    assert(d == (if s.len() > 0 && s[0] == '+' {
        s.skip(1)
    } else {
        s
    }));
    if start == to {
        return None;
    }
    let mut value: u64 = 0;
    let mut i = start;
    while i < to
        invariant
            start <= i <= to == v@.len(),
            s == v@,
            d == v@.subrange(start as int, to as int),
            d == (if s.len() > 0 && s[0] == '+' {
                s.skip(1)
            } else {
                s
            }),
            d.len() > 0,
            all_hex(d.take(i - start)),
            value == hex_value(d.take(i - start)),
            value <= u32::MAX,
        decreases to - i,
    {
        let c = v[i];
        let dv: u64;
        if '0' <= c && c <= '9' {
            dv = (c as u32 - '0' as u32) as u64;
        } else if 'a' <= c && c <= 'f' {
            dv = (c as u32 - 'a' as u32 + 10) as u64;
        } else if 'A' <= c && c <= 'F' {
            dv = (c as u32 - 'A' as u32 + 10) as u64;
        } else {
            assert(!is_hex_digit(d[i - start]));
            return None;
        }
        assert(d.take(i - start + 1).drop_last() =~= d.take(i - start));
        assert(d.take(i - start + 1).last() == c);
        value = value * 16 + dv;
        if value > 0xffff_ffff {
            proof {
                lemma_hex_value_prefix(d, i - start + 1);
            }
            return None;
        }
        i += 1;
    }
    assert(d.take(i - start) =~= d);
    Some(value as u32)
}

/// The characters `v[from..to]`.
pub(crate) fn slice_chars(v: &Vec<char>, from: usize, to: usize) -> (r: Vec<char>)
    requires
        from <= to <= v@.len(),
    ensures
        r@ == v@.subrange(from as int, to as int),
{
    let mut r: Vec<char> = Vec::new();
    let mut i = from;
    while i < to
        invariant
            from <= i <= to <= v@.len(),
            r@ == v@.subrange(from as int, i as int),
        decreases to - i,
    {
        r.push(v[i]);
        i += 1;
    }
    r
}

/// `str::trim` of the characters `v[from..]`.
fn trimmed_after(v: &Vec<char>, from: usize) -> (r: Vec<char>)
    requires
        from <= v@.len(),
    ensures
        r@ == trim(v@.skip(from as int)),
{
    let rest = slice_chars(v, from, v.len());
    assert(rest@ =~= v@.skip(from as int));
    let (a, b) = trim_bounds(&rest);
    slice_chars(&rest, a, b)
}

/// `v` with every leading `0x` removed.
fn strip_hex_prefix_chars(v: &Vec<char>) -> (r: Vec<char>)
    ensures
        r@ == strip_hex_prefixes(v@),
{
    let mut i: usize = 0;
    assert(v@.skip(0) =~= v@);
    while i < v.len() && v.len() - i >= 2 && v[i] == '0' && v[i + 1] == 'x'
        invariant
            i <= v@.len(),
            strip_hex_prefixes(v@) == strip_hex_prefixes(v@.skip(i as int)),
        decreases v@.len() - i,
    {
        proof {
            reveal_strlit("0x");
            let t = v@.skip(i as int);
            assert(t.subrange(0, 2) =~= "0x"@);
            assert(t.skip(2) =~= v@.skip(i + 2));
        }
        i += 2;
    }
    proof {
        reveal_strlit("0x");
        let t = v@.skip(i as int);
        if has_at(t, 0, "0x"@) && t.len() >= 2 {
            assert(t.subrange(0, 2)[0] == t[0]);
            assert(t.subrange(0, 2)[1] == t[1]);
            assert("0x"@[0] == '0');
            assert("0x"@[1] == 'x');
            assert(t[0] == v@[i as int] && t[1] == v@[i + 1]);
            assert(false);
        }
        assert(strip_hex_prefixes(t) == t);
    }
    let r = slice_chars(v, i, v.len());
    assert(r@ =~= v@.skip(i as int));
    r
}

/// Whether `v` starts with `p`.
fn chars_start_with(v: &Vec<char>, p: &str) -> (r: bool)
    ensures
        r == has_at(v@, 0, p@),
{
    let w = to_chars(p);
    crate::text::matches_at(v, 0, &w)
}

/// The value of a `REG_DWORD` line's rest.
fn dword_after(rest: &Vec<char>, from: usize) -> (r: u32)
    requires
        from <= rest@.len(),
    ensures
        r == dword_value(rest@.skip(from as int)),
{
    let t = trimmed_after(rest, from);
    let h = strip_hex_prefix_chars(&t);
    match parse_hex_u32(&h) {
        Some(n) => n,
        None => 0,
    }
}

/// Applies one listing line to the values read so far.
fn apply_reg_line(p: &mut ProxySettings, line: &Vec<char>)
    ensures
        final(p)@ == reg_line(old(p)@, line@),
{
    proof {
        reveal_strlit("AutoDetect");
        reveal_strlit("ProxyEnable");
        reveal_strlit("ProxyServer");
        reveal_strlit("AutoConfigURL");
        reveal_strlit("REG_DWORD");
        reveal_strlit("REG_SZ");
    }
    let (a, b) = trim_bounds(line);
    let t = slice_chars(line, a, b);
    if chars_start_with(&t, "AutoDetect") {
        let rest = trimmed_after(&t, 10);
        if chars_start_with(&rest, "REG_DWORD") {
            p.auto_detect = dword_after(&rest, 9);
        }
    } else if chars_start_with(&t, "ProxyEnable") {
        let rest = trimmed_after(&t, 11);
        if chars_start_with(&rest, "REG_DWORD") {
            p.proxy_enable = dword_after(&rest, 9);
        }
    } else if chars_start_with(&t, "ProxyServer") {
        let rest = trimmed_after(&t, 11);
        if chars_start_with(&rest, "REG_SZ") {
            let v = trimmed_after(&rest, 6);
            p.proxy_server = crate::text::string_from_chars(&v);
        }
    } else if chars_start_with(&t, "AutoConfigURL") {
        let rest = trimmed_after(&t, 13);
        if chars_start_with(&rest, "REG_SZ") {
            let v = trimmed_after(&rest, 6);
            p.auto_config_url = crate::text::string_from_chars(&v);
        }
    }
}

/// Reads the proxy values out of a `reg query` listing of the Internet
/// Settings key.
pub fn proxy_settings_from_reg(listing: &str) -> (r: ProxySettings)
    ensures
        r@ == proxy_settings_spec(listing@),
{
    let v = to_chars(listing);
    let mut p = ProxySettings {
        auto_detect: 0,
        proxy_enable: 0,
        proxy_server: String::new(),
        auto_config_url: String::new(),
    };
    let mut cur: Vec<char> = Vec::new();
    let mut i: usize = 0;
    while i < v.len()
        invariant
            i <= v@.len(),
            reg_scan(v@.take(i as int)) == (p@, cur@),
        decreases v@.len() - i,
    {
        assert(v@.take(i + 1).drop_last() =~= v@.take(i as int));
        assert(v@.take(i + 1).last() == v@[i as int]);
        if v[i] == '\n' {
            apply_reg_line(&mut p, &cur);
            cur = Vec::new();
            assert(cur@ =~= Seq::<char>::empty());
        } else {
            cur.push(v[i]);
        }
        i += 1;
    }
    assert(v@.take(i as int) =~= listing@);
    apply_reg_line(&mut p, &cur);
    p
}

/// The proxy argument for the given values.
pub fn proxy_flag(p: &ProxySettings) -> (r: String)
    ensures
        r@ == proxy_flag_spec(p@),
{
    if p.auto_config_url.unicode_len() > 0 {
        let mut s = "--proxy-pac-url=".to_owned();
        s.append(p.auto_config_url.as_str());
        s
    } else if p.proxy_enable == 1 && p.proxy_server.unicode_len() > 0 {
        let mut s = "--proxy-server=".to_owned();
        s.append(p.proxy_server.as_str());
        s
    } else {
        "--no-proxy-server".to_owned()
    }
}

/// The WebView2 browser arguments for a `reg query` listing of the Internet
/// Settings key: the proxy argument, then `--disable-background-networking`.
pub fn resolve_webview2_proxy_args(reg_listing: &str) -> (r: String)
    ensures
        r@ == webview2_args_spec(reg_listing@),
{
    let p = proxy_settings_from_reg(reg_listing);
    let mut s = proxy_flag(&p);
    s.append(" ");
    s.append(DISABLE_BACKGROUND_NETWORKING);
    s
}

/// A PAC URL, when set, decides the argument whatever else is set.
pub proof fn lemma_pac_url_wins(p: ProxyModel)
    requires
        p.3.len() > 0,
    ensures
        proxy_flag_spec(p) == "--proxy-pac-url="@ + p.3,
{
}

/// Without a PAC URL or an enabled manual server, the connection is direct,
/// whatever WPAD discovery says.
pub proof fn lemma_no_proxy_means_direct(p: ProxyModel)
    requires
        p.3.len() == 0,
        !(p.1 == 1 && p.2.len() > 0),
    ensures
        proxy_flag_spec(p) == "--no-proxy-server"@,
{
}

} // verus!

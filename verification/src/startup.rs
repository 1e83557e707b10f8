//! Decisions taken when the app starts: which page to show first, whether
//! the window starts visible, the window theme, the zoom menu, and whether
//! the monthly update check is due.
use vstd::prelude::*;
use crate::navigation::{safe_startup_parts, startup_url, url_parts, MESSENGER_ROOT_URL};
use crate::text::{strings_view, decimal_digits, has_at, push_decimal, str_eq, to_chars};

verus! {

/// The page shown while the network starts up.
pub const LOADING_PAGE: &'static str = "loading.html";

/// The page shown when the app starts offline.
pub const OFFLINE_PAGE: &'static str = "index.html";

/// Seconds between automatic update checks: thirty days.
pub const UPDATE_CHECK_INTERVAL_SECS: u64 = 2_592_000;

/// Smallest zoom, in percent.
pub const MIN_ZOOM_PERCENT: u32 = 60;

/// Largest zoom, in percent.
pub const MAX_ZOOM_PERCENT: u32 = 120;

/// How the app starts.
#[derive(Debug, Clone, PartialEq, Eq)]
pub struct StartupPlan {
    /// The app page loaded first.
    pub first_page: String,
    /// Where to navigate once the window is built (when online).
    pub navigate_to: Option<String>,
    /// Whether the window starts visible.
    pub visible: bool,
}

/// The URL a start opens, for a saved URL.
pub open spec fn startup_url_spec(saved: Option<Seq<char>>) -> Seq<char> {
    match saved {
        Some(s) => if (match url_parts(s) {
            Some(u) => safe_startup_parts(u),
            None => false,
        }) {
            s
        } else {
            MESSENGER_ROOT_URL@
        },
        None => MESSENGER_ROOT_URL@,
    }
}

/// The plan of a start: online, a loading page and then the startup URL;
/// offline, the offline page; the window is visible unless the user asked to
/// start minimized.
pub fn startup_plan(is_online: bool, saved_url: Option<&str>, start_minimized: bool) -> (r:
    StartupPlan)
    ensures
        r.first_page@ == if is_online {
            LOADING_PAGE@
        } else {
            OFFLINE_PAGE@
        },
        match r.navigate_to {
            Some(u) => is_online && u@ == startup_url_spec(
                match saved_url {
                    Some(s) => Some(s@),
                    None => None,
                },
            ),
            None => !is_online,
        },
        r.visible == !start_minimized,
{
    if is_online {
        let target = startup_url(saved_url);
        StartupPlan {
            first_page: LOADING_PAGE.to_owned(),
            navigate_to: Some(target),
            visible: !start_minimized,
        }
    } else {
        StartupPlan { first_page: OFFLINE_PAGE.to_owned(), navigate_to: None, visible: !start_minimized }
    }
}

/// Windows: bring the window to the front once the runtime is ready, but
/// only a window that the start made visible.
pub fn activate_on_ready(is_windows: bool, visible: bool) -> (r: bool)
    ensures
        r == (is_windows && visible),
{
    is_windows && visible
}

/// `a - b`, or zero when `b` is larger.
pub open spec fn sat_sub_u64(a: u64, b: u64) -> u64 {
    if a >= b {
        (a - b) as u64
    } else {
        0
    }
}

/// The automatic update check runs when enabled and never ran, or ran at
/// least thirty days ago.
pub open spec fn update_check_due_spec(auto_update: bool, last: Option<u64>, now: u64) -> bool {
    auto_update && match last {
        None => true,
        Some(t) => sat_sub_u64(now, t) >= UPDATE_CHECK_INTERVAL_SECS,
    }
}

/// Whether the automatic update check is due at `now` (Unix seconds).
pub fn update_check_due(auto_update: bool, last_check_secs: Option<u64>, now_secs: u64) -> (r: bool)
    ensures
        r == update_check_due_spec(auto_update, last_check_secs, now_secs),
{
    if !auto_update {
        return false;
    }
    match last_check_secs {
        None => true,
        Some(last) => now_secs.saturating_sub(last) >= UPDATE_CHECK_INTERVAL_SECS,
    }
}

/// The theme of the window's own decorations.
#[derive(Debug, Clone, Copy, PartialEq, Eq)]
pub enum ChromeTheme {
    Dark,
    Light,
    /// Follow the operating system.
    System,
}

/// The window theme of an appearance setting: `dark` and `light` force it,
/// anything else follows the system.
pub fn chrome_theme(appearance: &str) -> (r: ChromeTheme)
    ensures
        r == if appearance@ == "dark"@ {
            ChromeTheme::Dark
        } else if appearance@ == "light"@ {
            ChromeTheme::Light
        } else {
            ChromeTheme::System
        },
{
    if str_eq(appearance, "dark") {
        ChromeTheme::Dark
    } else if str_eq(appearance, "light") {
        ChromeTheme::Light
    } else {
        ChromeTheme::System
    }
}

/// A zoom in percent, clamped to the allowed range.
pub open spec fn clamp_zoom_spec(p: u32) -> u32 {
    if p < MIN_ZOOM_PERCENT {
        MIN_ZOOM_PERCENT
    } else if p > MAX_ZOOM_PERCENT {
        MAX_ZOOM_PERCENT
    } else {
        p
    }
}

/// Clamps a zoom in percent to the allowed range.
pub fn clamp_zoom_percent(p: u32) -> (r: u32)
    ensures
        r == clamp_zoom_spec(p),
        MIN_ZOOM_PERCENT <= r <= MAX_ZOOM_PERCENT,
{
    if p < MIN_ZOOM_PERCENT {
        MIN_ZOOM_PERCENT
    } else if p > MAX_ZOOM_PERCENT {
        MAX_ZOOM_PERCENT
    } else {
        p
    }
}

/// The zoom levels the menu offers, in percent: 60 to 120 in steps of ten.
pub open spec fn zoom_menu_spec() -> Seq<u32> {
    seq![60u32, 70, 80, 90, 100, 110, 120]
}

/// The zoom levels the menu offers.
pub fn zoom_menu_percents() -> (r: Vec<u32>)
    ensures
        r@ == zoom_menu_spec(),
{
    let r: Vec<u32> = vec![60, 70, 80, 90, 100, 110, 120];
    assert(r@ =~= zoom_menu_spec());
    r
}

/// The menu id of a zoom level: `zoom_P`.
pub fn zoom_menu_id(percent: u32) -> (r: String)
    ensures
        r@ == "zoom_"@ + decimal_digits(percent as nat),
{
    let mut s = "zoom_".to_owned();
    push_decimal(&mut s, percent);
    s
}

/// The menu label of a zoom level: `P%`.
pub fn zoom_menu_label(percent: u32) -> (r: String)
    ensures
        r@ == decimal_digits(percent as nat) + "%"@,
{
    let mut s = String::new();
    push_decimal(&mut s, percent);
    s.append("%");
    proof {
        assert(Seq::<char>::empty() + decimal_digits(percent as nat) =~= decimal_digits(
            percent as nat,
        ));
    }
    s
}

/// `str::replace(pattern, with)` for a non-empty pattern: every occurrence,
/// left to right and without overlap, replaced.
pub open spec fn replace_all(s: Seq<char>, pat: Seq<char>, with: Seq<char>) -> Seq<char>
    recommends
        pat.len() > 0,
    decreases s.len(),
{
    if s.len() == 0 || pat.len() == 0 {
        s
    } else if has_at(s, 0, pat) {
        with + replace_all(s.skip(pat.len() as int), pat, with)
    } else {
        seq![s[0]] + replace_all(s.skip(1), pat, with)
    }
}

/// Fills every `{}` of a translated template with `value` (the update
/// dialog names the new version this way).
pub fn fill_placeholder(template: &str, value: &str) -> (r: String)
    ensures
        r@ == replace_all(template@, "{}"@, value@),
{
    proof {
        reveal_strlit("{}");
    }
    let v = to_chars(template);
    let pat = to_chars("{}");
    let mut out = String::new();
    let mut i: usize = 0;
    assert(v@.skip(0) =~= v@);
    assert(out@ + replace_all(v@, "{}"@, value@) =~= replace_all(v@, "{}"@, value@));
    while i < v.len()
        invariant
            i <= v@.len(),
            v@ == template@,
            pat@ == "{}"@,
            pat@.len() == 2,
            replace_all(template@, "{}"@, value@) == out@ + replace_all(
                v@.skip(i as int),
                "{}"@,
                value@,
            ),
        decreases v@.len() - i,
    {
        let ghost rest = v@.skip(i as int);
        if crate::text::matches_at(&v, i, &pat) {
            assert(rest.subrange(0, 2) =~= v@.subrange(i as int, i + 2));
            assert(has_at(rest, 0, "{}"@));
            assert(rest.skip(2) =~= v@.skip(i + 2));
            out.append(value);
            proof {
                assert(replace_all(rest, "{}"@, value@) == value@ + replace_all(
                    v@.skip(i + 2),
                    "{}"@,
                    value@,
                ));
            }
            i += 2;
        } else {
            assert(!has_at(rest, 0, "{}"@)) by {
                if has_at(rest, 0, "{}"@) {
                    assert(rest.subrange(0, 2) =~= v@.subrange(i as int, i + 2));
                }
            }
            assert(rest.skip(1) =~= v@.skip(i + 1));
            assert(rest[0] == v@[i as int]);
            crate::text::push_char(&mut out, v[i]);
            i += 1;
        }
    }
    assert(v@.skip(i as int).len() == 0);
    out
}

/// Inside an AppImage on Linux, environment defaults that keep the bundled
/// libraries away from host modules: the plain local file backend, an
/// in-memory settings backend, and GTK's own file chooser.
pub open spec fn appimage_overrides_spec() -> Seq<(Seq<char>, Seq<char>)> {
    seq![
        ("GIO_USE_VFS"@, "local"@),
        ("GSETTINGS_BACKEND"@, "memory"@),
        ("GTK_USE_PORTAL"@, "0"@),
    ]
}

/// The defaults among `overrides` whose variable is not set yet.
pub open spec fn unset_overrides(
    overrides: Seq<(Seq<char>, Seq<char>)>,
    set_keys: Seq<Seq<char>>,
) -> Seq<(Seq<char>, Seq<char>)>
    decreases overrides.len(),
{
    if overrides.len() == 0 {
        overrides
    } else if set_keys.contains(overrides.last().0) {
        unset_overrides(overrides.drop_last(), set_keys)
    } else {
        unset_overrides(overrides.drop_last(), set_keys).push(overrides.last())
    }
}

/// The variables to set at start: none outside an AppImage; inside one, the
/// AppImage defaults whose variable the user has not set.
pub open spec fn appimage_env_spec(in_appimage: bool, set_keys: Seq<Seq<char>>) -> Seq<
    (Seq<char>, Seq<char>),
> {
    if in_appimage {
        unset_overrides(appimage_overrides_spec(), set_keys)
    } else {
        Seq::empty()
    }
}

/// Model of a list of string pairs.
pub open spec fn str_pairs_view(v: Seq<(&'static str, &'static str)>) -> Seq<(Seq<char>, Seq<char>)> {
    v.map_values(|p: (&'static str, &'static str)| (p.0@, p.1@))
}

/// Whether `key` is among `keys`.
fn key_listed(keys: &Vec<String>, key: &str) -> (r: bool)
    ensures
        r == strings_view(keys@).contains(key@),
{
    let ghost kv = strings_view(keys@);
    let mut i: usize = 0;
    while i < keys.len()
        invariant
            kv == strings_view(keys@),
            kv.len() == keys@.len(),
            i <= keys@.len(),
            forall|k: int| 0 <= k < i ==> kv[k] != key@,
        decreases keys@.len() - i,
    {
        assert(kv[i as int] == keys@[i as int]@);
        if str_eq(keys[i].as_str(), key) {
            assert(kv[i as int] == key@);
            return true;
        }
        i += 1;
    }
    false
}

/// The environment variables to set at start, given whether the app runs
/// as an AppImage and which of the variables are already set.
pub fn appimage_env_to_set(in_appimage: bool, set_keys: &Vec<String>) -> (r: Vec<
    (&'static str, &'static str),
>)
    ensures
        str_pairs_view(r@) == appimage_env_spec(in_appimage, strings_view(set_keys@)),
{
    let mut out: Vec<(&'static str, &'static str)> = Vec::new();
    if !in_appimage {
        assert(str_pairs_view(out@) =~= Seq::<(Seq<char>, Seq<char>)>::empty());
        return out;
    }
    let ghost o = appimage_overrides_spec();
    let ghost sk = strings_view(set_keys@);
    assert(o.take(0) =~= Seq::<(Seq<char>, Seq<char>)>::empty());
    if !key_listed(set_keys, "GIO_USE_VFS") {
        out.push(("GIO_USE_VFS", "local"));
    }
    assert(o.take(1).drop_last() =~= o.take(0));
    assert(o.take(1).last() == o[0]);
    assert(unset_overrides(o.take(0), sk) =~= Seq::<(Seq<char>, Seq<char>)>::empty());
    assert(str_pairs_view(out@) =~= unset_overrides(o.take(1), sk));
    if !key_listed(set_keys, "GSETTINGS_BACKEND") {
        out.push(("GSETTINGS_BACKEND", "memory"));
    }
    assert(o.take(2).drop_last() =~= o.take(1));
    assert(o.take(2).last() == o[1]);
    assert(str_pairs_view(out@) =~= unset_overrides(o.take(2), sk));
    if !key_listed(set_keys, "GTK_USE_PORTAL") {
        out.push(("GTK_USE_PORTAL", "0"));
    }
    assert(o.take(3).drop_last() =~= o.take(2));
    assert(o.take(3).last() == o[2]);
    assert(o.take(3) =~= o);
    assert(str_pairs_view(out@) =~= unset_overrides(o, sk));
    out
}

/// A variable the user set is never overridden.
pub proof fn lemma_user_values_preserved(in_appimage: bool, set_keys: Seq<Seq<char>>, i: int)
    requires
        0 <= i < appimage_env_spec(in_appimage, set_keys).len(),
    ensures
        !set_keys.contains(appimage_env_spec(in_appimage, set_keys)[i].0),
{
    lemma_unset_overrides_unset(appimage_overrides_spec(), set_keys, i);
}

/// Every default kept by `unset_overrides` has an unset variable.
pub proof fn lemma_unset_overrides_unset(
    overrides: Seq<(Seq<char>, Seq<char>)>,
    set_keys: Seq<Seq<char>>,
    i: int,
)
    requires
        0 <= i < unset_overrides(overrides, set_keys).len(),
    ensures
        !set_keys.contains(unset_overrides(overrides, set_keys)[i].0),
    decreases overrides.len(),
{
    if overrides.len() > 0 {
        let rest = unset_overrides(overrides.drop_last(), set_keys);
        if i < rest.len() {
            lemma_unset_overrides_unset(overrides.drop_last(), set_keys, i);
        }
    }
}

} // verus!

//! Which URLs the main window may load, which open in the system browser,
//! which popups may open, and which Messenger URL a restart returns to.
use vstd::prelude::*;
use vstd::utf8::encode_utf8;
use crate::crash_detect::{navigation_step, CrashDetector, MESSENGER_HOST};
use crate::text::{opt_view, decimal_digits, ends_with, ends_with_seq, has_at, push_decimal, starts_with, str_eq};
use crate::title::{form_urlencoded_pairs, pairs_view, parse_form_urlencoded};

verus! {

/// Where a restart begins when no saved thread can be restored.
pub const MESSENGER_ROOT_URL: &'static str = "https://www.messenger.com/";

/// A parsed URL as plain parts: serialization, scheme, host, path, query.
pub type UrlTuple = (Seq<char>, Seq<char>, Option<Seq<char>>, Seq<char>, Option<Seq<char>>);

/// The parts of a parsed URL.
#[derive(Debug, Clone)]
pub struct UrlParts {
    /// The whole URL, serialized.
    pub href: String,
    /// The scheme, without `:`.
    pub scheme: String,
    /// The host, when the URL has one.
    pub host: Option<String>,
    /// The path.
    pub path: String,
    /// The query, without `?`, when the URL has one.
    pub query: Option<String>,
}

impl View for UrlParts {
    type V = UrlTuple;

    open spec fn view(&self) -> UrlTuple {
        (self.href@, self.scheme@, opt_view(self.host), self.path@, opt_view(self.query))
    }
}

/// Model of an optional parse result.
pub open spec fn opt_url_view(o: Option<UrlParts>) -> Option<UrlTuple> {
    match o {
        Some(u) => Some(u@),
        None => None,
    }
}

/// What `url::Url::parse` makes of a string: `None` when it refuses it,
/// otherwise the parts that `as_str`, `scheme`, `host_str`, `path` and
/// `query` give of the parsed URL.
pub uninterp spec fn url_parts(input: Seq<char>) -> Option<UrlTuple>;

/// `url::Url::parse`, then the parts of the result.  The contract names the
/// result; it does not describe the URL standard's parsing.
#[verifier::external_body]
fn parse_url(input: &str) -> (r: Option<UrlParts>)
    ensures
        opt_url_view(r) == url_parts(input@),
{
    match url::Url::parse(input) {
        Ok(u) => Some(UrlParts {
            href: u.as_str().to_string(),
            scheme: u.scheme().to_string(),
            host: u.host_str().map(|h| h.to_string()),
            path: u.path().to_string(),
            query: u.query().map(|q| q.to_string()),
        }),
        Err(_) => None,
    }
}

/// The host of a URL, or the empty string.
pub open spec fn host_of(u: UrlTuple) -> Seq<char> {
    match u.2 {
        Some(h) => h,
        None => Seq::empty(),
    }
}

/// The query of a URL, or the empty string.
pub open spec fn query_of(u: UrlTuple) -> Seq<char> {
    match u.4 {
        Some(q) => q,
        None => Seq::empty(),
    }
}

/// `host` is `domain` or one of its subdomains.
pub open spec fn in_domain(host: Seq<char>, domain: Seq<char>) -> bool {
    host == domain || ends_with_seq(host, seq!['.'] + domain)
}

/// Hosts that may load inside the main window: `messenger.com`,
/// `facebook.com`, `fbcdn.net` and `fbsbx.com`, each with its subdomains.
/// Everything else opens in the system browser.
pub open spec fn host_allowed(host: Seq<char>) -> bool {
    in_domain(host, "messenger.com"@) || in_domain(host, "facebook.com"@) || in_domain(
        host,
        "fbcdn.net"@,
    ) || in_domain(host, "fbsbx.com"@)
}

/// Hosts whose popups (call windows) may open as windows of the app.
pub open spec fn popup_host_allowed(host: Seq<char>) -> bool {
    in_domain(host, "messenger.com"@) || in_domain(host, "facebook.com"@) || in_domain(
        host,
        "fbcdn.net"@,
    )
}

/// The value of the first pair named `key`.
pub open spec fn find_value(pairs: Seq<(Seq<char>, Seq<char>)>, key: Seq<char>) -> Option<Seq<char>>
    decreases pairs.len(),
{
    if pairs.len() == 0 {
        None
    } else if pairs[0].0 == key {
        Some(pairs[0].1)
    } else {
        find_value(pairs.skip(1), key)
    }
}

/// The target of a Facebook link shim, read from its `u` query parameter.
pub open spec fn shim_target(u: UrlTuple) -> Option<Seq<char>> {
    find_value(form_urlencoded_pairs(encode_utf8(query_of(u))), "u"@)
}

/// A web navigation that the policy looks at (not another scheme, not the
/// app's own asset server).
pub open spec fn is_web_navigation(u: UrlTuple) -> bool {
    (u.1 == "http"@ || u.1 == "https"@) && host_of(u) != "tauri.localhost"@ && host_of(u)
        != "localhost"@
}

/// The page that sets off the crash again right after a crash on Linux.
pub open spec fn is_post_crash_trigger(u: UrlTuple) -> bool {
    host_of(u) == "www.fbsbx.com"@ && has_at(u.3, 0, "/maw_proxy_page"@)
}

/// A Facebook link-shim URL.
pub open spec fn is_link_shim(u: UrlTuple) -> bool {
    (host_of(u) == "l.facebook.com"@ || host_of(u) == "l.messenger.com"@) && u.3 == "/l.php"@
}

/// The policy's answer: (load in the window, open in the system browser,
/// remember as the thread to restore).  Checks in order: other schemes and
/// the app's asset server load; on Linux after a crash the crash-trigger page
/// is blocked; a link shim with a target opens the target outside; a host
/// outside the allowed domains opens outside; a Messenger thread (`/t/…`)
/// loads and is remembered; anything else loads.
pub open spec fn navigation_outcome(u: UrlTuple, block_active: bool, is_linux: bool) -> (
    bool,
    Option<Seq<char>>,
    Option<Seq<char>>,
) {
    if !is_web_navigation(u) {
        (true, None, None)
    } else if is_linux && block_active && is_post_crash_trigger(u) {
        (false, None, None)
    } else if is_link_shim(u) && shim_target(u) is Some {
        (false, shim_target(u), None)
    } else if !host_allowed(host_of(u)) {
        (false, Some(u.0), None)
    } else if host_of(u) == MESSENGER_HOST@ && has_at(u.3, 0, "/t/"@) {
        (true, None, Some(u.0))
    } else {
        (true, None, None)
    }
}

/// The answer to a navigation request.
#[derive(Debug, Clone, PartialEq, Eq)]
pub struct NavigationOutcome {
    /// Let the main window load the URL.
    pub allow: bool,
    /// Open this URL in the system browser instead.
    pub open_external: Option<String>,
    /// Remember this URL as the thread to restore on the next start.
    pub persist_url: Option<String>,
}

impl View for NavigationOutcome {
    type V = (bool, Option<Seq<char>>, Option<Seq<char>>);

    open spec fn view(&self) -> (bool, Option<Seq<char>>, Option<Seq<char>>) {
        (self.allow, opt_view(self.open_external), opt_view(self.persist_url))
    }
}

/// Whether `host` is `domain` or one of its subdomains.
pub fn host_in_domain(host: &str, domain: &str) -> (r: bool)
    ensures
        r == in_domain(host@, domain@),
{
    if str_eq(host, domain) {
        return true;
    }
    let mut dotted = ".".to_owned();
    proof {
        reveal_strlit(".");
    }
    dotted.append(domain);
    assert(dotted@ == seq!['.'] + domain@);
    ends_with(host, dotted.as_str())
}

/// Whether `host` may load inside the main window.
pub fn is_allowed_host(host: &str) -> (r: bool)
    ensures
        r == host_allowed(host@),
{
    host_in_domain(host, "messenger.com") || host_in_domain(host, "facebook.com")
        || host_in_domain(host, "fbcdn.net") || host_in_domain(host, "fbsbx.com")
}

/// Whether a popup to `host` may open as a window of the app.
pub fn is_allowed_popup_host(host: &str) -> (r: bool)
    ensures
        r == popup_host_allowed(host@),
{
    host_in_domain(host, "messenger.com") || host_in_domain(host, "facebook.com")
        || host_in_domain(host, "fbcdn.net")
}

/// The label of the `n`-th popup window: `popup-n`.
pub fn popup_label(n: u32) -> (r: String)
    ensures
        r@ == "popup-"@ + decimal_digits(n as nat),
{
    let mut s = "popup-".to_owned();
    proof {
        reveal_strlit("popup-");
    }
    push_decimal(&mut s, n);
    s
}

/// The value of the first pair named `key`.
pub fn find_pair_value(pairs: &Vec<(String, String)>, key: &str) -> (r: Option<String>)
    ensures
        opt_view(r) == find_value(pairs_view(pairs@), key@),
{
    let ghost pv = pairs_view(pairs@);
    let mut i: usize = 0;
    assert(pv.skip(0) =~= pv);
    while i < pairs.len()
        invariant
            i <= pairs@.len(),
            pv == pairs_view(pairs@),
            pv.len() == pairs@.len(),
            find_value(pv, key@) == find_value(pv.skip(i as int), key@),
        decreases pairs@.len() - i,
    {
        assert(pv.skip(i as int)[0] == pv[i as int]);
        assert(pv[i as int] == (pairs@[i as int].0@, pairs@[i as int].1@));
        if str_eq(pairs[i].0.as_str(), key) {
            return Some(pairs[i].1.clone());
        }
        assert(pv.skip(i as int).skip(1) =~= pv.skip(i + 1));
        i += 1;
    }
    assert(pv.skip(i as int).len() == 0);
    None
}

/// The link-shim target of a URL, read from its query.
fn link_shim_target(u: &UrlParts) -> (r: Option<String>)
    ensures
        opt_view(r) == shim_target(u@),
{
    let empty = String::new();
    let q: &str = match &u.query {
        Some(q) => q.as_str(),
        None => empty.as_str(),
    };
    let pairs = parse_form_urlencoded(q.as_bytes());
    find_pair_value(&pairs, "u")
}

/// The policy for a navigation request of the main window.  A web navigation
/// to Messenger is also noted by the crash detector; whether the post-crash
/// block applies is read from the detector.
pub fn navigation_policy(u: &UrlParts, detector: &mut CrashDetector, is_linux: bool) -> (r:
    NavigationOutcome)
    ensures
        r@ == navigation_outcome(u@, old(detector).post_crash_proxy_block, is_linux),
        *final(detector) == if is_web_navigation(u@) {
            navigation_step(*old(detector), host_of(u@))
        } else {
            *old(detector)
        },
{
    let empty = String::new();
    let host: &str = match &u.host {
        Some(h) => h.as_str(),
        None => empty.as_str(),
    };
    assert(host@ == host_of(u@));
    let pass = NavigationOutcome { allow: true, open_external: None, persist_url: None };
    if !str_eq(u.scheme.as_str(), "http") && !str_eq(u.scheme.as_str(), "https") {
        return pass;
    }
    if str_eq(host, "tauri.localhost") || str_eq(host, "localhost") {
        return pass;
    }
    detector.on_navigation(host);
    if is_linux && detector.post_crash_proxy_block && str_eq(host, "www.fbsbx.com") && starts_with(
        u.path.as_str(),
        "/maw_proxy_page",
    ) {
        return NavigationOutcome { allow: false, open_external: None, persist_url: None };
    }
    if (str_eq(host, "l.facebook.com") || str_eq(host, "l.messenger.com")) && str_eq(
        u.path.as_str(),
        "/l.php",
    ) {
        if let Some(target) = link_shim_target(u) {
            return NavigationOutcome { allow: false, open_external: Some(target), persist_url: None };
        }
    }
    if !is_allowed_host(host) {
        return NavigationOutcome {
            allow: false,
            open_external: Some(u.href.clone()),
            persist_url: None,
        };
    }
    if str_eq(host, MESSENGER_HOST) && starts_with(u.path.as_str(), "/t/") {
        return NavigationOutcome { allow: true, open_external: None, persist_url: Some(u.href.clone()) };
    }
    pass
}

/// A saved URL that a restart may return to: an `https` URL on
/// `www.messenger.com` whose path starts with `/t/` (end-to-end encrypted
/// threads, `/e2ee/t/…`, are not restored).
pub open spec fn safe_startup_parts(u: UrlTuple) -> bool {
    u.1 == "https"@ && u.2 == Some(MESSENGER_HOST@) && has_at(u.3, 0, "/t/"@)
}

/// Whether parsed URL parts may be restored on startup.
pub fn is_safe_startup_parts(u: &UrlParts) -> (r: bool)
    ensures
        r == safe_startup_parts(u@),
{
    if !str_eq(u.scheme.as_str(), "https") {
        return false;
    }
    match &u.host {
        Some(h) => str_eq(h.as_str(), MESSENGER_HOST) && starts_with(u.path.as_str(), "/t/"),
        None => false,
    }
}

/// Whether a saved URL string parses and may be restored on startup.
pub fn is_safe_messenger_startup_url(value: &str) -> (r: bool)
    ensures
        r == match url_parts(value@) {
            Some(u) => safe_startup_parts(u),
            None => false,
        },
{
    match parse_url(value) {
        Some(u) => is_safe_startup_parts(&u),
        None => false,
    }
}

/// The URL a start opens: the saved URL when it may be restored, otherwise
/// the Messenger root.
pub fn startup_url(saved: Option<&str>) -> (r: String)
    ensures
        r@ == match saved {
            Some(s) => if (match url_parts(s@) {
                Some(u) => safe_startup_parts(u),
                None => false,
            }) {
                s@
            } else {
                MESSENGER_ROOT_URL@
            },
            None => MESSENGER_ROOT_URL@,
        },
{
    match saved {
        Some(s) => {
            if is_safe_messenger_startup_url(s) {
                s.to_owned()
            } else {
                MESSENGER_ROOT_URL.to_owned()
            }
        },
        None => MESSENGER_ROOT_URL.to_owned(),
    }
}

/// A thread URL that the policy remembers over `https` is one that the next
/// start restores.
pub proof fn lemma_remembered_thread_is_restorable(u: UrlTuple, block_active: bool, is_linux: bool)
    requires
        navigation_outcome(u, block_active, is_linux).2 is Some,
        u.1 == "https"@,
    ensures
        safe_startup_parts(u),
        navigation_outcome(u, block_active, is_linux).2 == Some(u.0),
        navigation_outcome(u, block_active, is_linux).0,
{
    reveal_strlit("www.messenger.com");
    assert(host_of(u) == MESSENGER_HOST@);
    if u.2 is None {
        assert(host_of(u).len() == 0);
    }
}

/// A URL handed to the system browser never loads inside the window.
pub proof fn lemma_external_urls_do_not_load(u: UrlTuple, block_active: bool, is_linux: bool)
    requires
        navigation_outcome(u, block_active, is_linux).1 is Some,
    ensures
        !navigation_outcome(u, block_active, is_linux).0,
        navigation_outcome(u, block_active, is_linux).2 is None,
{
}

/// The post-crash block changes nothing unless it is active on Linux.
pub proof fn lemma_block_only_after_crash_on_linux(u: UrlTuple, block_active: bool, is_linux: bool)
    requires
        !(block_active && is_linux),
    ensures
        navigation_outcome(u, block_active, is_linux) == navigation_outcome(u, false, false),
{
}

/// Every URL that loads inside the window is not a web navigation, or its
/// host is in the allowed domains.
pub proof fn lemma_loaded_hosts_are_allowed(u: UrlTuple, block_active: bool, is_linux: bool)
    requires
        navigation_outcome(u, block_active, is_linux).0,
    ensures
        !is_web_navigation(u) || host_allowed(host_of(u)),
{
}

/// The main window's allowlist is exactly Messenger, Facebook and their
/// CDNs: `messenger.com`, `facebook.com`, `fbcdn.net`, `fbsbx.com` and their
/// subdomains.
pub proof fn lemma_allowlist_is_exact(host: Seq<char>)
    ensures
        host_allowed(host) <==> (in_domain(host, "messenger.com"@) || in_domain(
            host,
            "facebook.com"@,
        ) || in_domain(host, "fbcdn.net"@) || in_domain(host, "fbsbx.com"@)),
{
}

/// A web navigation to Messenger, Facebook or their CDNs (including any
/// subdomain) that is neither a link shim with a target nor the blocked
/// post-crash page loads inside the window and opens nothing outside.
pub proof fn lemma_allowed_domains_load(u: UrlTuple, block_active: bool, is_linux: bool)
    requires
        is_web_navigation(u),
        in_domain(host_of(u), "messenger.com"@) || in_domain(host_of(u), "facebook.com"@)
            || in_domain(host_of(u), "fbcdn.net"@) || in_domain(host_of(u), "fbsbx.com"@),
        !(is_link_shim(u) && shim_target(u) is Some),
        !(is_linux && block_active && is_post_crash_trigger(u)),
    ensures
        navigation_outcome(u, block_active, is_linux).0,
        navigation_outcome(u, block_active, is_linux).1 is None,
{
}

} // verus!

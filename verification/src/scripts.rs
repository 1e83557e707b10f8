//! Scripts injected into the Messenger page.
use vstd::prelude::*;

verus! {

/// Run on logout: clears the cookies that page script can reach (for the
/// current host and its parent domains, on every parent path, with and
/// without a trailing slash), then local and session storage, resets the
/// appearance override and returns to Messenger.
pub const LOGOUT_CLEAR_SCRIPT: &'static str = r##"
(function() {
    try {
        var pathSegments = window.location.pathname.split('/').filter(Boolean);
        document.cookie.split(';').forEach(function(c) {
            var eq = c.indexOf('=');
            var name = (eq > -1 ? c.substring(0, eq) : c).trim();
            if (!name) return;
            var hostParts = window.location.hostname.split('.');
            while (hostParts.length > 1) {
                var domain = hostParts.join('.');
                // Clear for root path and all parent path prefixes
                // (both with and without trailing slash, since they are
                // distinct cookie identities).
                for (var i = pathSegments.length; i >= 0; i--) {
                    var p = '/' + pathSegments.slice(0, i).join('/');
                    document.cookie = name + '=;expires=Thu, 01 Jan 1970 00:00:00 GMT;path=' + p + ';domain=' + domain;
                    document.cookie = name + '=;expires=Thu, 01 Jan 1970 00:00:00 GMT;path=' + p + ';domain=.' + domain;
                    if (i > 0) {
                        var pSlash = p + '/';
                        document.cookie = name + '=;expires=Thu, 01 Jan 1970 00:00:00 GMT;path=' + pSlash + ';domain=' + domain;
                        document.cookie = name + '=;expires=Thu, 01 Jan 1970 00:00:00 GMT;path=' + pSlash + ';domain=.' + domain;
                    }
                }
                hostParts.shift();
            }
            // Current origin (no domain attribute).
            for (var i = pathSegments.length; i >= 0; i--) {
                var p = '/' + pathSegments.slice(0, i).join('/');
                document.cookie = name + '=;expires=Thu, 01 Jan 1970 00:00:00 GMT;path=' + p;
                if (i > 0) {
                    document.cookie = name + '=;expires=Thu, 01 Jan 1970 00:00:00 GMT;path=' + p + '/';
                }
            }
        });
    } catch (e) {
        console.error('[MessengerX] Logout cookie clear failed:', e);
    } finally {
        try { localStorage.clear(); } catch (e) {
            console.error('[MessengerX] Logout localStorage clear failed:', e);
        }
        try { sessionStorage.clear(); } catch (e) {
            console.error('[MessengerX] Logout sessionStorage clear failed:', e);
        }
        try { sessionStorage.setItem('__mx_appearance', 'system'); } catch (e) {
            console.error('[MessengerX] Logout appearance reset failed:', e);
        }
        window.location.href = 'https://www.messenger.com';
    }
})();
"##;

/// Linux: replaces the page visibility and focus API with a flag that the
/// app sets through `window.__messengerx_set_visible(visible, source)`, and
/// resyncs the flag from the real window state on every page load.
pub const VISIBILITY_OVERRIDE_SCRIPT: &'static str = r##"(function() {
    var _hidden = false;

    function jlog(msg) {
        try {
            window.__TAURI__.core.invoke('js_log', { message: '[VisibilityJS] ' + msg });
        } catch(_) {}
    }

    function dispatchFocusChange(visible) {
        var type = visible ? 'focus' : 'blur';
        window.dispatchEvent(new Event(type));
        document.dispatchEvent(new Event(type));
    }

    function setVisible(visible, source) {
        source = source || 'unknown';
        if (_hidden === !visible) {
            jlog('setVisible no-op: source=' + source + ' visible=' + String(visible));
            return;
        }
        _hidden = !visible;
        jlog(
            'setVisible changed: source=' + source +
            ' visible=' + String(visible) +
            ' hidden=' + String(_hidden)
        );
        document.dispatchEvent(new Event('visibilitychange'));
        dispatchFocusChange(visible);
    }

    Object.defineProperty(document, 'visibilityState', {
        get: function() { return _hidden ? 'hidden' : 'visible'; },
        configurable: true
    });
    Object.defineProperty(document, 'hidden', {
        get: function() { return _hidden; },
        configurable: true
    });

    try {
        Object.defineProperty(document, 'hasFocus', {
            value: function() { return !_hidden; },
            configurable: true
        });
    } catch(_) {
        document.hasFocus = function() { return !_hidden; };
    }

    window.__messengerx_set_visible = setVisible;

    // Fix 3 (Linux IPC): wrap the top-level window.__TAURI__ access in try/catch.
    //
    // On VMware / AppImage / EGL-degraded WebKitGTK (Linux), window.__TAURI__ can
    // be undefined even though initialization_scripts normally inject the Tauri IPC
    // binding unconditionally.  Without this guard the bare property access at the
    // top level of the IIFE throws a TypeError that silently aborts the script —
    // preventing the "visibility override installed" log line and potentially leaving
    // Messenger with a permanently-wrong visibilityState after a re-navigation.
    //
    // The .catch() already handles async failures; this try/catch handles the
    // synchronous case where window.__TAURI__ itself (or .core) is undefined.
    try {
        window.__TAURI__.core.invoke('get_window_focused')
            .then(function(focused) {
                jlog('initial get_window_focused=' + String(focused));
                setVisible(focused, 'ipc-resync');
            })
            .catch(function(e) {
                jlog('get_window_focused IPC rejected: ' + String(e));
            });
    } catch(e) {
        // IPC not yet available (window.__TAURI__ undefined or .core missing).
        // The flag stays at its conservative default (_hidden=false → visible),
        // which is the safer fallback: Messenger will attempt notifications rather
        // than silently suppressing them.  The Rust-side WindowEvent::Focused handler
        // and the is_minimized() poll thread will update the flag via
        // window.__messengerx_set_visible() once IPC becomes available.
        jlog('get_window_focused sync error (IPC unavailable at init): ' + String(e));
    }

    jlog('visibility override installed');
})();"##;

/// Offline banner script, up to the banner text.
pub const OFFLINE_BANNER_HEAD: &'static str = r##"(function() {
    function injectBanner() {
        if (document.getElementById('__messenger_offline_banner__')) return;
        var banner = document.createElement('div');
        banner.id = '__messenger_offline_banner__';
        banner.style.cssText = 'display:none;position:fixed;top:0;left:0;right:0;z-index:999999;background:#f0ad4e;color:#fff;text-align:center;padding:8px 16px;font-size:13px;font-weight:500;font-family:-apple-system,BlinkMacSystemFont,Segoe UI,Roboto,sans-serif;';
        banner.textContent = '"##;

/// Offline banner script, after the banner text.
pub const OFFLINE_BANNER_TAIL: &'static str = r##"';
        document.body.prepend(banner);
        function updateBanner(isOffline) {
            banner.style.display = isOffline ? 'block' : 'none';
        }
        window.addEventListener('online',  function() { updateBanner(false); });
        window.addEventListener('offline', function() { updateBanner(true);  });
        if (!navigator.onLine) { updateBanner(true); }
        window.__messenger_updateBanner = updateBanner;
    }
    if (document.readyState === 'loading') {
        document.addEventListener('DOMContentLoaded', injectBanner);
    } else {
        injectBanner();
    }
})();"##;

/// Scrollbar fix script, up to the scrollbar rule.
pub const SCROLLBAR_FIX_HEAD: &'static str = r##"(function() {
    var STYLE_ID = '__messengerx_scrollbar_fix__';

    function createStyle() {
        var style = document.createElement('style');
        style.id = STYLE_ID;
        style.textContent = `
            /* MessengerX — scrollbar fix.
             *
             * macOS: scrollbar-width:none hides the transparent overlay
             *   scrollbar so the chat-theme gradient behind it is invisible.
             * Win/Linux: neutral grey scrollbar-color instead of theme accent.
             * Specificity 2,0,0 beats any Messenger class selector chain.
             */
            *:not(#__msrx__):not(#__msrx__),
            *:not(#__msrx__):not(#__msrx__)::before,
            *:not(#__msrx__):not(#__msrx__)::after {
                "##;

/// Scrollbar fix script, after the scrollbar rule.
pub const SCROLLBAR_FIX_TAIL: &'static str = r##"
            }

            /* Chromium-based WebViews (Windows WebView2, Linux WebKitGTK). */
            ::-webkit-scrollbar { width: 8px; height: 8px; }
            ::-webkit-scrollbar-track { background: transparent !important; }
            ::-webkit-scrollbar-thumb {
                background: rgba(128, 128, 128, 0.45) !important;
                border-radius: 4px;
            }
            ::-webkit-scrollbar-thumb:hover {
                background: rgba(128, 128, 128, 0.65) !important;
            }
            ::-webkit-scrollbar-corner { background: transparent !important; }
        `;
        return style;
    }

    function ensureStyleLast() {
        var parent = document.head || document.documentElement;
        var existing = document.getElementById(STYLE_ID);
        if (existing) {
            if (existing !== parent.lastElementChild) {
                parent.appendChild(existing);
            }
        } else {
            parent.appendChild(createStyle());
        }
    }

    function setup() {
        ensureStyleLast();

        /* Re-append whenever Messenger lazily loads new stylesheets. */
        new MutationObserver(function(mutations) {
            for (var i = 0; i < mutations.length; i++) {
                var added = mutations[i].addedNodes;
                for (var j = 0; j < added.length; j++) {
                    var n = added[j];
                    if (n.nodeType === 1 && n.id !== STYLE_ID) {
                        var tag = n.tagName;
                        if (tag === 'STYLE' || tag === 'LINK') {
                            ensureStyleLast();
                            return;
                        }
                    }
                }
            }
        }).observe(document.head || document.documentElement, { childList: true });

        /* Sync color-scheme with Messenger dark/light mode so native
         * controls (e.g. input fields) use the correct contrast. */
        function syncColorScheme() {
            var isDark = !!document.querySelector('.__fb-dark-mode');
            document.documentElement.style.setProperty(
                'color-scheme', isDark ? 'dark' : 'light', 'important'
            );
        }
        syncColorScheme();
        new MutationObserver(syncColorScheme).observe(
            document.body || document.documentElement,
            { attributes: true, subtree: true, attributeFilter: ['class'] }
        );
    }

    if (document.readyState === 'loading') {
        document.addEventListener('DOMContentLoaded', setup);
    } else {
        setup();
    }
})();
"##;

/// macOS: hide the overlay scrollbar, whose transparent track shows the chat
/// theme's gradient.
pub const MACOS_SCROLLBAR_RULE: &'static str = "scrollbar-width: none !important;";

/// Windows and Linux: keep the scrollbar, in a neutral grey.
pub const OTHER_SCROLLBAR_RULE: &'static str =
    "scrollbar-color: rgba(128,128,128,0.5) transparent !important;";

/// Appearance script, up to the baked-in mode.
pub const APPEARANCE_HEAD: &'static str = r##"(function() {
    try {
        var _rt = sessionStorage.getItem('__mx_appearance');
        var _m = (_rt !== null) ? _rt : '"##;

/// Appearance script, after the baked-in mode.
pub const APPEARANCE_TAIL: &'static str = r##"';
        if (_m === 'dark' || _m === 'light') {
            var _fd = (_m === 'dark');
            var _o = window.matchMedia.bind(window);
            window.matchMedia = function(q) {
                if (typeof q === 'string' && q.indexOf('prefers-color-scheme') !== -1) {
                    var _d = q.indexOf('dark') !== -1;
                    return {
                        matches: _fd ? _d : !_d,
                        media: q,
                        onchange: null,
                        addListener: function() {},
                        removeListener: function() {},
                        addEventListener: function() {},
                        removeEventListener: function() {},
                        dispatchEvent: function() { return false; }
                    };
                }
                return _o(q);
            };
        }
    } catch(_e) {}
})();"##;

/// The offline banner: a hidden fixed banner holding `banner_text` (inserted
/// as it is), shown while the browser reports being offline, with
/// `window.__messenger_updateBanner(isOffline)` exposed to the app.
pub fn build_offline_banner_script(banner_text: &str) -> (r: String)
    ensures
        r@ == OFFLINE_BANNER_HEAD@ + banner_text@ + OFFLINE_BANNER_TAIL@,
{
    let mut s = OFFLINE_BANNER_HEAD.to_owned();
    s.append(banner_text);
    s.append(OFFLINE_BANNER_TAIL);
    s
}

/// The scrollbar fix: on macOS the overlay scrollbar is hidden, elsewhere it
/// is styled neutral grey; the style is kept last in the document head.
pub fn build_scrollbar_fix_script(is_macos: bool) -> (r: String)
    ensures
        r@ == SCROLLBAR_FIX_HEAD@ + (if is_macos {
            MACOS_SCROLLBAR_RULE@
        } else {
            OTHER_SCROLLBAR_RULE@
        }) + SCROLLBAR_FIX_TAIL@,
{
    let rule = if is_macos {
        MACOS_SCROLLBAR_RULE
    } else {
        OTHER_SCROLLBAR_RULE
    };
    let mut s = SCROLLBAR_FIX_HEAD.to_owned();
    s.append(rule);
    s.append(SCROLLBAR_FIX_TAIL);
    s
}

/// The appearance override: `prefers-color-scheme` queries answer the mode
/// from `sessionStorage['__mx_appearance']` when set, else `mode` (inserted
/// as it is); `dark` and `light` force the scheme, anything else leaves the
/// page alone.
pub fn build_appearance_script(mode: &str) -> (r: String)
    ensures
        r@ == APPEARANCE_HEAD@ + mode@ + APPEARANCE_TAIL@,
{
    let mut s = APPEARANCE_HEAD.to_owned();
    s.append(mode);
    s.append(APPEARANCE_TAIL);
    s
}

/// Switches the appearance at run time: stores `mode` as the session override
/// and reloads the page.
pub fn appearance_switch_script(mode: &str) -> (r: String)
    ensures
        r@ == "sessionStorage.setItem('__mx_appearance','"@ + mode@
            + "');window.location.reload();"@,
{
    let mut s = "sessionStorage.setItem('__mx_appearance','".to_owned();
    s.append(mode);
    s.append("');window.location.reload();");
    s
}

} // verus!

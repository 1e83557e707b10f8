//! System locale detection and translated UI strings.
use vstd::prelude::*;
use crate::text::{before_first, index_of_char, opt_view, str_eq, string_from_range, to_chars};

verus! {

/// Translation strings for the application UI (tray, loading screen, offline
/// banner, settings window, notifications).
#[derive(Debug, Clone)]
pub struct Translations {
    /// Default tray tooltip (no unread messages).
    pub tray_tooltip: String,
    /// Tray tooltip format string with `{}` placeholder for the unread count.
    pub tray_tooltip_unread: String,
    /// Loading screen window title.
    pub loading_title: String,
    /// Loading screen body text shown while the page is loading.
    pub loading_text: String,
    /// Loading screen body text shown when offline.
    pub loading_offline: String,
    /// Text displayed in the inline offline-mode banner.
    pub offline_banner: String,
    /// Settings window title and heading.
    pub settings_title: String,
    /// "Account" section heading.
    pub settings_account: String,
    /// "Stay logged in" toggle label.
    pub settings_stay_logged_in: String,
    /// "Display" section heading.
    pub settings_display: String,
    /// "Zoom Level" label.
    pub settings_zoom_level: String,
    /// "Data" section heading.
    pub settings_data: String,
    /// Logout button label.
    pub settings_logout: String,
    /// Hint text below the logout button.
    pub settings_logout_hint: String,
    /// Confirmation dialog message for logout.
    pub settings_logout_confirm: String,
    /// "About" section heading.
    pub settings_about: String,
    /// About section description text.
    pub settings_about_description: String,
    /// "Updates" section heading.
    pub settings_updates: String,
    /// "Check for updates" button label.
    pub settings_check_update: String,
    /// Shown while an update check runs.
    pub settings_checking: String,
    /// Update-available message with `{}` placeholder for the version.
    pub settings_update_available: String,
    /// Shown while an update downloads.
    pub settings_update_downloading: String,
    /// Shown when an update is installed and waits for a restart.
    pub settings_update_ready: String,
    /// Shown when no update is available.
    pub settings_no_update: String,
    /// Shown when an update check fails.
    pub settings_update_error: String,
    /// "Install & Restart" button label.
    pub settings_install_restart: String,
    /// "Show Window" tray menu item label.
    pub tray_show: String,
    /// "Settings" tray menu item label.
    pub tray_settings: String,
    /// "Quit" tray menu item label.
    pub tray_quit: String,
    /// Notification title used when the sender of a new message is unknown.
    pub notification_new_message: String,
}

/// Model of [`Translations`]: each text by its characters.
pub struct TranslationsModel {
    pub tray_tooltip: Seq<char>,
    pub tray_tooltip_unread: Seq<char>,
    pub loading_title: Seq<char>,
    pub loading_text: Seq<char>,
    pub loading_offline: Seq<char>,
    pub offline_banner: Seq<char>,
    pub settings_title: Seq<char>,
    pub settings_account: Seq<char>,
    pub settings_stay_logged_in: Seq<char>,
    pub settings_display: Seq<char>,
    pub settings_zoom_level: Seq<char>,
    pub settings_data: Seq<char>,
    pub settings_logout: Seq<char>,
    pub settings_logout_hint: Seq<char>,
    pub settings_logout_confirm: Seq<char>,
    pub settings_about: Seq<char>,
    pub settings_about_description: Seq<char>,
    pub settings_updates: Seq<char>,
    pub settings_check_update: Seq<char>,
    pub settings_checking: Seq<char>,
    pub settings_update_available: Seq<char>,
    pub settings_update_downloading: Seq<char>,
    pub settings_update_ready: Seq<char>,
    pub settings_no_update: Seq<char>,
    pub settings_update_error: Seq<char>,
    pub settings_install_restart: Seq<char>,
    pub tray_show: Seq<char>,
    pub tray_settings: Seq<char>,
    pub tray_quit: Seq<char>,
    pub notification_new_message: Seq<char>,
}

impl View for Translations {
    type V = TranslationsModel;

    open spec fn view(&self) -> TranslationsModel {
        TranslationsModel {
            tray_tooltip: self.tray_tooltip@,
            tray_tooltip_unread: self.tray_tooltip_unread@,
            loading_title: self.loading_title@,
            loading_text: self.loading_text@,
            loading_offline: self.loading_offline@,
            offline_banner: self.offline_banner@,
            settings_title: self.settings_title@,
            settings_account: self.settings_account@,
            settings_stay_logged_in: self.settings_stay_logged_in@,
            settings_display: self.settings_display@,
            settings_zoom_level: self.settings_zoom_level@,
            settings_data: self.settings_data@,
            settings_logout: self.settings_logout@,
            settings_logout_hint: self.settings_logout_hint@,
            settings_logout_confirm: self.settings_logout_confirm@,
            settings_about: self.settings_about@,
            settings_about_description: self.settings_about_description@,
            settings_updates: self.settings_updates@,
            settings_check_update: self.settings_check_update@,
            settings_checking: self.settings_checking@,
            settings_update_available: self.settings_update_available@,
            settings_update_downloading: self.settings_update_downloading@,
            settings_update_ready: self.settings_update_ready@,
            settings_no_update: self.settings_no_update@,
            settings_update_error: self.settings_update_error@,
            settings_install_restart: self.settings_install_restart@,
            tray_show: self.tray_show@,
            tray_settings: self.tray_settings@,
            tray_quit: self.tray_quit@,
            notification_new_message: self.notification_new_message@,
        }
    }
}

/// The English texts.
pub open spec fn english_model() -> TranslationsModel {
    TranslationsModel {
        tray_tooltip: "Messenger X"@,
        tray_tooltip_unread: "Messenger X ({})"@,
        loading_title: "Messenger X"@,
        loading_text: "Loading..."@,
        loading_offline: "No internet connection. Waiting to reconnect\u{2026}"@,
        offline_banner: "Offline Mode \u{2014} Viewing cached content"@,
        settings_title: "Settings"@,
        settings_account: "Account"@,
        settings_stay_logged_in: "Stay logged in"@,
        settings_display: "Display"@,
        settings_zoom_level: "Zoom Level"@,
        settings_data: "Data"@,
        settings_logout: "Log out & clear all data"@,
        settings_logout_hint: "This will clear your session, cached data, and all settings."@,
        settings_logout_confirm: "Are you sure you want to log out and clear all data?"@,
        settings_about: "About"@,
        settings_about_description: "Cross-platform Messenger client built with Tauri."@,
        settings_updates: "Updates"@,
        settings_check_update: "Check for updates"@,
        settings_checking: "Checking…"@,
        settings_update_available: "Update available: v{}"@,
        settings_update_downloading: "Downloading update…"@,
        settings_update_ready: "Update ready — restart to apply"@,
        settings_no_update: "You're up to date!"@,
        settings_update_error: "Update check failed"@,
        settings_install_restart: "Install & Restart"@,
        tray_show: "Show Window"@,
        tray_settings: "Settings"@,
        tray_quit: "Quit"@,
        notification_new_message: "New message"@,
    }
}

/// The Czech texts.
pub open spec fn czech_model() -> TranslationsModel {
    TranslationsModel {
        tray_tooltip: "Messenger X"@,
        tray_tooltip_unread: "Messenger X ({})"@,
        loading_title: "Messenger X"@,
        loading_text: "Na\u{010d}ít\u{00e1}n\u{00ed}..."@,
        loading_offline: "\u{017d}\u{00e1}dn\u{00e9} p\u{0159}ipojen\u{00ed} k internetu. \u{010c}ek\u{00e1}m na obnoven\u{00ed}\u{2026}"@,
        offline_banner: "Offline re\u{017e}im \u{2014} Zobrazuji ulo\u{017e}en\u{00fd} obsah"@,
        settings_title: "Nastaven\u{00ed}"@,
        settings_account: "\u{00da}\u{010d}et"@,
        settings_stay_logged_in: "Z\u{016f}stat p\u{0159}ihl\u{00e1}\u{0161}en/a"@,
        settings_display: "Zobrazen\u{00ed}"@,
        settings_zoom_level: "\u{00da}rove\u{0148} p\u{0159}ibl\u{00ed}\u{017e}en\u{00ed}"@,
        settings_data: "Data"@,
        settings_logout: "Odhl\u{00e1}sit se a smazat v\u{0161}echna data"@,
        settings_logout_hint: "T\u{00ed}m se vyma\u{017e}e va\u{0161}e relace, mezipam\u{011b}\u{0165} a ve\u{0161}ker\u{00e1} nastaven\u{00ed}."@,
        settings_logout_confirm: "Opravdu se chcete odhl\u{00e1}sit a smazat v\u{0161}echna data?"@,
        settings_about: "O aplikaci"@,
        settings_about_description: "Multiplatformn\u{00ed} Messenger klient postaven\u{00fd} na Tauri."@,
        settings_updates: "Aktualizace"@,
        settings_check_update: "Zkontrolovat aktualizace"@,
        settings_checking: "Kontroluji\u{2026}"@,
        settings_update_available: "Dostupn\u{00e1} aktualizace: v{}"@,
        settings_update_downloading: "Stahov\u{00e1}n\u{00ed} aktualizace\u{2026}"@,
        settings_update_ready: "Aktualizace p\u{0159}ipravena \u{2014} restartujte pro aplikaci"@,
        settings_no_update: "M\u{00e1}te nejnov\u{011b}j\u{0161}\u{00ed} verzi!"@,
        settings_update_error: "Kontrola aktualizac\u{00ed} selhala"@,
        settings_install_restart: "Nainstalovat a restartovat"@,
        tray_show: "Zobrazit okno"@,
        tray_settings: "Nastaven\u{00ed}"@,
        tray_quit: "Ukon\u{010d}it"@,
        notification_new_message: "Nov\u{00e1} zpr\u{00e1}va"@,
    }
}

/// English translation strings.
pub fn english() -> (t: Translations)
    ensures
        t@ == english_model(),
{
    Translations {
        tray_tooltip: String::from_str("Messenger X"),
        tray_tooltip_unread: String::from_str("Messenger X ({})"),
        loading_title: String::from_str("Messenger X"),
        loading_text: String::from_str("Loading..."),
        loading_offline: String::from_str("No internet connection. Waiting to reconnect\u{2026}"),
        offline_banner: String::from_str("Offline Mode \u{2014} Viewing cached content"),
        settings_title: String::from_str("Settings"),
        settings_account: String::from_str("Account"),
        settings_stay_logged_in: String::from_str("Stay logged in"),
        settings_display: String::from_str("Display"),
        settings_zoom_level: String::from_str("Zoom Level"),
        settings_data: String::from_str("Data"),
        settings_logout: String::from_str("Log out & clear all data"),
        settings_logout_hint: String::from_str("This will clear your session, cached data, and all settings."),
        settings_logout_confirm: String::from_str("Are you sure you want to log out and clear all data?"),
        settings_about: String::from_str("About"),
        settings_about_description: String::from_str("Cross-platform Messenger client built with Tauri."),
        settings_updates: String::from_str("Updates"),
        settings_check_update: String::from_str("Check for updates"),
        settings_checking: String::from_str("Checking…"),
        settings_update_available: String::from_str("Update available: v{}"),
        settings_update_downloading: String::from_str("Downloading update…"),
        settings_update_ready: String::from_str("Update ready — restart to apply"),
        settings_no_update: String::from_str("You're up to date!"),
        settings_update_error: String::from_str("Update check failed"),
        settings_install_restart: String::from_str("Install & Restart"),
        tray_show: String::from_str("Show Window"),
        tray_settings: String::from_str("Settings"),
        tray_quit: String::from_str("Quit"),
        notification_new_message: String::from_str("New message"),
    }
}

/// Czech translation strings.
pub fn czech() -> (t: Translations)
    ensures
        t@ == czech_model(),
{
    Translations {
        tray_tooltip: String::from_str("Messenger X"),
        tray_tooltip_unread: String::from_str("Messenger X ({})"),
        loading_title: String::from_str("Messenger X"),
        loading_text: String::from_str("Na\u{010d}ít\u{00e1}n\u{00ed}..."),
        loading_offline: String::from_str("\u{017d}\u{00e1}dn\u{00e9} p\u{0159}ipojen\u{00ed} k internetu. \u{010c}ek\u{00e1}m na obnoven\u{00ed}\u{2026}"),
        offline_banner: String::from_str("Offline re\u{017e}im \u{2014} Zobrazuji ulo\u{017e}en\u{00fd} obsah"),
        settings_title: String::from_str("Nastaven\u{00ed}"),
        settings_account: String::from_str("\u{00da}\u{010d}et"),
        settings_stay_logged_in: String::from_str("Z\u{016f}stat p\u{0159}ihl\u{00e1}\u{0161}en/a"),
        settings_display: String::from_str("Zobrazen\u{00ed}"),
        settings_zoom_level: String::from_str("\u{00da}rove\u{0148} p\u{0159}ibl\u{00ed}\u{017e}en\u{00ed}"),
        settings_data: String::from_str("Data"),
        settings_logout: String::from_str("Odhl\u{00e1}sit se a smazat v\u{0161}echna data"),
        settings_logout_hint: String::from_str("T\u{00ed}m se vyma\u{017e}e va\u{0161}e relace, mezipam\u{011b}\u{0165} a ve\u{0161}ker\u{00e1} nastaven\u{00ed}."),
        settings_logout_confirm: String::from_str("Opravdu se chcete odhl\u{00e1}sit a smazat v\u{0161}echna data?"),
        settings_about: String::from_str("O aplikaci"),
        settings_about_description: String::from_str("Multiplatformn\u{00ed} Messenger klient postaven\u{00fd} na Tauri."),
        settings_updates: String::from_str("Aktualizace"),
        settings_check_update: String::from_str("Zkontrolovat aktualizace"),
        settings_checking: String::from_str("Kontroluji\u{2026}"),
        settings_update_available: String::from_str("Dostupn\u{00e1} aktualizace: v{}"),
        settings_update_downloading: String::from_str("Stahov\u{00e1}n\u{00ed} aktualizace\u{2026}"),
        settings_update_ready: String::from_str("Aktualizace p\u{0159}ipravena \u{2014} restartujte pro aplikaci"),
        settings_no_update: String::from_str("M\u{00e1}te nejnov\u{011b}j\u{0161}\u{00ed} verzi!"),
        settings_update_error: String::from_str("Kontrola aktualizac\u{00ed} selhala"),
        settings_install_restart: String::from_str("Nainstalovat a restartovat"),
        tray_show: String::from_str("Zobrazit okno"),
        tray_settings: String::from_str("Nastaven\u{00ed}"),
        tray_quit: String::from_str("Ukon\u{010d}it"),
        notification_new_message: String::from_str("Nov\u{00e1} zpr\u{00e1}va"),
    }
}

/// The translation strings for `locale`; every locale other than `"cs"`
/// falls back to English.
pub fn get_translations(locale: &str) -> (t: Translations)
    ensures
        t@ == (if locale@ == "cs"@ {
            czech_model()
        } else {
            english_model()
        }),
{
    if str_eq(locale, "cs") {
        czech()
    } else {
        english()
    }
}

/// Whether every text of a translation table is non-empty.
pub open spec fn all_non_empty(m: TranslationsModel) -> bool {
    m.tray_tooltip.len() > 0
    && m.tray_tooltip_unread.len() > 0
    && m.loading_title.len() > 0
    && m.loading_text.len() > 0
    && m.loading_offline.len() > 0
    && m.offline_banner.len() > 0
    && m.settings_title.len() > 0
    && m.settings_account.len() > 0
    && m.settings_stay_logged_in.len() > 0
    && m.settings_display.len() > 0
    && m.settings_zoom_level.len() > 0
    && m.settings_data.len() > 0
    && m.settings_logout.len() > 0
    && m.settings_logout_hint.len() > 0
    && m.settings_logout_confirm.len() > 0
    && m.settings_about.len() > 0
    && m.settings_about_description.len() > 0
    && m.settings_updates.len() > 0
    && m.settings_check_update.len() > 0
    && m.settings_checking.len() > 0
    && m.settings_update_available.len() > 0
    && m.settings_update_downloading.len() > 0
    && m.settings_update_ready.len() > 0
    && m.settings_no_update.len() > 0
    && m.settings_update_error.len() > 0
    && m.settings_install_restart.len() > 0
    && m.tray_show.len() > 0
    && m.tray_settings.len() > 0
    && m.tray_quit.len() > 0
    && m.notification_new_message.len() > 0
}

/// Whether `s` contains the `{}` placeholder.
pub open spec fn has_placeholder(s: Seq<char>) -> bool {
    exists|i: int| crate::text::has_at(s, i, "{}"@)
}

/// Whatever the locale, the translation table has no empty text, and the
/// update-available message and the unread tooltip carry the `{}` placeholder.
pub proof fn lemma_translation_tables_well_formed(locale: Seq<char>)
    ensures
        ({
            let m = if locale == "cs"@ {
                czech_model()
            } else {
                english_model()
            };
            all_non_empty(m) && has_placeholder(m.settings_update_available) && has_placeholder(
                m.tray_tooltip_unread,
            )
        }),
{
    reveal_strlit("About");
    reveal_strlit("Account");
    reveal_strlit("Aktualizace p\u{0159}ipravena \u{2014} restartujte pro aplikaci");
    reveal_strlit("Aktualizace");
    reveal_strlit("Are you sure you want to log out and clear all data?");
    reveal_strlit("Check for updates");
    reveal_strlit("Checking…");
    reveal_strlit("Cross-platform Messenger client built with Tauri.");
    reveal_strlit("Data");
    reveal_strlit("Display");
    reveal_strlit("Dostupn\u{00e1} aktualizace: v{}");
    reveal_strlit("Downloading update…");
    reveal_strlit("Install & Restart");
    reveal_strlit("Kontrola aktualizac\u{00ed} selhala");
    reveal_strlit("Kontroluji\u{2026}");
    reveal_strlit("Loading...");
    reveal_strlit("Log out & clear all data");
    reveal_strlit("M\u{00e1}te nejnov\u{011b}j\u{0161}\u{00ed} verzi!");
    reveal_strlit("Messenger X ({})");
    reveal_strlit("Messenger X");
    reveal_strlit("Multiplatformn\u{00ed} Messenger klient postaven\u{00fd} na Tauri.");
    reveal_strlit("Na\u{010d}ít\u{00e1}n\u{00ed}...");
    reveal_strlit("Nainstalovat a restartovat");
    reveal_strlit("Nastaven\u{00ed}");
    reveal_strlit("New message");
    reveal_strlit("No internet connection. Waiting to reconnect\u{2026}");
    reveal_strlit("Nov\u{00e1} zpr\u{00e1}va");
    reveal_strlit("O aplikaci");
    reveal_strlit("Odhl\u{00e1}sit se a smazat v\u{0161}echna data");
    reveal_strlit("Offline Mode \u{2014} Viewing cached content");
    reveal_strlit("Offline re\u{017e}im \u{2014} Zobrazuji ulo\u{017e}en\u{00fd} obsah");
    reveal_strlit("Opravdu se chcete odhl\u{00e1}sit a smazat v\u{0161}echna data?");
    reveal_strlit("Quit");
    reveal_strlit("Settings");
    reveal_strlit("Show Window");
    reveal_strlit("Stahov\u{00e1}n\u{00ed} aktualizace\u{2026}");
    reveal_strlit("Stay logged in");
    reveal_strlit("T\u{00ed}m se vyma\u{017e}e va\u{0161}e relace, mezipam\u{011b}\u{0165} a ve\u{0161}ker\u{00e1} nastaven\u{00ed}.");
    reveal_strlit("This will clear your session, cached data, and all settings.");
    reveal_strlit("Ukon\u{010d}it");
    reveal_strlit("Update available: v{}");
    reveal_strlit("Update check failed");
    reveal_strlit("Update ready — restart to apply");
    reveal_strlit("Updates");
    reveal_strlit("You're up to date!");
    reveal_strlit("Z\u{016f}stat p\u{0159}ihl\u{00e1}\u{0161}en/a");
    reveal_strlit("Zkontrolovat aktualizace");
    reveal_strlit("Zobrazen\u{00ed}");
    reveal_strlit("Zobrazit okno");
    reveal_strlit("Zoom Level");
    reveal_strlit("\u{00da}\u{010d}et");
    reveal_strlit("\u{00da}rove\u{0148} p\u{0159}ibl\u{00ed}\u{017e}en\u{00ed}");
    reveal_strlit("\u{017d}\u{00e1}dn\u{00e9} p\u{0159}ipojen\u{00ed} k internetu. \u{010c}ek\u{00e1}m na obnoven\u{00ed}\u{2026}");
    reveal_strlit("{}");
    assert(english_model().settings_update_available.subrange(19, 21) =~= "{}"@);
    assert(crate::text::has_at(english_model().settings_update_available, 19, "{}"@));
    assert(czech_model().settings_update_available.subrange(23, 25) =~= "{}"@);
    assert(crate::text::has_at(czech_model().settings_update_available, 23, "{}"@));
    assert(english_model().tray_tooltip_unread.subrange(13, 15) =~= "{}"@);
    assert(crate::text::has_at(english_model().tray_tooltip_unread, 13, "{}"@));
}

/// `sys_locale::get_locale`: the locale tag the operating system reports
/// (such as `"cs-CZ"`), if any.  Nothing is stated of the value: it comes
/// from the environment of the running process.
#[verifier::external_body]
fn system_locale() -> Option<String> {
    sys_locale::get_locale()
}

/// The supported locale codes: `"en"` and `"cs"`.
pub open spec fn is_supported_locale(lang: Seq<char>) -> bool {
    lang == "en"@ || lang == "cs"@
}

/// The supported locale codes, English first.
pub fn supported_locales() -> (r: Vec<&'static str>)
    ensures
        r@.len() == 2,
        r@[0]@ == "en"@,
        r@[1]@ == "cs"@,
        forall|i: int| 0 <= i < r@.len() ==> is_supported_locale(#[trigger] r@[i]@),
{
    vec!["en", "cs"]
}

/// The locale chosen for an operating-system locale tag: the language part
/// before the first `-` when it is supported, English otherwise (also when no
/// tag is available).
pub open spec fn locale_for_tag(sys: Option<Seq<char>>) -> Seq<char> {
    let tag = match sys {
        Some(s) => s,
        None => "en"@,
    };
    let lang = before_first(tag, '-');
    if is_supported_locale(lang) {
        lang
    } else {
        "en"@
    }
}

/// Matches an operating-system locale tag against the supported locales.
pub fn locale_from_system(sys: Option<String>) -> (r: String)
    ensures
        r@ == locale_for_tag(opt_view(sys)),
{
    let tag = match sys {
        Some(s) => s,
        None => String::from_str("en"),
    };
    let chars = to_chars(tag.as_str());
    let i = index_of_char(&chars, '-');
    let lang = string_from_range(&chars, 0, i);
    assert(chars@.subrange(0, i as int) =~= before_first(chars@, '-'));
    if str_eq(lang.as_str(), "en") || str_eq(lang.as_str(), "cs") {
        lang
    } else {
        String::from_str("en")
    }
}

/// Detects the system locale and returns the best matching supported code,
/// falling back to `"en"`.
pub fn detect_locale() -> (r: String)
    ensures
        is_supported_locale(r@),
{
    let sys = system_locale();
    let r = locale_from_system(sys);
    r
}

} // verus!

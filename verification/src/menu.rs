//! The tray and app menus: what a menu item's id asks for, and what logging
//! out resets.
use vstd::prelude::*;
use crate::text::{has_at, parse_u32, parse_u32_spec, starts_with, str_eq, to_chars};

verus! {

/// What a menu item asks for.
#[derive(Debug, Clone, PartialEq, Eq)]
pub enum MenuAction {
    /// Show, unminimize and focus the main window.
    ShowWindow,
    /// Save the item's check state as "stay logged in".
    SetStayLoggedIn,
    /// Save the item's check state as "notifications enabled".
    SetNotificationsEnabled,
    /// Save the item's check state as "notification sound".
    SetNotificationSound,
    /// Switch to the given appearance mode.
    SetAppearance(String),
    /// Apply and save the item's check state as "start at login".
    SetAutostart,
    /// Save the item's check state as "start minimized".
    SetStartMinimized,
    /// Save the item's check state as "check for updates automatically".
    SetAutoUpdate,
    /// Apply and save the zoom, in percent.
    SetZoom(u32),
    /// Check for an update now.
    CheckUpdate,
    /// Open the log file.
    ViewLogs,
    /// Delete the log files.
    ClearLogs,
    /// Log out and reset everything.
    Logout,
    /// Quit the app.
    Quit,
    /// Nothing to do.
    Ignore,
}

/// Model of [`MenuAction`].
pub enum MenuActionModel {
    ShowWindow,
    SetStayLoggedIn,
    SetNotificationsEnabled,
    SetNotificationSound,
    SetAppearance(Seq<char>),
    SetAutostart,
    SetStartMinimized,
    SetAutoUpdate,
    SetZoom(u32),
    CheckUpdate,
    ViewLogs,
    ClearLogs,
    Logout,
    Quit,
    Ignore,
}

impl View for MenuAction {
    type V = MenuActionModel;

    open spec fn view(&self) -> MenuActionModel {
        match self {
            MenuAction::ShowWindow => MenuActionModel::ShowWindow,
            MenuAction::SetStayLoggedIn => MenuActionModel::SetStayLoggedIn,
            MenuAction::SetNotificationsEnabled => MenuActionModel::SetNotificationsEnabled,
            MenuAction::SetNotificationSound => MenuActionModel::SetNotificationSound,
            MenuAction::SetAppearance(m) => MenuActionModel::SetAppearance(m@),
            MenuAction::SetAutostart => MenuActionModel::SetAutostart,
            MenuAction::SetStartMinimized => MenuActionModel::SetStartMinimized,
            MenuAction::SetAutoUpdate => MenuActionModel::SetAutoUpdate,
            MenuAction::SetZoom(p) => MenuActionModel::SetZoom(*p),
            MenuAction::CheckUpdate => MenuActionModel::CheckUpdate,
            MenuAction::ViewLogs => MenuActionModel::ViewLogs,
            MenuAction::ClearLogs => MenuActionModel::ClearLogs,
            MenuAction::Logout => MenuActionModel::Logout,
            MenuAction::Quit => MenuActionModel::Quit,
            MenuAction::Ignore => MenuActionModel::Ignore,
        }
    }
}

/// The meaning of a menu id: the fixed ids of the menu items; any id that
/// starts with `appearance_` switches to the mode after the prefix; any id
/// `zoom_N` with a number N sets that zoom; anything else does nothing.
pub open spec fn menu_action_spec(id: Seq<char>) -> MenuActionModel {
    if id == "tray_show"@ {
        MenuActionModel::ShowWindow
    } else if id == "stay_logged_in"@ {
        MenuActionModel::SetStayLoggedIn
    } else if id == "notifications_enabled"@ {
        MenuActionModel::SetNotificationsEnabled
    } else if id == "notification_sound"@ {
        MenuActionModel::SetNotificationSound
    } else if has_at(id, 0, "appearance_"@) {
        MenuActionModel::SetAppearance(id.skip(11))
    } else if id == "autostart"@ {
        MenuActionModel::SetAutostart
    } else if id == "start_minimized"@ {
        MenuActionModel::SetStartMinimized
    } else if id == "auto_update"@ {
        MenuActionModel::SetAutoUpdate
    } else if has_at(id, 0, "zoom_"@) {
        match parse_u32_spec(id.skip(5)) {
            Some(p) => MenuActionModel::SetZoom(p),
            None => MenuActionModel::Ignore,
        }
    } else if id == "check_update"@ {
        MenuActionModel::CheckUpdate
    } else if id == "view_logs"@ {
        MenuActionModel::ViewLogs
    } else if id == "clear_logs"@ {
        MenuActionModel::ClearLogs
    } else if id == "logout"@ {
        MenuActionModel::Logout
    } else if id == "tray_quit"@ {
        MenuActionModel::Quit
    } else {
        MenuActionModel::Ignore
    }
}

/// What the menu item with this id asks for.
pub fn menu_action(id: &str) -> (r: MenuAction)
    ensures
        r@ == menu_action_spec(id@),
{
    proof {
        reveal_strlit("appearance_");
        reveal_strlit("zoom_");
    }
    if str_eq(id, "tray_show") {
        MenuAction::ShowWindow
    } else if str_eq(id, "stay_logged_in") {
        MenuAction::SetStayLoggedIn
    } else if str_eq(id, "notifications_enabled") {
        MenuAction::SetNotificationsEnabled
    } else if str_eq(id, "notification_sound") {
        MenuAction::SetNotificationSound
    } else if starts_with(id, "appearance_") {
        let v = to_chars(id);
        MenuAction::SetAppearance(crate::text::string_from_range(&v, 11, v.len()))
    } else if str_eq(id, "autostart") {
        MenuAction::SetAutostart
    } else if str_eq(id, "start_minimized") {
        MenuAction::SetStartMinimized
    } else if str_eq(id, "auto_update") {
        MenuAction::SetAutoUpdate
    } else if starts_with(id, "zoom_") {
        let v = to_chars(id);
        assert(v@.subrange(5, v@.len() as int) =~= id@.skip(5));
        match parse_u32(&v, 5, v.len()) {
            Some(p) => MenuAction::SetZoom(p),
            None => MenuAction::Ignore,
        }
    } else if str_eq(id, "check_update") {
        MenuAction::CheckUpdate
    } else if str_eq(id, "view_logs") {
        MenuAction::ViewLogs
    } else if str_eq(id, "clear_logs") {
        MenuAction::ClearLogs
    } else if str_eq(id, "logout") {
        MenuAction::Logout
    } else if str_eq(id, "tray_quit") {
        MenuAction::Quit
    } else {
        MenuAction::Ignore
    }
}

/// Which appearance items (system, dark, light) are ticked for a mode.
pub fn appearance_checks(mode: &str) -> (r: (bool, bool, bool))
    ensures
        r == (mode@ == "system"@, mode@ == "dark"@, mode@ == "light"@),
{
    (str_eq(mode, "system"), str_eq(mode, "dark"), str_eq(mode, "light"))
}

/// One step of logging out.
#[derive(Debug, Clone, Copy, PartialEq, Eq)]
pub enum LogoutStep {
    /// Delete the offline snapshots.
    ClearSnapshots,
    /// Save the default settings.
    ResetSettings,
    /// Set the menu's toggles to the defaults (stay logged in, notifications,
    /// sound, start minimized, automatic updates).
    ResetToggles,
    /// Zoom back to 100 % and check its menu item.
    ResetZoom,
    /// Follow the system appearance again.
    ResetAppearance,
    /// Stop starting at login.
    DisableAutostart,
    /// Run the logout script in the page (logging a failure).
    ClearPageData,
    /// Show and focus the main window.
    ShowWindow,
}

/// The steps of logging out, in order; the tray menu and the macOS app menu
/// both run them.
pub open spec fn logout_plan_spec() -> Seq<LogoutStep> {
    seq![
        LogoutStep::ClearSnapshots,
        LogoutStep::ResetSettings,
        LogoutStep::ResetToggles,
        LogoutStep::ResetZoom,
        LogoutStep::ResetAppearance,
        LogoutStep::DisableAutostart,
        LogoutStep::ClearPageData,
        LogoutStep::ShowWindow,
    ]
}

/// The steps of logging out.
pub fn logout_plan() -> (r: Vec<LogoutStep>)
    ensures
        r@ == logout_plan_spec(),
{
    let r = vec![
        LogoutStep::ClearSnapshots,
        LogoutStep::ResetSettings,
        LogoutStep::ResetToggles,
        LogoutStep::ResetZoom,
        LogoutStep::ResetAppearance,
        LogoutStep::DisableAutostart,
        LogoutStep::ClearPageData,
        LogoutStep::ShowWindow,
    ];
    assert(r@ =~= logout_plan_spec());
    r
}

/// A way of opening the log on Linux.
#[derive(Debug, Clone, Copy, PartialEq, Eq)]
pub enum LogViewer {
    /// Open the log (through a `.txt` link) with the desktop's default app.
    DefaultApp,
    /// Open `less` on the log in a terminal: `program flag less LOG`.
    Terminal { program: &'static str, flag: &'static str },
    /// Open the log directory in the file manager.
    Directory,
}

/// The terminals tried, in order, with the flag that runs a command.
pub open spec fn terminals_spec() -> Seq<(Seq<char>, Seq<char>)> {
    seq![
        ("x-terminal-emulator"@, "-e"@),
        ("xterm"@, "-e"@),
        ("gnome-terminal"@, "--"@),
        ("xfce4-terminal"@, "-e"@),
        ("konsole"@, "-e"@),
        ("mate-terminal"@, "-e"@),
        ("lxterminal"@, "-e"@),
        ("tilix"@, "-e"@),
    ]
}

/// Model of a way of opening the log.
pub open spec fn viewer_view(v: LogViewer) -> (int, Seq<char>, Seq<char>) {
    match v {
        LogViewer::DefaultApp => (0, Seq::empty(), Seq::empty()),
        LogViewer::Terminal { program, flag } => (1, program@, flag@),
        LogViewer::Directory => (2, Seq::empty(), Seq::empty()),
    }
}

/// The ways of opening the log, tried in order until one starts: when the
/// log exists, the default app and then each terminal; last, the directory.
pub open spec fn log_viewers_spec(file_exists: bool) -> Seq<(int, Seq<char>, Seq<char>)> {
    let dir = seq![(2int, Seq::<char>::empty(), Seq::<char>::empty())];
    if file_exists {
        seq![(0int, Seq::<char>::empty(), Seq::<char>::empty())] + terminals_spec().map_values(
            |t: (Seq<char>, Seq<char>)| (1int, t.0, t.1),
        ) + dir
    } else {
        dir
    }
}

/// The ways of opening the log, in the order they are tried.
pub fn log_viewer_attempts(file_exists: bool) -> (r: Vec<LogViewer>)
    ensures
        r@.map_values(|v: LogViewer| viewer_view(v)) == log_viewers_spec(file_exists),
{
    let mut r: Vec<LogViewer> = Vec::new();
    if file_exists {
        r.push(LogViewer::DefaultApp);
        r.push(LogViewer::Terminal { program: "x-terminal-emulator", flag: "-e" });
        r.push(LogViewer::Terminal { program: "xterm", flag: "-e" });
        r.push(LogViewer::Terminal { program: "gnome-terminal", flag: "--" });
        r.push(LogViewer::Terminal { program: "xfce4-terminal", flag: "-e" });
        r.push(LogViewer::Terminal { program: "konsole", flag: "-e" });
        r.push(LogViewer::Terminal { program: "mate-terminal", flag: "-e" });
        r.push(LogViewer::Terminal { program: "lxterminal", flag: "-e" });
        r.push(LogViewer::Terminal { program: "tilix", flag: "-e" });
    }
    r.push(LogViewer::Directory);
    assert(r@.map_values(|v: LogViewer| viewer_view(v)) =~= log_viewers_spec(file_exists));
    r
}

/// Logging out runs every reset step exactly once: the snapshots are
/// cleared first, the saved settings, the menu toggles, the zoom, the
/// appearance and the login item are all reset, the page data is cleared,
/// and the window is shown last.
pub proof fn lemma_logout_resets_everything(step: LogoutStep)
    ensures
        logout_plan_spec().contains(step),
        logout_plan_spec().len() == 8,
        logout_plan_spec()[0] == LogoutStep::ClearSnapshots,
        logout_plan_spec()[7] == LogoutStep::ShowWindow,
        forall|i: int, j: int|
            0 <= i < j < logout_plan_spec().len() ==> logout_plan_spec()[i]
                != logout_plan_spec()[j],
{
    let p = logout_plan_spec();
    let i: int = match step {
        LogoutStep::ClearSnapshots => 0,
        LogoutStep::ResetSettings => 1,
        LogoutStep::ResetToggles => 2,
        LogoutStep::ResetZoom => 3,
        LogoutStep::ResetAppearance => 4,
        LogoutStep::DisableAutostart => 5,
        LogoutStep::ClearPageData => 6,
        LogoutStep::ShowWindow => 7,
    };
    assert(p[i] == step);
}

} // verus!

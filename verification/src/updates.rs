//! How the app answers an update check, started by the user from the menu
//! or automatically at start.
use vstd::prelude::*;
use crate::notify::Platform;

verus! {

/// What an update check found.
#[derive(Debug, Clone, PartialEq, Eq)]
pub enum UpdateCheck {
    /// A newer version is available.
    Available(String),
    /// The app is up to date.
    UpToDate,
    /// The check itself failed.
    CheckFailed,
    /// The updater could not be set up.
    UpdaterFailed,
}

/// A notification shown about an update.
#[derive(Debug, Clone, Copy, PartialEq, Eq)]
pub enum UpdateNotice {
    /// No newer version exists.
    UpToDate,
    /// The check failed.
    CheckFailed,
    /// The updater could not be set up.
    UpdaterFailed,
    /// The update was installed; the app restarts.
    Installed,
    /// Installing the update failed.
    InstallFailed,
}

/// How to answer a check.
#[derive(Debug, Clone, PartialEq, Eq)]
pub struct UpdateReaction {
    /// Record the time of this check.
    pub save_timestamp: bool,
    /// Offer this version in a dialog.
    pub offer_version: Option<String>,
    /// Install when the user accepts the offer (never on macOS, where the
    /// build is not notarized).
    pub install_on_accept: bool,
    /// Show this notification.
    pub notice: Option<UpdateNotice>,
}

/// The answer to a check: a found version is offered and the check time
/// recorded; an up-to-date check records the time and, when the user asked,
/// says so; a failure is reported only when the user asked.
pub open spec fn reaction_spec(check: UpdateCheck, manual: bool, p: Platform) -> (
    bool,
    Option<Seq<char>>,
    bool,
    Option<UpdateNotice>,
) {
    let install = p != Platform::MacOs;
    match check {
        UpdateCheck::Available(v) => (true, Some(v@), install, None),
        UpdateCheck::UpToDate => (
            true,
            None,
            install,
            if manual {
                Some(UpdateNotice::UpToDate)
            } else {
                None
            },
        ),
        UpdateCheck::CheckFailed => (
            false,
            None,
            install,
            if manual {
                Some(UpdateNotice::CheckFailed)
            } else {
                None
            },
        ),
        UpdateCheck::UpdaterFailed => (
            false,
            None,
            install,
            if manual {
                Some(UpdateNotice::UpdaterFailed)
            } else {
                None
            },
        ),
    }
}

/// Model of a reaction.
pub open spec fn reaction_view(r: UpdateReaction) -> (bool, Option<Seq<char>>, bool, Option<UpdateNotice>) {
    (
        r.save_timestamp,
        match r.offer_version {
            Some(v) => Some(v@),
            None => None,
        },
        r.install_on_accept,
        r.notice,
    )
}

/// How to answer an update check.
pub fn update_check_reaction(check: &UpdateCheck, manual: bool, platform: Platform) -> (r:
    UpdateReaction)
    ensures
        reaction_view(r) == reaction_spec(*check, manual, platform),
{
    let install = match platform {
        Platform::MacOs => false,
        _ => true,
    };
    match check {
        UpdateCheck::Available(v) => UpdateReaction {
            save_timestamp: true,
            offer_version: Some(v.clone()),
            install_on_accept: install,
            notice: None,
        },
        UpdateCheck::UpToDate => UpdateReaction {
            save_timestamp: true,
            offer_version: None,
            install_on_accept: install,
            notice: if manual {
                Some(UpdateNotice::UpToDate)
            } else {
                None
            },
        },
        UpdateCheck::CheckFailed => UpdateReaction {
            save_timestamp: false,
            offer_version: None,
            install_on_accept: install,
            notice: if manual {
                Some(UpdateNotice::CheckFailed)
            } else {
                None
            },
        },
        UpdateCheck::UpdaterFailed => UpdateReaction {
            save_timestamp: false,
            offer_version: None,
            install_on_accept: install,
            notice: if manual {
                Some(UpdateNotice::UpdaterFailed)
            } else {
                None
            },
        },
    }
}

/// After installing: on success a notice and a restart, on failure a notice.
pub fn install_reaction(installed: bool) -> (r: (UpdateNotice, bool))
    ensures
        r == if installed {
            (UpdateNotice::Installed, true)
        } else {
            (UpdateNotice::InstallFailed, false)
        },
{
    if installed {
        (UpdateNotice::Installed, true)
    } else {
        (UpdateNotice::InstallFailed, false)
    }
}

/// A check records its time exactly when it reached the update server, so
/// a failed check is retried at the next start.
pub proof fn lemma_failures_do_not_record(check: UpdateCheck, manual: bool, p: Platform)
    ensures
        reaction_spec(check, manual, p).0 <==> (check is Available || check is UpToDate),
{
}

/// The automatic check at start never shows a notification.
pub proof fn lemma_startup_check_is_quiet(check: UpdateCheck, p: Platform)
    ensures
        reaction_spec(check, false, p).3 is None,
{
}

/// Accepting an offered update installs it on every platform but macOS,
/// whatever the check found and whoever started it.
pub proof fn lemma_install_on_accept_except_macos(check: UpdateCheck, manual: bool, p: Platform)
    ensures
        reaction_spec(check, manual, p).2 == !(p is MacOs),
        reaction_spec(check, manual, Platform::Windows).2,
        reaction_spec(check, manual, Platform::Linux).2,
        !reaction_spec(check, manual, Platform::MacOs).2,
{
}

/// A version is offered exactly when the check found one, and it is that
/// version; an offer never comes with a notice.
pub proof fn lemma_offer_is_the_found_version(check: UpdateCheck, manual: bool, p: Platform)
    ensures
        reaction_spec(check, manual, p).1 is Some <==> check is Available,
        check matches UpdateCheck::Available(v) ==> reaction_spec(check, manual, p).1 == Some(v@)
            && reaction_spec(check, manual, p).3 is None,
{
}

} // verus!

use messengerx::notify::Platform;
use messengerx::updates::{install_reaction, update_check_reaction, UpdateCheck, UpdateNotice, UpdateReaction};

#[test]
fn manual_check_reports_everything() {
    let r = update_check_reaction(&UpdateCheck::Available("1.5.0".into()), true, Platform::Linux);
    assert_eq!(
        r,
        UpdateReaction {
            save_timestamp: true,
            offer_version: Some("1.5.0".into()),
            install_on_accept: true,
            notice: None
        }
    );
    let r = update_check_reaction(&UpdateCheck::UpToDate, true, Platform::Windows);
    assert!(r.save_timestamp);
    assert_eq!(r.notice, Some(UpdateNotice::UpToDate));
    let r = update_check_reaction(&UpdateCheck::CheckFailed, true, Platform::Linux);
    assert!(!r.save_timestamp);
    assert_eq!(r.notice, Some(UpdateNotice::CheckFailed));
    let r = update_check_reaction(&UpdateCheck::UpdaterFailed, true, Platform::Linux);
    assert_eq!(r.notice, Some(UpdateNotice::UpdaterFailed));
}

#[test]
fn startup_check_is_quiet_and_macos_never_installs() {
    let r = update_check_reaction(&UpdateCheck::UpToDate, false, Platform::Linux);
    assert!(r.save_timestamp);
    assert_eq!(r.notice, None);
    let r = update_check_reaction(&UpdateCheck::CheckFailed, false, Platform::Linux);
    assert_eq!(r.notice, None);
    assert!(!r.save_timestamp);
    let r = update_check_reaction(&UpdateCheck::Available("2.0".into()), false, Platform::MacOs);
    assert!(!r.install_on_accept);
    assert_eq!(install_reaction(true), (UpdateNotice::Installed, true));
    assert_eq!(install_reaction(false), (UpdateNotice::InstallFailed, false));
}

use perfwindow::update_modal::{
    failure_heading, modal_step, ModalAction, ModalEvent, ModalPhase, MISSING_ASSET_MESSAGE,
};

fn downloading(bytes: u64, total: u64) -> ModalPhase {
    ModalPhase::Downloading { bytes, total }
}

#[test]
fn update_now_starts_a_download_of_the_installer_size() {
    let (phase, action) = modal_step(ModalPhase::Confirm, ModalEvent::UpdateNow(Some(4_096)));
    assert!(matches!(phase, ModalPhase::Downloading { bytes: 0, total: 4_096 }));
    assert_eq!(action, ModalAction::StartDownload);
}

#[test]
fn update_now_without_an_installer_fails_at_once() {
    let (phase, action) = modal_step(ModalPhase::Confirm, ModalEvent::UpdateNow(None));
    match phase {
        ModalPhase::Failed { message } => assert_eq!(message, MISSING_ASSET_MESSAGE),
        other => panic!("unexpected {other:?}"),
    }
    assert_eq!(action, ModalAction::Stay);
}

#[test]
fn progress_moves_only_the_download_screen() {
    let (phase, action) = modal_step(downloading(0, 10), ModalEvent::Progress { bytes: 4, total: 10 });
    assert!(matches!(phase, ModalPhase::Downloading { bytes: 4, total: 10 }));
    assert_eq!(action, ModalAction::Stay);
    let (phase, _) = modal_step(ModalPhase::Confirm, ModalEvent::Progress { bytes: 4, total: 10 });
    assert!(matches!(phase, ModalPhase::Confirm));
}

#[test]
fn cancelling_the_download_returns_to_confirm() {
    let (phase, action) = modal_step(downloading(3, 10), ModalEvent::CancelDownload);
    assert!(matches!(phase, ModalPhase::Confirm));
    assert_eq!(action, ModalAction::CancelDownload);
}

#[test]
fn closing_or_losing_the_release_closes_and_resets() {
    let (phase, action) = modal_step(downloading(3, 10), ModalEvent::Close);
    assert!(matches!(phase, ModalPhase::Confirm));
    assert_eq!(action, ModalAction::CloseDialog);
    let (phase, action) = modal_step(downloading(3, 10), ModalEvent::ReleaseGone);
    assert!(matches!(phase, ModalPhase::Confirm));
    assert_eq!(action, ModalAction::CloseDialog);
}

#[test]
fn failures_show_their_screen_and_try_again_returns_to_confirm() {
    let (phase, _) = modal_step(downloading(3, 10), ModalEvent::DownloadFailed("HTTP status 404".into()));
    assert!(matches!(&phase, ModalPhase::Failed { message } if message == "HTTP status 404"));
    let (phase, action) = modal_step(phase, ModalEvent::TryAgain);
    assert!(matches!(phase, ModalPhase::Confirm));
    assert_eq!(action, ModalAction::Stay);
    let (phase, _) = modal_step(downloading(10, 10), ModalEvent::LaunchFailed("denied".into()));
    assert!(matches!(&phase, ModalPhase::LaunchFailed { message } if message == "denied"));
}

#[test]
fn failure_headings_do_not_blame_the_download_for_a_launch() {
    assert_eq!(
        failure_heading(true),
        ("\u{2715} COULD NOT START INSTALLER", "The installer downloaded but could not be started:")
    );
    assert_eq!(failure_heading(false), ("\u{2715} DOWNLOAD FAILED", "Could not download the installer:"));
}

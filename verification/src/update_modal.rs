//! The update dialog's screens: confirm, download progress, and the two
//! failure screens, with what each user action or download outcome moves
//! the dialog to.
use vstd::prelude::*;

verus! {

/// Which screen the update dialog shows.
#[derive(Debug, Clone)]
pub enum ModalPhase {
    /// The release notes, with "Cancel" and "Update now".
    Confirm,
    /// The download in progress: `bytes` of `total` so far.
    Downloading { bytes: u64, total: u64 },
    /// A failed download, with "Try again" and "Open in browser".
    Failed { message: String },
    /// An installer that downloaded but could not be started; kept apart
    /// from `Failed` so the headline does not blame the download.
    LaunchFailed { message: String },
}

/// Something that happened to the open update dialog.
#[derive(Debug, Clone)]
pub enum ModalEvent {
    /// The release the dialog was opened for is no longer the available
    /// one (a later check replaced it).
    ReleaseGone,
    /// The download's counters as read for this frame.
    Progress { bytes: u64, total: u64 },
    /// "Update now": the installer's size, or `None` when the release has
    /// no installer asset.
    UpdateNow(Option<u64>),
    /// "Cancel" on the download screen.
    CancelDownload,
    /// "Try again" on a failure screen.
    TryAgain,
    /// The dialog was dismissed: its close button, "Cancel" on the confirm
    /// screen, or "Open in browser".
    Close,
    /// The download ended in failure, for this reason.
    DownloadFailed(String),
    /// The downloaded installer could not be started, for this reason.
    LaunchFailed(String),
}

/// What the window must do besides showing the new screen.
#[derive(Debug, Clone, Copy, PartialEq, Eq, Structural)]
pub enum ModalAction {
    /// Nothing.
    Stay,
    /// Start a fresh download attempt of the installer.
    StartDownload,
    /// Cancel the download in flight; the dialog stays open.
    CancelDownload,
    /// Cancel any download in flight and close the dialog.
    CloseDialog,
}

/// The message of the failure screen for a release without an installer.
pub const MISSING_ASSET_MESSAGE: &'static str = "release is missing the installer asset";

/// The dialog's next screen and the action that goes with it, after
/// `event` on screen `phase`. Closing or losing the release returns the
/// dialog to its confirm screen for the next time it opens; progress only
/// moves the download screen.
pub fn modal_step(phase: ModalPhase, event: ModalEvent) -> (r: (ModalPhase, ModalAction))
    ensures
        match event {
            ModalEvent::ReleaseGone => r.0 is Confirm && r.1 == ModalAction::CloseDialog,
            ModalEvent::Progress { bytes, total } => {
                &&& r.1 == ModalAction::Stay
                &&& phase is Downloading ==> (r.0 matches ModalPhase::Downloading { bytes: b, total: t }
                    && b == bytes && t == total)
                &&& !(phase is Downloading) ==> r.0 == phase
            },
            ModalEvent::UpdateNow(None) => {
                &&& r.1 == ModalAction::Stay
                &&& r.0 matches ModalPhase::Failed { message } && message@ == MISSING_ASSET_MESSAGE@
            },
            ModalEvent::UpdateNow(Some(size)) => {
                &&& r.1 == ModalAction::StartDownload
                &&& r.0 matches ModalPhase::Downloading { bytes, total } && bytes == 0 && total == size
            },
            ModalEvent::CancelDownload => r.0 is Confirm && r.1 == ModalAction::CancelDownload,
            ModalEvent::TryAgain => r.0 is Confirm && r.1 == ModalAction::Stay,
            ModalEvent::Close => r.0 is Confirm && r.1 == ModalAction::CloseDialog,
            ModalEvent::DownloadFailed(m) => {
                &&& r.1 == ModalAction::Stay
                &&& r.0 matches ModalPhase::Failed { message } && message == m
            },
            ModalEvent::LaunchFailed(m) => {
                &&& r.1 == ModalAction::Stay
                &&& r.0 matches ModalPhase::LaunchFailed { message } && message == m
            },
        },
{
    match event {
        ModalEvent::ReleaseGone => (ModalPhase::Confirm, ModalAction::CloseDialog),
        ModalEvent::Progress { bytes, total } => match phase {
            ModalPhase::Downloading { .. } => (
                ModalPhase::Downloading { bytes, total },
                ModalAction::Stay,
            ),
            other => (other, ModalAction::Stay),
        },
        ModalEvent::UpdateNow(None) => (
            ModalPhase::Failed { message: String::from_str(MISSING_ASSET_MESSAGE) },
            ModalAction::Stay,
        ),
        ModalEvent::UpdateNow(Some(size)) => (
            ModalPhase::Downloading { bytes: 0, total: size },
            ModalAction::StartDownload,
        ),
        ModalEvent::CancelDownload => (ModalPhase::Confirm, ModalAction::CancelDownload),
        ModalEvent::TryAgain => (ModalPhase::Confirm, ModalAction::Stay),
        ModalEvent::Close => (ModalPhase::Confirm, ModalAction::CloseDialog),
        ModalEvent::DownloadFailed(m) => (ModalPhase::Failed { message: m }, ModalAction::Stay),
        ModalEvent::LaunchFailed(m) => (ModalPhase::LaunchFailed { message: m }, ModalAction::Stay),
    }
}

/// The headline and the opening line of a failure screen: one for a
/// failed download, one for an installer that would not start.
pub fn failure_heading(launch_failure: bool) -> (r: (&'static str, &'static str))
    ensures
        launch_failure ==> r.0@ == "\u{2715} COULD NOT START INSTALLER"@ && r.1@
            == "The installer downloaded but could not be started:"@,
        !launch_failure ==> r.0@ == "\u{2715} DOWNLOAD FAILED"@ && r.1@
            == "Could not download the installer:"@,
{
    if launch_failure {
        ("\u{2715} COULD NOT START INSTALLER", "The installer downloaded but could not be started:")
    } else {
        ("\u{2715} DOWNLOAD FAILED", "Could not download the installer:")
    }
}

} // verus!

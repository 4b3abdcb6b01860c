use perfwindow::ipc::{
    connect_step, control_payload, has_rows, health_banner_visible, ConnectAction, ConnectError,
    ConnectPhase, ControlMsg, FailedReason, HealthInfo, ProgressInfo, StepResult,
};
use std::io::{Error, ErrorKind};

#[test]
fn failed_reason_variants_distinct() {
    assert_ne!(FailedReason::UacCancelled, FailedReason::StartTimeout);
    assert_ne!(
        FailedReason::PipeError("a".into()),
        FailedReason::PipeError("b".into())
    );
}

#[test]
fn connect_phase_eq_is_structural() {
    assert_eq!(ConnectPhase::OpeningPipe, ConnectPhase::OpeningPipe);
    assert_ne!(ConnectPhase::OpeningPipe, ConnectPhase::StartingService);
    assert_eq!(
        ConnectPhase::Failed(FailedReason::UacCancelled),
        ConnectPhase::Failed(FailedReason::UacCancelled)
    );
}

#[test]
fn not_found_io_error_maps_to_connect_not_found() {
    let err = ConnectError::from(Error::from(ErrorKind::NotFound));
    assert!(matches!(err, ConnectError::NotFound));
}

#[test]
fn permission_denied_maps_to_access_denied() {
    let err = ConnectError::from(Error::from(ErrorKind::PermissionDenied));
    assert!(matches!(err, ConnectError::AccessDenied));
}

#[test]
fn pipe_busy_os_error_231_maps_to_busy() {
    let err = ConnectError::from(Error::from_raw_os_error(231));
    assert!(matches!(err, ConnectError::Busy));
}

#[test]
fn other_io_errors_are_kept() {
    let err = ConnectError::from(Error::new(ErrorKind::Other, "boom"));
    assert!(matches!(err, ConnectError::Io(_)));
    assert_eq!(err.message(), "pipe I/O error: boom");
}

#[test]
fn connect_error_messages() {
    assert_eq!(ConnectError::NotFound.message(), "sensor service is not running");
    assert_eq!(
        ConnectError::Busy.message(),
        "another PerfWindow window is already connected"
    );
    assert_eq!(
        ConnectError::AccessDenied.message(),
        "access to sensor pipe was denied"
    );
}

#[test]
fn connect_walks_through_elevation_to_ready() {
    let (p, a) = connect_step(ConnectPhase::OpeningPipe, StepResult::PipeMissing, false);
    assert_eq!(p, ConnectPhase::RequestingElevation);
    assert_eq!(a, ConnectAction::Elevate);
    let (p, a) = connect_step(p, StepResult::ElevationAccepted, false);
    assert_eq!(p, ConnectPhase::StartingService);
    assert_eq!(a, ConnectAction::WaitThenOpenPipe);
    let (p, a) = connect_step(p, StepResult::PipeMissing, false);
    assert_eq!(p, ConnectPhase::StartingService);
    assert_eq!(a, ConnectAction::WaitThenOpenPipe);
    let (p, a) = connect_step(p, StepResult::Connected, false);
    assert_eq!(p, ConnectPhase::LoadingSensors);
    assert_eq!(a, ConnectAction::Ready);
}

#[test]
fn connect_fails_on_refusal_timeout_and_pipe_error() {
    let (p, a) = connect_step(ConnectPhase::RequestingElevation, StepResult::ElevationRefused, false);
    assert_eq!(p, ConnectPhase::Failed(FailedReason::UacCancelled));
    assert_eq!(a, ConnectAction::Stop);
    let (p, _) = connect_step(ConnectPhase::StartingService, StepResult::PipeMissing, true);
    assert_eq!(p, ConnectPhase::Failed(FailedReason::StartTimeout));
    let (p, _) = connect_step(
        ConnectPhase::StartingService,
        StepResult::PipeFailed("denied".into()),
        false,
    );
    assert_eq!(p, ConnectPhase::Failed(FailedReason::PipeError("denied".into())));
    let (p2, a2) = connect_step(p.clone(), StepResult::Connected, false);
    assert_eq!(p2, p);
    assert_eq!(a2, ConnectAction::Stop);
}

#[test]
fn control_messages_encode_as_json_lines() {
    let (line, last) = control_payload(ControlMsg::SetInterval(1000));
    assert_eq!(line, "{\"interval_ms\":1000}");
    assert!(!last);
    let (line, last) = control_payload(ControlMsg::Shutdown);
    assert_eq!(line, "{\"shutdown\":true}");
    assert!(last);
}

fn health(degraded: bool) -> HealthInfo {
    HealthInfo {
        pawnio: if degraded { "missing".into() } else { "ok".into() },
        degraded,
        notes: None,
    }
}

#[test]
fn invisible_when_snapshot_has_no_health() {
    assert!(!health_banner_visible(false, None));
}

#[test]
fn invisible_when_health_not_degraded() {
    assert!(!health_banner_visible(false, Some(&health(false))));
}

#[test]
fn visible_when_degraded() {
    assert!(health_banner_visible(false, Some(&health(true))));
}

#[test]
fn invisible_when_dismissed_even_if_degraded() {
    assert!(!health_banner_visible(true, Some(&health(true))));
}

#[test]
fn progress_with_every_list_empty_has_no_rows() {
    let empty = ProgressInfo { loading: None, done: vec![], pending: vec![] };
    assert!(!has_rows(&empty));
    let loading = ProgressInfo { loading: Some("gpu".into()), done: vec![], pending: vec![] };
    assert!(has_rows(&loading));
    let done = ProgressInfo { loading: None, done: vec!["cpu".into()], pending: vec![] };
    assert!(has_rows(&done));
}

#[test]
fn invisible_when_no_snapshot() {
    let latest: Option<&HealthInfo> = None;
    assert!(!health_banner_visible(false, latest));
}

#[test]
fn failed_connects_explain_themselves() {
    let (head, detail) = perfwindow::ipc::failure_lines(&FailedReason::UacCancelled);
    assert_eq!(head, "SERVICE START WAS CANCELLED");
    assert_eq!(detail, "PerfWindow needs to start the sensor service to read hardware data.");
    let (head, detail) = perfwindow::ipc::failure_lines(&FailedReason::PipeError("boom".into()));
    assert_eq!(head, "SENSOR SERVICE COULD NOT CONNECT");
    assert_eq!(detail, "boom");
}

//! The sensor feed: connection phases, connection errors, the control
//! channel's wire messages and the small records the feed carries.
use crate::text::{decimal, push_decimal};
use vstd::prelude::*;

verus! {

#[verifier::external_type_specification]
#[verifier::external_body]
pub struct ExIoError(std::io::Error);

// ---------------------------------------------------------------------
// Records carried by the feed
// ---------------------------------------------------------------------

/// One monitor's resolution and refresh rate.
#[derive(Debug, Clone)]
pub struct DisplayInfo {
    pub name: String,
    pub width: i32,
    pub height: i32,
    pub refresh_hz: i32,
    pub model: Option<String>,
}

/// The sensor service's self-health summary.
#[derive(Debug, Clone)]
pub struct HealthInfo {
    pub pawnio: String,
    pub degraded: bool,
    pub notes: Option<String>,
}

/// Staged-init progress: the category being enabled, those done and those
/// still pending.
#[derive(Debug, Clone)]
pub struct ProgressInfo {
    pub loading: Option<String>,
    pub done: Vec<String>,
    pub pending: Vec<String>,
}

/// Whether a progress line has anything to show. One with every list empty
/// is treated like absent progress.
pub fn has_rows(progress: &ProgressInfo) -> (r: bool)
    ensures
        r == (progress.loading is Some || progress.done@.len() > 0 || progress.pending@.len()
            > 0),
{
    progress.loading.is_some() || progress.done.len() != 0 || progress.pending.len() != 0
}

/// Whether the degraded-health banner shows: the latest snapshot reports a
/// degraded service and the user has not dismissed the banner.
pub fn health_banner_visible(dismissed: bool, health: Option<&HealthInfo>) -> (r: bool)
    ensures
        r == (!dismissed && (health matches Some(h) && h.degraded)),
{
    if dismissed {
        return false;
    }
    match health {
        Some(h) => h.degraded,
        None => false,
    }
}

// ---------------------------------------------------------------------
// Control channel
// ---------------------------------------------------------------------

/// One queued message for the sensor service's control channel.
#[derive(Debug, Clone, Copy, PartialEq, Eq, Structural)]
pub enum ControlMsg {
    SetInterval(u32),
    Shutdown,
}

/// The wire line for a control message (without the newline), and whether
/// it is the last message the channel carries.
pub open spec fn control_line(msg: ControlMsg) -> (Seq<char>, bool) {
    match msg {
        ControlMsg::SetInterval(ms) => ("{\"interval_ms\":"@ + decimal(ms as nat) + "}"@, false),
        ControlMsg::Shutdown => ("{\"shutdown\":true}"@, true),
    }
}

/// Encode a control message as its JSON line; the flag is `true` for the
/// message after which the writer closes the channel.
pub fn control_payload(msg: ControlMsg) -> (r: (String, bool))
    ensures
        r.0@ == control_line(msg).0,
        r.1 == control_line(msg).1,
{
    let mut s = String::new();
    match msg {
        ControlMsg::SetInterval(ms) => {
            s.append("{\"interval_ms\":");
            push_decimal(&mut s, ms as u64);
            s.append("}");
            assert(s@ =~= control_line(msg).0);
            (s, false)
        },
        ControlMsg::Shutdown => {
            s.append("{\"shutdown\":true}");
            assert(s@ =~= control_line(msg).0);
            (s, true)
        },
    }
}

// ---------------------------------------------------------------------
// Connection errors
// ---------------------------------------------------------------------

/// Why opening the sensor pipe failed.
#[derive(Debug)]
pub enum ConnectError {
    /// The pipe does not exist: service not installed or not running.
    NotFound,
    /// Another dashboard is already connected.
    Busy,
    /// The pipe's ACL refused access.
    AccessDenied,
    /// Any other I/O error.
    Io(std::io::Error),
}

/// The part of an I/O error's kind the pipe client distinguishes.
#[derive(Debug, Clone, Copy, PartialEq, Eq, Structural)]
pub enum IoErrorClass {
    NotFound,
    PermissionDenied,
    Other,
}

/// Windows' `ERROR_PIPE_BUSY`.
pub const ERROR_PIPE_BUSY: i32 = 231;

/// The class `std::io::Error::kind` reports for an I/O error, reduced to
/// the classes the pipe client distinguishes.
pub uninterp spec fn io_class_of(e: std::io::Error) -> IoErrorClass;

/// What `std::io::Error::raw_os_error` reports for an I/O error.
pub uninterp spec fn io_raw_of(e: std::io::Error) -> Option<i32>;

/// `std::io::Error::kind`, reduced to the classes the pipe client
/// distinguishes. The contract claims the result is `io_class_of` of the
/// error: the kind depends on the error value alone.
#[verifier::external_body]
fn io_error_class(e: &std::io::Error) -> (r: IoErrorClass)
    ensures
        r == io_class_of(*e),
{
    match e.kind() {
        std::io::ErrorKind::NotFound => IoErrorClass::NotFound,
        std::io::ErrorKind::PermissionDenied => IoErrorClass::PermissionDenied,
        _ => IoErrorClass::Other,
    }
}

/// `std::io::Error::raw_os_error`. The contract claims the result is
/// `io_raw_of` of the error: the code is stored in the error value.
#[verifier::external_body]
fn io_raw_os_error(e: &std::io::Error) -> (r: Option<i32>)
    ensures
        r == io_raw_of(*e),
{
    e.raw_os_error()
}

/// The display text of an I/O error (its `Display` impl). Nothing is stated
/// of the result: for an OS error the text is the operating system's
/// message for the code, in the language the machine is set to.
#[verifier::external_body]
fn io_error_text(e: &std::io::Error) -> String {
    format!("{e}")
}

/// The connect error for an I/O error of class `class` and OS code `raw`.
pub open spec fn classify(class: IoErrorClass, raw: Option<i32>) -> ConnectErrorKind {
    match class {
        IoErrorClass::NotFound => ConnectErrorKind::NotFound,
        IoErrorClass::PermissionDenied => ConnectErrorKind::AccessDenied,
        IoErrorClass::Other => if raw == Some(ERROR_PIPE_BUSY) {
            ConnectErrorKind::Busy
        } else {
            ConnectErrorKind::Io
        },
    }
}

/// The variant of a [`ConnectError`].
#[derive(Debug, Clone, Copy, PartialEq, Eq, Structural)]
pub enum ConnectErrorKind {
    NotFound,
    Busy,
    AccessDenied,
    Io,
}

pub open spec fn kind_of(e: &ConnectError) -> ConnectErrorKind {
    match e {
        ConnectError::NotFound => ConnectErrorKind::NotFound,
        ConnectError::Busy => ConnectErrorKind::Busy,
        ConnectError::AccessDenied => ConnectErrorKind::AccessDenied,
        ConnectError::Io(_) => ConnectErrorKind::Io,
    }
}

impl ConnectError {
    /// The connect error for an I/O error whose kind falls in `class` and
    /// whose OS code is `raw`: a missing pipe is `NotFound`, a refused one
    /// `AccessDenied`, `ERROR_PIPE_BUSY` is `Busy`, and anything else keeps
    /// the I/O error.
    pub fn classify(class: IoErrorClass, raw: Option<i32>, e: std::io::Error) -> (r: ConnectError)
        ensures
            kind_of(&r) == classify(class, raw),
            r matches ConnectError::Io(inner) ==> inner == e,
    {
        match class {
            IoErrorClass::NotFound => ConnectError::NotFound,
            IoErrorClass::PermissionDenied => ConnectError::AccessDenied,
            IoErrorClass::Other => match raw {
                Some(code) if code == ERROR_PIPE_BUSY => ConnectError::Busy,
                _ => ConnectError::Io(e),
            },
        }
    }

    /// Map an I/O error from opening the pipe to a connect error, by the
    /// kind and OS code the error reports (see `classify`).
    pub fn from(e: std::io::Error) -> (r: ConnectError)
        ensures
            kind_of(&r) == classify(io_class_of(e), io_raw_of(e)),
            r matches ConnectError::Io(inner) ==> inner == e,
    {
        let class = io_error_class(&e);
        let raw = io_raw_os_error(&e);
        Self::classify(class, raw, e)
    }

    /// The user-facing text of the error. For an I/O error the prefix is
    /// followed by the error's own display text, whose wording the
    /// operating system supplies; only the prefix is stated.
    pub fn message(&self) -> (r: String)
        ensures
            match self {
                ConnectError::NotFound => r@ == "sensor service is not running"@,
                ConnectError::Busy => r@ == "another PerfWindow window is already connected"@,
                ConnectError::AccessDenied => r@ == "access to sensor pipe was denied"@,
                ConnectError::Io(_) => r@.len() >= "pipe I/O error: "@.len() && r@.subrange(
                    0,
                    "pipe I/O error: "@.len() as int,
                ) == "pipe I/O error: "@,
            },
    {
        let mut s = String::new();
        match self {
            ConnectError::NotFound => s.append("sensor service is not running"),
            ConnectError::Busy => s.append("another PerfWindow window is already connected"),
            ConnectError::AccessDenied => s.append("access to sensor pipe was denied"),
            ConnectError::Io(e) => {
                s.append("pipe I/O error: ");
                let ghost head = s@;
                let text = io_error_text(e);
                s.append(text.as_str());
                assert(s@.subrange(0, head.len() as int) =~= head);
            },
        }
        assert(Seq::<char>::empty() + "sensor service is not running"@ =~= "sensor service is not running"@);
        assert(Seq::<char>::empty() + "another PerfWindow window is already connected"@ =~= "another PerfWindow window is already connected"@);
        assert(Seq::<char>::empty() + "access to sensor pipe was denied"@ =~= "access to sensor pipe was denied"@);
        assert(Seq::<char>::empty() + "pipe I/O error: "@ =~= "pipe I/O error: "@);
        s
    }
}

// ---------------------------------------------------------------------
// The connect state machine
// ---------------------------------------------------------------------

/// Why connecting failed for good.
#[derive(Debug, Clone, PartialEq, Eq)]
pub enum FailedReason {
    UacCancelled,
    StartTimeout,
    PipeError(String),
}

/// Where the background connect is.
#[derive(Debug, Clone, PartialEq, Eq)]
pub enum ConnectPhase {
    OpeningPipe,
    RequestingElevation,
    StartingService,
    LoadingSensors,
    Failed(FailedReason),
}

/// What the outside work of the previous step produced.
#[derive(Debug, Clone)]
pub enum StepResult {
    /// The pipe opened.
    Connected,
    /// The pipe was not there (service not running).
    PipeMissing,
    /// Opening the pipe failed otherwise; the text describes the error.
    PipeFailed(String),
    /// The elevation prompt was accepted and the service start launched.
    ElevationAccepted,
    /// The elevation prompt was refused or failed.
    ElevationRefused,
}

/// The outside work the connect driver performs next.
#[derive(Debug, Clone, Copy, PartialEq, Eq, Structural)]
pub enum ConnectAction {
    /// Open the pipe and report the result.
    OpenPipe,
    /// Show the elevation prompt to start the service and report the result.
    Elevate,
    /// Wait one poll interval, then open the pipe and report the result.
    WaitThenOpenPipe,
    /// Hand the open pipe to the UI; the connect is done.
    Ready,
    /// The connect failed; stop.
    Stop,
}

/// Whether the connect has failed for good.
pub open spec fn is_failed(p: ConnectPhase) -> bool {
    p matches ConnectPhase::Failed(_)
}

/// The work a phase waits on.
pub open spec fn pending_action(p: ConnectPhase) -> ConnectAction {
    match p {
        ConnectPhase::OpeningPipe => ConnectAction::OpenPipe,
        ConnectPhase::RequestingElevation => ConnectAction::Elevate,
        ConnectPhase::StartingService => ConnectAction::WaitThenOpenPipe,
        ConnectPhase::LoadingSensors => ConnectAction::Ready,
        ConnectPhase::Failed(_) => ConnectAction::Stop,
    }
}

/// One step of the connect state machine.
pub open spec fn step_spec(phase: ConnectPhase, result: StepResult, past_deadline: bool) -> (
    ConnectPhase,
    ConnectAction,
) {
    match (phase, result) {
        (ConnectPhase::Failed(f), _) => (ConnectPhase::Failed(f), ConnectAction::Stop),
        (_, StepResult::Connected) => (ConnectPhase::LoadingSensors, ConnectAction::Ready),
        (ConnectPhase::OpeningPipe, StepResult::PipeMissing) => (
            ConnectPhase::RequestingElevation,
            ConnectAction::Elevate,
        ),
        (ConnectPhase::OpeningPipe, StepResult::PipeFailed(_)) => (
            ConnectPhase::RequestingElevation,
            ConnectAction::Elevate,
        ),
        (ConnectPhase::RequestingElevation, StepResult::ElevationRefused) => (
            ConnectPhase::Failed(FailedReason::UacCancelled),
            ConnectAction::Stop,
        ),
        (ConnectPhase::RequestingElevation, StepResult::ElevationAccepted) => (
            ConnectPhase::StartingService,
            ConnectAction::WaitThenOpenPipe,
        ),
        (ConnectPhase::StartingService, StepResult::PipeMissing) => if past_deadline {
            (ConnectPhase::Failed(FailedReason::StartTimeout), ConnectAction::Stop)
        } else {
            (ConnectPhase::StartingService, ConnectAction::WaitThenOpenPipe)
        },
        (ConnectPhase::StartingService, StepResult::PipeFailed(m)) => (
            ConnectPhase::Failed(FailedReason::PipeError(m)),
            ConnectAction::Stop,
        ),
        (p, _) => (p, pending_action(p)),
    }
}

/// One step of the connect state machine: the phase it moves to and the
/// work to do next, given the current phase and what the last work
/// produced. `past_deadline` says whether the service-start deadline has
/// passed.
///
/// The first step starts in `OpeningPipe` with the result of opening the
/// pipe. A missing or failing pipe asks for elevation; a refused prompt
/// fails with `UacCancelled`; an accepted one polls the pipe until it opens
/// (ready), stays missing past the deadline (`StartTimeout`) or fails
/// otherwise (`PipeError`). A failed connect stays failed.
pub fn connect_step(phase: ConnectPhase, result: StepResult, past_deadline: bool) -> (r: (
    ConnectPhase,
    ConnectAction,
))
    ensures
        r == step_spec(phase, result, past_deadline),
{
    match (phase, result) {
        (ConnectPhase::Failed(f), _) => (ConnectPhase::Failed(f), ConnectAction::Stop),
        (_, StepResult::Connected) => (ConnectPhase::LoadingSensors, ConnectAction::Ready),
        (ConnectPhase::OpeningPipe, StepResult::PipeMissing) => (
            ConnectPhase::RequestingElevation,
            ConnectAction::Elevate,
        ),
        (ConnectPhase::OpeningPipe, StepResult::PipeFailed(_)) => (
            ConnectPhase::RequestingElevation,
            ConnectAction::Elevate,
        ),
        (ConnectPhase::RequestingElevation, StepResult::ElevationRefused) => (
            ConnectPhase::Failed(FailedReason::UacCancelled),
            ConnectAction::Stop,
        ),
        (ConnectPhase::RequestingElevation, StepResult::ElevationAccepted) => (
            ConnectPhase::StartingService,
            ConnectAction::WaitThenOpenPipe,
        ),
        (ConnectPhase::StartingService, StepResult::PipeMissing) => {
            if past_deadline {
                (ConnectPhase::Failed(FailedReason::StartTimeout), ConnectAction::Stop)
            } else {
                (ConnectPhase::StartingService, ConnectAction::WaitThenOpenPipe)
            }
        },
        (ConnectPhase::StartingService, StepResult::PipeFailed(m)) => (
            ConnectPhase::Failed(FailedReason::PipeError(m)),
            ConnectAction::Stop,
        ),
        (ConnectPhase::OpeningPipe, _) => (ConnectPhase::OpeningPipe, ConnectAction::OpenPipe),
        (ConnectPhase::RequestingElevation, _) => (
            ConnectPhase::RequestingElevation,
            ConnectAction::Elevate,
        ),
        (ConnectPhase::StartingService, _) => (
            ConnectPhase::StartingService,
            ConnectAction::WaitThenOpenPipe,
        ),
        (ConnectPhase::LoadingSensors, _) => (ConnectPhase::LoadingSensors, ConnectAction::Ready),
    }
}

/// Law: the driver stops exactly when the connect has failed, and hands the
/// pipe over exactly when it reaches `LoadingSensors`; a failed connect
/// never recovers.
pub proof fn lemma_connect_step_consistent(
    phase: ConnectPhase,
    result: StepResult,
    past_deadline: bool,
)
    ensures
        (step_spec(phase, result, past_deadline).1 == ConnectAction::Stop) <==> is_failed(
            step_spec(phase, result, past_deadline).0,
        ),
        (step_spec(phase, result, past_deadline).1 == ConnectAction::Ready) <==> (step_spec(
            phase,
            result,
            past_deadline,
        ).0 == ConnectPhase::LoadingSensors),
        is_failed(phase) ==> step_spec(phase, result, past_deadline).0 == phase,
{
}

/// Law: an open pipe ends the connect at once. From every phase that has
/// not failed, a `Connected` result moves to `LoadingSensors` and hands the
/// pipe over; nothing but an open pipe ever hands it over from another
/// phase. Elevation is asked for only when the first open found no usable
/// pipe, or while the prompt is still pending; a refused prompt fails with
/// `UacCancelled`; a service that is still missing after the deadline fails
/// with `StartTimeout`, and before it is polled again.
pub proof fn lemma_connect_flow(phase: ConnectPhase, result: StepResult, past_deadline: bool)
    ensures
        !is_failed(phase) && result is Connected ==> step_spec(phase, result, past_deadline) == (
            ConnectPhase::LoadingSensors,
            ConnectAction::Ready,
        ),
        step_spec(phase, result, past_deadline).1 == ConnectAction::Ready && !(
        phase is LoadingSensors) ==> result is Connected,
        step_spec(phase, result, past_deadline).1 == ConnectAction::Elevate ==> (phase is OpeningPipe
            && (result is PipeMissing || result is PipeFailed)) || phase is RequestingElevation,
        phase is RequestingElevation && result is ElevationRefused ==> step_spec(
            phase,
            result,
            past_deadline,
        ) == (ConnectPhase::Failed(FailedReason::UacCancelled), ConnectAction::Stop),
        phase is StartingService && result is PipeMissing ==> step_spec(
            phase,
            result,
            past_deadline,
        ) == if past_deadline {
            (ConnectPhase::Failed(FailedReason::StartTimeout), ConnectAction::Stop)
        } else {
            (ConnectPhase::StartingService, ConnectAction::WaitThenOpenPipe)
        },
{
}

/// Whether the sensor feed is healthy.
#[derive(Debug, Clone, Copy, PartialEq, Eq, Structural)]
pub enum Status {
    Running,
    SensordDown,
}

/// The user's choice on the loading screen this frame; `Idle` when nothing
/// was clicked.
#[derive(Debug, Clone, Copy, PartialEq, Eq, Structural)]
pub enum LoadingAction {
    Idle,
    Retry,
    Exit,
}

/// The loading screen's two lines for a failed connect: a headline and
/// the explanation (the error text itself for a pipe error).
pub open spec fn failure_text(reason: FailedReason) -> (Seq<char>, Seq<char>) {
    match reason {
        FailedReason::UacCancelled => (
            "SERVICE START WAS CANCELLED"@,
            "PerfWindow needs to start the sensor service to read hardware data."@,
        ),
        FailedReason::StartTimeout => (
            "SERVICE DID NOT START IN TIME"@,
            "The sensor service was launched but did not become ready within 15 seconds."@,
        ),
        FailedReason::PipeError(e) => ("SENSOR SERVICE COULD NOT CONNECT"@, e@),
    }
}

/// The headline and explanation the loading screen shows for a failed
/// connect.
pub fn failure_lines(reason: &FailedReason) -> (r: (&'static str, String))
    ensures
        r.0@ == failure_text(*reason).0,
        r.1@ == failure_text(*reason).1,
{
    match reason {
        FailedReason::UacCancelled => (
            "SERVICE START WAS CANCELLED",
            "PerfWindow needs to start the sensor service to read hardware data.".to_owned(),
        ),
        FailedReason::StartTimeout => (
            "SERVICE DID NOT START IN TIME",
            "The sensor service was launched but did not become ready within 15 seconds.".to_owned(),
        ),
        FailedReason::PipeError(e) => ("SENSOR SERVICE COULD NOT CONNECT", e.clone()),
    }
}

} // verus!

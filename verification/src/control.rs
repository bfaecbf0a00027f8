//! Engine control: the errors the control client reports, and its reading of
//! the Engine's responses.
use vstd::prelude::*;

use crate::message::{
    io_failure_kind, IoFailureKind,
    EngineStatus, ErrorCode, ProtocolError, Response, ResponseView, WindowCaptureResult,
    CAPABILITIES,
};

verus! {

/// Why a control operation with the Engine failed.
#[derive(Debug)]
pub enum ControlError {
    Unavailable,
    EndpointBusy,
    Timeout,
    SpawnFailed(std::io::Error),
    Security(String),
    Protocol(ProtocolError),
    Rejected(ErrorCode),
    Io(std::io::Error),
    ProjectionFailed(String),
}

impl ControlError {
    /// A protocol failure as a control error: a timed-out read or write is a
    /// `Timeout`, every other failure is carried as `Protocol`.
    pub fn from_protocol(error: ProtocolError) -> (r: ControlError)
        ensures
            !(error is Io) ==> r == ControlError::Protocol(error),
            error is Io ==> r is Timeout || r == ControlError::Protocol(error),
    {
        let timed_out = match &error {
            ProtocolError::Io(io_error) => io_failure_kind(io_error) == IoFailureKind::TimedOut,
            _ => false,
        };
        if timed_out {
            ControlError::Timeout
        } else {
            ControlError::Protocol(error)
        }
    }

    /// A failure to project an applied configuration, with its description.
    pub fn projection(description: String) -> (r: ControlError)
        ensures
            r == ControlError::ProjectionFailed(description),
    {
        ControlError::ProjectionFailed(description)
    }
}

/// How the Engine server loop ended.
#[derive(Clone, Copy, Debug, PartialEq, Eq, Structural)]
pub enum ServerExit {
    Shutdown,
    Stopped,
}

/// The step of a configuration transaction that failed.
#[derive(Clone, Copy, Debug, PartialEq, Eq, Structural)]
pub enum ConfigApplyPhase {
    Prepare,
    Commit,
    Query,
}

/// A failed configuration transaction and the step it failed at.
#[derive(Debug)]
pub struct ConfigApplyError {
    pub phase: ConfigApplyPhase,
    pub source: ControlError,
}

impl ConfigApplyError {
    pub fn new(phase: ConfigApplyPhase, source: ControlError) -> (r: Self)
        ensures
            r.phase == phase,
            r.source == source,
    {
        ConfigApplyError { phase, source }
    }
}

/// Why the configuration owner refused an operation.
#[derive(Clone, Copy, Debug, PartialEq, Eq, Structural)]
pub enum ConfigOwnerError {
    PayloadTooLarge,
    Busy,
    RevisionConflict,
    ValidationFailed,
    TokenMismatch,
    NoPreparedConfig,
    GenerationExhausted,
    PersistenceFailed,
}

/// Why a window capture operation was refused.
#[derive(Clone, Copy, Debug, PartialEq, Eq, Structural)]
pub enum CaptureError {
    Stale,
    Unavailable,
}

/// The error code sent for a configuration owner refusal.
pub fn config_error_code(error: ConfigOwnerError) -> (code: ErrorCode)
    ensures
        code == match error {
            ConfigOwnerError::PayloadTooLarge => ErrorCode::ConfigPayloadTooLarge,
            ConfigOwnerError::Busy => ErrorCode::ConfigBusy,
            ConfigOwnerError::RevisionConflict => ErrorCode::ConfigRevisionConflict,
            ConfigOwnerError::ValidationFailed => ErrorCode::ConfigValidationFailed,
            ConfigOwnerError::TokenMismatch => ErrorCode::ConfigTokenMismatch,
            ConfigOwnerError::NoPreparedConfig => ErrorCode::NoPreparedConfig,
            ConfigOwnerError::GenerationExhausted => ErrorCode::ConfigGenerationExhausted,
            ConfigOwnerError::PersistenceFailed => ErrorCode::ConfigPersistenceFailed,
        },
{
    match error {
        ConfigOwnerError::PayloadTooLarge => ErrorCode::ConfigPayloadTooLarge,
        ConfigOwnerError::Busy => ErrorCode::ConfigBusy,
        ConfigOwnerError::RevisionConflict => ErrorCode::ConfigRevisionConflict,
        ConfigOwnerError::ValidationFailed => ErrorCode::ConfigValidationFailed,
        ConfigOwnerError::TokenMismatch => ErrorCode::ConfigTokenMismatch,
        ConfigOwnerError::NoPreparedConfig => ErrorCode::NoPreparedConfig,
        ConfigOwnerError::GenerationExhausted => ErrorCode::ConfigGenerationExhausted,
        ConfigOwnerError::PersistenceFailed => ErrorCode::ConfigPersistenceFailed,
    }
}

/// The error code sent for a capture refusal.
pub fn capture_error_code(error: CaptureError) -> (code: ErrorCode)
    ensures
        code == match error {
            CaptureError::Stale => ErrorCode::CaptureStale,
            CaptureError::Unavailable => ErrorCode::CaptureUnavailable,
        },
{
    match error {
        CaptureError::Stale => ErrorCode::CaptureStale,
        CaptureError::Unavailable => ErrorCode::CaptureUnavailable,
    }
}

/// The error code sent back for a frame that could not be decoded.
pub fn decode_error_code(error: &ProtocolError) -> (code: ErrorCode)
    ensures
        code == if *error is WrongVersion {
            ErrorCode::WrongVersion
        } else {
            ErrorCode::InvalidMessage
        },
{
    match error {
        ProtocolError::WrongVersion(_) => ErrorCode::WrongVersion,
        _ => ErrorCode::InvalidMessage,
    }
}

/// The request id used to answer a frame whose body could not be read.
pub fn body_request_id_placeholder(_error: &ProtocolError) -> (id: u64)
    ensures
        id == 1,
{
    1
}

// ---------------------------------------------------------------------------
// Reading the Engine's responses
// ---------------------------------------------------------------------------
/// The control error for a response that is not the one expected: the
/// Engine's own refusal, or an invalid message.
pub open spec fn unexpected_response(r: ResponseView) -> ControlError {
    match r {
        ResponseView::Error(code) => ControlError::Rejected(code),
        _ => ControlError::Protocol(ProtocolError::InvalidMessage),
    }
}

fn unexpected(response: &Response) -> (e: ControlError)
    ensures
        e == unexpected_response(response@),
{
    match response {
        Response::Error(code) => ControlError::Rejected(*code),
        _ => ControlError::Protocol(ProtocolError::InvalidMessage),
    }
}

/// The answer to `Hello`: accepted only with the expected capabilities.
pub fn expect_hello(response: &Response) -> (r: Result<(), ControlError>)
    ensures
        (response@ matches ResponseView::Hello { capabilities, .. } && capabilities
            == CAPABILITIES) ==> r is Ok,
        !(response@ matches ResponseView::Hello { capabilities, .. } && capabilities
            == CAPABILITIES) ==> r == Err::<(), ControlError>(unexpected_response(response@)),
{
    match response {
        Response::Hello { capabilities, .. } => {
            if *capabilities == CAPABILITIES {
                Ok(())
            } else {
                Err(ControlError::Protocol(ProtocolError::InvalidMessage))
            }
        },
        _ => Err(unexpected(response)),
    }
}

/// The answer to `Ping`.
pub fn expect_pong(response: &Response) -> (r: Result<(), ControlError>)
    ensures
        response@ is Pong ==> r is Ok,
        !(response@ is Pong) ==> r == Err::<(), ControlError>(unexpected_response(response@)),
{
    match response {
        Response::Pong => Ok(()),
        _ => Err(unexpected(response)),
    }
}

/// The answer to `GetStatus`.
pub fn expect_status(response: &Response) -> (r: Result<EngineStatus, ControlError>)
    ensures
        response@ matches ResponseView::Status(s) ==> r == Ok::<EngineStatus, ControlError>(s),
        !(response@ is Status) ==> r == Err::<EngineStatus, ControlError>(
            unexpected_response(response@),
        ),
{
    match response {
        Response::Status(status) => Ok(*status),
        _ => Err(unexpected(response)),
    }
}

/// The answer to `Shutdown`: whether shutdown had already been requested.
pub fn expect_shutdown(response: &Response) -> (r: Result<bool, ControlError>)
    ensures
        response@ matches ResponseView::Shutdown { already_requested } ==> r == Ok::<
            bool,
            ControlError,
        >(already_requested),
        !(response@ is Shutdown) ==> r == Err::<bool, ControlError>(unexpected_response(response@)),
{
    match response {
        Response::Shutdown { already_requested } => Ok(*already_requested),
        _ => Err(unexpected(response)),
    }
}

/// The answer to `PrepareConfig`: token, base revision and base generation.
pub fn expect_prepared(response: &Response) -> (r: Result<(u64, u64, u64), ControlError>)
    ensures
        response@ matches ResponseView::Prepared { token, base_revision, base_generation } ==> r
            == Ok::<(u64, u64, u64), ControlError>((token, base_revision, base_generation)),
        !(response@ is Prepared) ==> r == Err::<(u64, u64, u64), ControlError>(
            unexpected_response(response@),
        ),
{
    match response {
        Response::Prepared { token, base_revision, base_generation } => Ok(
            (*token, *base_revision, *base_generation),
        ),
        _ => Err(unexpected(response)),
    }
}

/// The answer to `CommitConfig` or `SetEnabled`: the durability warning.
pub fn expect_applied(response: &Response) -> (r: Result<bool, ControlError>)
    ensures
        response@ matches ResponseView::Applied { durability_warning, .. } ==> r == Ok::<
            bool,
            ControlError,
        >(durability_warning),
        !(response@ is Applied) ==> r == Err::<bool, ControlError>(unexpected_response(response@)),
{
    match response {
        Response::Applied { durability_warning, .. } => Ok(*durability_warning),
        _ => Err(unexpected(response)),
    }
}

/// The answer to `GetConfig`: revision, generation and the stored bytes.
pub fn expect_config(response: Response) -> (r: Result<(u64, u64, Option<Vec<u8>>), ControlError>)
    ensures
        response@ is Config <==> r is Ok,
        r matches Ok((revision, generation, bytes)) ==> response@ == (ResponseView::Config {
            revision,
            generation,
            config_bytes: crate::message::opt_bytes_view(bytes),
        }),
        !(response@ is Config) ==> r == Err::<(u64, u64, Option<Vec<u8>>), ControlError>(
            unexpected_response(response@),
        ),
{
    match response {
        Response::Config { revision, generation, config_bytes } => Ok(
            (revision, generation, config_bytes),
        ),
        _ => Err(unexpected(&response)),
    }
}

/// The answer to `BeginWindowCapture`: capture id and epoch.
pub fn expect_capture_started(response: &Response) -> (r: Result<(u64, u64), ControlError>)
    ensures
        response@ matches ResponseView::WindowCaptureStarted { capture_id, epoch } ==> r == Ok::<
            (u64, u64),
            ControlError,
        >((capture_id, epoch)),
        !(response@ is WindowCaptureStarted) ==> r == Err::<(u64, u64), ControlError>(
            unexpected_response(response@),
        ),
{
    match response {
        Response::WindowCaptureStarted { capture_id, epoch } => Ok((*capture_id, *epoch)),
        _ => Err(unexpected(response)),
    }
}

/// The answer to `PollWindowCapture` for capture `capture_id` at `epoch`:
/// accepted only when it names that capture and epoch.
pub fn expect_capture_poll(response: Response, capture_id: u64, epoch: u64) -> (r: Result<
    WindowCaptureResult,
    ControlError,
>)
    ensures
        (response@ matches ResponseView::WindowCapture { capture_id: id, epoch: e, .. } && id
            == capture_id && e == epoch) <==> r is Ok,
        r matches Ok(result) ==> response@ matches ResponseView::WindowCapture { result: v, .. }
            && v == result@,
        r is Err ==> r == Err::<WindowCaptureResult, ControlError>(unexpected_response(response@)),
{
    match response {
        Response::WindowCapture { capture_id: actual_id, epoch: actual_epoch, result } => {
            if actual_id == capture_id && actual_epoch == epoch {
                Ok(result)
            } else {
                Err(ControlError::Protocol(ProtocolError::InvalidMessage))
            }
        },
        _ => Err(unexpected(&response)),
    }
}

/// The answer to `CancelWindowCapture` for capture `capture_id` at `epoch`.
pub fn expect_capture_cancelled(response: &Response, capture_id: u64, epoch: u64) -> (r: Result<
    (),
    ControlError,
>)
    ensures
        (response@ matches ResponseView::WindowCaptureCancelled { capture_id: id, epoch: e } && id
            == capture_id && e == epoch) <==> r is Ok,
        r is Err ==> r == Err::<(), ControlError>(unexpected_response(response@)),
{
    match response {
        Response::WindowCaptureCancelled { capture_id: actual_id, epoch: actual_epoch } => {
            if *actual_id == capture_id && *actual_epoch == epoch {
                Ok(())
            } else {
                Err(ControlError::Protocol(ProtocolError::InvalidMessage))
            }
        },
        _ => Err(unexpected(response)),
    }
}

/// The id for the next request of a session and the id after it; a session
/// whose ids are used up fails.
pub fn advance_request_id(next_request_id: u64) -> (r: Result<(u64, u64), ControlError>)
    ensures
        next_request_id < u64::MAX ==> r == Ok::<(u64, u64), ControlError>(
            (next_request_id, (next_request_id + 1) as u64),
        ),
        next_request_id == u64::MAX ==> r == Err::<(u64, u64), ControlError>(
            ControlError::Protocol(ProtocolError::InvalidMessage),
        ),
{
    if next_request_id == u64::MAX {
        Err(ControlError::Protocol(ProtocolError::InvalidMessage))
    } else {
        Ok((next_request_id, next_request_id + 1))
    }
}

} // verus!

//! Messages exchanged between the settings process and the Engine, with the
//! abstract views that the wire contracts speak of.
use vstd::prelude::*;

verus! {

pub const PROTOCOL_VERSION: u16 = 3;

pub const MAX_ENCODED_FRAME: usize = 1024 * 1024 - 1;

pub const MAX_BODY: usize = MAX_ENCODED_FRAME - 4;

pub const AUTH_SECRET_BYTES: usize = 32;

pub const MAX_VERSION_BYTES: usize = 64;

pub const MAX_REQUESTS_PER_CONNECTION: usize = 8;

/// Largest configuration document that a single message may carry.
pub const MAX_CONFIG_BYTES: usize = 256 * 1024;

pub const MAX_CAPTURE_TEXT_BYTES: usize = 4 * 1024;

pub const HEADER_BYTES: usize = 12;

pub const CAPABILITY_PING: u64 = 1;

pub const CAPABILITY_STATUS: u64 = 2;

pub const CAPABILITY_SHUTDOWN: u64 = 4;

pub const CAPABILITY_CONFIG_READ: u64 = 8;

pub const CAPABILITY_CONFIG_TRANSACTION: u64 = 16;

pub const CAPABILITY_WINDOW_CAPTURE: u64 = 32;

pub const CAPABILITIES: u64 = 63;

/// The role of the process answering the control protocol.
#[derive(Clone, Copy, Debug, PartialEq, Eq, Structural)]
pub enum ProcessRole {
    Engine,
}

/// The Engine's status report.
#[derive(Clone, Copy, Debug, PartialEq, Eq, Structural)]
pub struct EngineStatus {
    pub role: ProcessRole,
    pub webview_count: u16,
    pub process_id: u32,
    pub uptime_ms: u64,
    pub thread_count: u32,
    pub handle_count: u32,
    pub working_set_bytes: u64,
    pub config_available: bool,
    pub config_revision: u64,
    pub config_generation: u64,
    pub config_candidate_prepared: bool,
}

/// A request of the control protocol.
#[derive(Clone, Debug, PartialEq, Eq)]
pub enum Request {
    Hello { auth_secret: [u8; AUTH_SECRET_BYTES], executable_version: String },
    Ping,
    GetStatus,
    Shutdown,
    GetConfig,
    PrepareConfig { expected_revision: u64, config_bytes: Vec<u8> },
    CommitConfig { token: u64, base_revision: u64, base_generation: u64 },
    SetEnabled { expected_revision: u64, enabled: bool },
    BeginWindowCapture { capture_id: u64 },
    PollWindowCapture { capture_id: u64, epoch: u64 },
    CancelWindowCapture { capture_id: u64, epoch: u64 },
}

/// Why the Engine refused a request.
#[derive(Clone, Copy, Debug, PartialEq, Eq, Structural)]
pub enum ErrorCode {
    WrongVersion,
    ExecutableVersionMismatch,
    AuthenticationFailed,
    HelloRequired,
    DuplicateRequestId,
    RequestLimit,
    InvalidMessage,
    ConfigPayloadTooLarge,
    ConfigBusy,
    ConfigRevisionConflict,
    ConfigValidationFailed,
    ConfigTokenMismatch,
    NoPreparedConfig,
    ConfigGenerationExhausted,
    ConfigPersistenceFailed,
    CaptureStale,
    CaptureUnavailable,
    CaptureBackendFailed,
}

/// What was captured of the window under a clicked point.
#[derive(Clone, Debug, PartialEq, Eq)]
pub struct WindowCaptureInfo {
    pub process_name: Option<String>,
    pub window_class: Option<String>,
    pub title: Option<String>,
}

/// The state of a window capture.
#[derive(Clone, Debug, PartialEq, Eq)]
pub enum WindowCaptureResult {
    Pending,
    Captured(WindowCaptureInfo),
}

/// A response of the control protocol.
#[derive(Clone, Debug, PartialEq, Eq)]
pub enum Response {
    Hello { engine_version: String, config_schema_version: u16, capabilities: u64 },
    Pong,
    Status(EngineStatus),
    Shutdown { already_requested: bool },
    Config { revision: u64, generation: u64, config_bytes: Option<Vec<u8>> },
    Prepared { token: u64, base_revision: u64, base_generation: u64 },
    Applied { revision: u64, generation: u64, durability_warning: bool },
    WindowCaptureStarted { capture_id: u64, epoch: u64 },
    WindowCapture { capture_id: u64, epoch: u64, result: WindowCaptureResult },
    WindowCaptureCancelled { capture_id: u64, epoch: u64 },
    Error(ErrorCode),
}

/// A message with its protocol version and request id.
#[derive(Clone, Debug, PartialEq, Eq)]
pub struct Envelope<T> {
    pub protocol_version: u16,
    pub request_id: u64,
    pub message: T,
}

impl<T> Envelope<T> {
    /// Wraps `message` with the current protocol version.
    pub fn current(request_id: u64, message: T) -> (envelope: Self)
        ensures
            envelope.protocol_version == PROTOCOL_VERSION,
            envelope.request_id == request_id,
            envelope.message == message,
    {
        Envelope { protocol_version: PROTOCOL_VERSION, request_id, message }
    }
}

#[verifier::external_type_specification]
#[verifier::external_body]
pub struct ExIoError(std::io::Error);

/// The kinds of I/O failure the control protocol tells apart.
#[derive(Clone, Copy, Debug, PartialEq, Eq, Structural)]
pub enum IoFailureKind {
    TimedOut,
    UnexpectedEof,
    BrokenPipe,
    Other,
}

/// The kind of an I/O error.
///
/// Calls `std::io::Error::kind` and tells its `TimedOut`, `UnexpectedEof`
/// and `BrokenPipe` variants apart; nothing is stated of the answer, which
/// depends on how the error was made.
#[verifier::external_body]
pub(crate) fn io_failure_kind(error: &std::io::Error) -> IoFailureKind {
    match error.kind() {
        std::io::ErrorKind::TimedOut => IoFailureKind::TimedOut,
        std::io::ErrorKind::UnexpectedEof => IoFailureKind::UnexpectedEof,
        std::io::ErrorKind::BrokenPipe => IoFailureKind::BrokenPipe,
        _ => IoFailureKind::Other,
    }
}

/// Why a frame or message could not be read or written.
#[derive(Debug)]
pub enum ProtocolError {
    Io(std::io::Error),
    ZeroLength,
    FrameTooLarge(u32),
    Truncated,
    WrongVersion(u16),
    InvalidMessage,
    InvalidUtf8,
    VersionTooLong,
    MismatchedResponse { expected: u64, actual: u64 },
}

// ---------------------------------------------------------------------------
// Abstract views
// ---------------------------------------------------------------------------
pub enum RequestView {
    Hello { auth_secret: Seq<u8>, executable_version: Seq<char> },
    Ping,
    GetStatus,
    Shutdown,
    GetConfig,
    PrepareConfig { expected_revision: u64, config_bytes: Seq<u8> },
    CommitConfig { token: u64, base_revision: u64, base_generation: u64 },
    SetEnabled { expected_revision: u64, enabled: bool },
    BeginWindowCapture { capture_id: u64 },
    PollWindowCapture { capture_id: u64, epoch: u64 },
    CancelWindowCapture { capture_id: u64, epoch: u64 },
}

pub struct WindowCaptureInfoView {
    pub process_name: Option<Seq<char>>,
    pub window_class: Option<Seq<char>>,
    pub title: Option<Seq<char>>,
}

pub enum WindowCaptureResultView {
    Pending,
    Captured(WindowCaptureInfoView),
}

pub enum ResponseView {
    Hello { engine_version: Seq<char>, config_schema_version: u16, capabilities: u64 },
    Pong,
    Status(EngineStatus),
    Shutdown { already_requested: bool },
    Config { revision: u64, generation: u64, config_bytes: Option<Seq<u8>> },
    Prepared { token: u64, base_revision: u64, base_generation: u64 },
    Applied { revision: u64, generation: u64, durability_warning: bool },
    WindowCaptureStarted { capture_id: u64, epoch: u64 },
    WindowCapture { capture_id: u64, epoch: u64, result: WindowCaptureResultView },
    WindowCaptureCancelled { capture_id: u64, epoch: u64 },
    Error(ErrorCode),
}

pub open spec fn opt_string_view(s: Option<String>) -> Option<Seq<char>> {
    match s {
        Some(s) => Some(s@),
        None => None,
    }
}

pub open spec fn opt_bytes_view(b: Option<Vec<u8>>) -> Option<Seq<u8>> {
    match b {
        Some(b) => Some(b@),
        None => None,
    }
}

impl View for Request {
    type V = RequestView;

    open spec fn view(&self) -> RequestView {
        match self {
            Request::Hello { auth_secret, executable_version } => RequestView::Hello {
                auth_secret: auth_secret@,
                executable_version: executable_version@,
            },
            Request::Ping => RequestView::Ping,
            Request::GetStatus => RequestView::GetStatus,
            Request::Shutdown => RequestView::Shutdown,
            Request::GetConfig => RequestView::GetConfig,
            Request::PrepareConfig { expected_revision, config_bytes } => {
                RequestView::PrepareConfig {
                    expected_revision: *expected_revision,
                    config_bytes: config_bytes@,
                }
            },
            Request::CommitConfig { token, base_revision, base_generation } => {
                RequestView::CommitConfig {
                    token: *token,
                    base_revision: *base_revision,
                    base_generation: *base_generation,
                }
            },
            Request::SetEnabled { expected_revision, enabled } => RequestView::SetEnabled {
                expected_revision: *expected_revision,
                enabled: *enabled,
            },
            Request::BeginWindowCapture { capture_id } => RequestView::BeginWindowCapture {
                capture_id: *capture_id,
            },
            Request::PollWindowCapture { capture_id, epoch } => RequestView::PollWindowCapture {
                capture_id: *capture_id,
                epoch: *epoch,
            },
            Request::CancelWindowCapture { capture_id, epoch } => {
                RequestView::CancelWindowCapture { capture_id: *capture_id, epoch: *epoch }
            },
        }
    }
}

impl View for WindowCaptureInfo {
    type V = WindowCaptureInfoView;

    open spec fn view(&self) -> WindowCaptureInfoView {
        WindowCaptureInfoView {
            process_name: opt_string_view(self.process_name),
            window_class: opt_string_view(self.window_class),
            title: opt_string_view(self.title),
        }
    }
}

impl View for WindowCaptureResult {
    type V = WindowCaptureResultView;

    open spec fn view(&self) -> WindowCaptureResultView {
        match self {
            WindowCaptureResult::Pending => WindowCaptureResultView::Pending,
            WindowCaptureResult::Captured(info) => WindowCaptureResultView::Captured(info@),
        }
    }
}

impl View for Response {
    type V = ResponseView;

    open spec fn view(&self) -> ResponseView {
        match self {
            Response::Hello { engine_version, config_schema_version, capabilities } => {
                ResponseView::Hello {
                    engine_version: engine_version@,
                    config_schema_version: *config_schema_version,
                    capabilities: *capabilities,
                }
            },
            Response::Pong => ResponseView::Pong,
            Response::Status(status) => ResponseView::Status(*status),
            Response::Shutdown { already_requested } => ResponseView::Shutdown {
                already_requested: *already_requested,
            },
            Response::Config { revision, generation, config_bytes } => ResponseView::Config {
                revision: *revision,
                generation: *generation,
                config_bytes: opt_bytes_view(*config_bytes),
            },
            Response::Prepared { token, base_revision, base_generation } => {
                ResponseView::Prepared {
                    token: *token,
                    base_revision: *base_revision,
                    base_generation: *base_generation,
                }
            },
            Response::Applied { revision, generation, durability_warning } => {
                ResponseView::Applied {
                    revision: *revision,
                    generation: *generation,
                    durability_warning: *durability_warning,
                }
            },
            Response::WindowCaptureStarted { capture_id, epoch } => {
                ResponseView::WindowCaptureStarted { capture_id: *capture_id, epoch: *epoch }
            },
            Response::WindowCapture { capture_id, epoch, result } => {
                ResponseView::WindowCapture {
                    capture_id: *capture_id,
                    epoch: *epoch,
                    result: result@,
                }
            },
            Response::WindowCaptureCancelled { capture_id, epoch } => {
                ResponseView::WindowCaptureCancelled { capture_id: *capture_id, epoch: *epoch }
            },
            Response::Error(code) => ResponseView::Error(*code),
        }
    }
}

impl<T: View> View for Envelope<T> {
    type V = Envelope<T::V>;

    open spec fn view(&self) -> Envelope<T::V> {
        Envelope {
            protocol_version: self.protocol_version,
            request_id: self.request_id,
            message: self.message@,
        }
    }
}

/// The view of a codec result: the envelope by its view, the error as is.
pub open spec fn envelope_result_view<T: View>(r: Result<Envelope<T>, ProtocolError>) -> Result<
    Envelope<T::V>,
    ProtocolError,
> {
    match r {
        Ok(envelope) => Ok(envelope@),
        Err(error) => Err(error),
    }
}

/// The view of an encoding result: the bytes by their sequence, the error as is.
pub open spec fn bytes_result_view(r: Result<Vec<u8>, ProtocolError>) -> Result<
    Seq<u8>,
    ProtocolError,
> {
    match r {
        Ok(bytes) => Ok(bytes@),
        Err(error) => Err(error),
    }
}

} // verus!

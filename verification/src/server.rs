//! The Engine side of a control connection: which requests are answered,
//! refused or dispatched, and the responses built from the outcome of a
//! dispatched request.
use vstd::prelude::*;

use crate::text::text_equal;
use crate::control::{capture_error_code, config_error_code, CaptureError, ConfigOwnerError, ControlError};
use crate::message::{
    io_failure_kind, IoFailureKind,
    EngineStatus, ProcessRole,
    ErrorCode, ProtocolError, Request, RequestView, Response, ResponseView, WindowCaptureInfo,
    WindowCaptureResult, AUTH_SECRET_BYTES, CAPABILITIES, MAX_REQUESTS_PER_CONNECTION,
};

verus! {

/// Schema version of the configuration documents the Engine serves.
pub const CONFIG_SCHEMA_VERSION: u16 = 2;

/// Compares two secrets in time independent of where they differ.
pub fn secrets_equal(expected: &[u8; AUTH_SECRET_BYTES], actual: &[u8; AUTH_SECRET_BYTES]) -> (r:
    bool)
    ensures
        r == (expected@ == actual@),
{
    let mut difference: u8 = 0;
    let mut i: usize = 0;
    while i < AUTH_SECRET_BYTES
        invariant
            0 <= i <= AUTH_SECRET_BYTES,
            expected@.len() == AUTH_SECRET_BYTES,
            actual@.len() == AUTH_SECRET_BYTES,
            (difference == 0) <==> (forall|j: int| 0 <= j < i ==> expected@[j] == actual@[j]),
        decreases AUTH_SECRET_BYTES - i,
    {
        let left = expected[i];
        let right = actual[i];
        let next = difference | (left ^ right);
        assert((next == 0) <==> (difference == 0 && left == right)) by (bit_vector)
            requires
                next == difference | (left ^ right),
        ;
        difference = next;
        i = i + 1;
    }
    if difference == 0 {
        assert(expected@ =~= actual@);
    }
    difference == 0
}

/// What the connection does with a decoded request.
pub enum ConnectionStep {
    /// Send the response and read the next request.
    Reply(Response),
    /// Send the response, then close the connection.
    Close(Response),
    /// Hand the request to the dispatcher.
    Dispatch(Request),
}

/// The per-connection state of the Engine server.
pub struct ConnectionState {
    authenticated: bool,
    version_matches: bool,
    shutdown_requested: bool,
    request_ids: Vec<u64>,
}

impl ConnectionState {
    pub closed spec fn is_authenticated(&self) -> bool {
        self.authenticated
    }

    pub closed spec fn version_matches_spec(&self) -> bool {
        self.version_matches
    }

    pub closed spec fn shutdown_requested_spec(&self) -> bool {
        self.shutdown_requested
    }

    /// The request ids seen on this connection, in arrival order.
    pub closed spec fn seen_ids(&self) -> Seq<u64> {
        self.request_ids@
    }

    /// No id is seen twice, and no more ids than a connection may carry.
    pub open spec fn wf(&self) -> bool {
        &&& self.seen_ids().len() <= MAX_REQUESTS_PER_CONNECTION
        &&& self.seen_ids().no_duplicates()
    }

    pub fn new() -> (s: Self)
        ensures
            s.wf(),
            !s.is_authenticated(),
            !s.version_matches_spec(),
            !s.shutdown_requested_spec(),
            s.seen_ids() == Seq::<u64>::empty(),
    {
        ConnectionState {
            authenticated: false,
            version_matches: false,
            shutdown_requested: false,
            request_ids: Vec::new(),
        }
    }

    pub fn version_matches(&self) -> (r: bool)
        ensures
            r == self.version_matches_spec(),
    {
        self.version_matches
    }

    pub fn shutdown_requested(&self) -> (r: bool)
        ensures
            r == self.shutdown_requested_spec(),
    {
        self.shutdown_requested
    }

    fn contains_id(&self, request_id: u64) -> (r: bool)
        ensures
            r == self.seen_ids().contains(request_id),
    {
        let mut i: usize = 0;
        while i < self.request_ids.len()
            invariant
                0 <= i <= self.request_ids@.len(),
                forall|j: int| 0 <= j < i ==> self.request_ids@[j] != request_id,
            decreases self.request_ids@.len() - i,
        {
            if self.request_ids[i] == request_id {
                assert(self.request_ids@[i as int] == request_id);
                return true;
            }
            i = i + 1;
        }
        false
    }

    /// Admits request `request_id`: a connection answers at most
    /// `MAX_REQUESTS_PER_CONNECTION` requests, never the same id twice, and
    /// nothing but an authenticating `Hello` before it is authenticated.
    pub fn on_request(
        &mut self,
        request_id: u64,
        request: Request,
        secret: &[u8; AUTH_SECRET_BYTES],
        engine_version: &str,
    ) -> (step: ConnectionStep)
        requires
            old(self).wf(),
        ensures
            final(self).wf(),
            old(self).seen_ids().len() == MAX_REQUESTS_PER_CONNECTION ==> {
                &&& step matches ConnectionStep::Close(r) && r@ == ResponseView::Error(
                    ErrorCode::RequestLimit,
                )
                &&& *final(self) == *old(self)
            },
            old(self).seen_ids().len() < MAX_REQUESTS_PER_CONNECTION && old(
                self,
            ).seen_ids().contains(request_id) ==> {
                &&& step matches ConnectionStep::Close(r) && r@ == ResponseView::Error(
                    ErrorCode::DuplicateRequestId,
                )
                &&& *final(self) == *old(self)
            },
            old(self).seen_ids().len() < MAX_REQUESTS_PER_CONNECTION && !old(
                self,
            ).seen_ids().contains(request_id) ==> {
                &&& final(self).seen_ids() == old(self).seen_ids().push(request_id)
                &&& final(self).shutdown_requested_spec() == old(self).shutdown_requested_spec()
                &&& old(self).is_authenticated() ==> {
                    &&& step == ConnectionStep::Dispatch(request)
                    &&& final(self).is_authenticated()
                    &&& final(self).version_matches_spec() == old(self).version_matches_spec()
                }
                &&& !old(self).is_authenticated() ==> match request@ {
                    RequestView::Hello { auth_secret, executable_version } => if auth_secret
                        == secret@ {
                        &&& step matches ConnectionStep::Reply(r) && r@ == (ResponseView::Hello {
                            engine_version: engine_version@,
                            config_schema_version: CONFIG_SCHEMA_VERSION,
                            capabilities: CAPABILITIES,
                        })
                        &&& final(self).is_authenticated()
                        &&& final(self).version_matches_spec() == (executable_version
                            == engine_version@)
                    } else {
                        &&& step matches ConnectionStep::Close(r) && r@ == ResponseView::Error(
                            ErrorCode::AuthenticationFailed,
                        )
                        &&& !final(self).is_authenticated()
                    },
                    _ => {
                        &&& step matches ConnectionStep::Close(r) && r@ == ResponseView::Error(
                            ErrorCode::HelloRequired,
                        )
                        &&& !final(self).is_authenticated()
                    },
                }
            },
    {
        if self.request_ids.len() == MAX_REQUESTS_PER_CONNECTION {
            return ConnectionStep::Close(Response::Error(ErrorCode::RequestLimit));
        }
        if self.contains_id(request_id) {
            return ConnectionStep::Close(Response::Error(ErrorCode::DuplicateRequestId));
        }
        self.request_ids.push(request_id);
        if !self.authenticated {
            match request {
                Request::Hello { auth_secret, executable_version } => {
                    if secrets_equal(secret, &auth_secret) {
                        self.authenticated = true;
                        self.version_matches = text_equal(executable_version.as_str(), engine_version);
                        ConnectionStep::Reply(
                            Response::Hello {
                                engine_version: engine_version.to_owned(),
                                config_schema_version: CONFIG_SCHEMA_VERSION,
                                capabilities: CAPABILITIES,
                            },
                        )
                    } else {
                        ConnectionStep::Close(Response::Error(ErrorCode::AuthenticationFailed))
                    }
                },
                _ => ConnectionStep::Close(Response::Error(ErrorCode::HelloRequired)),
            }
        } else {
            ConnectionStep::Dispatch(request)
        }
    }

    /// Records a `Shutdown` request; whether one had already been recorded.
    pub fn request_shutdown(&mut self) -> (already_requested: bool)
        requires
            old(self).wf(),
        ensures
            final(self).wf(),
            already_requested == old(self).shutdown_requested_spec(),
            final(self).shutdown_requested_spec(),
            final(self).seen_ids() == old(self).seen_ids(),
            final(self).is_authenticated() == old(self).is_authenticated(),
            final(self).version_matches_spec() == old(self).version_matches_spec(),
    {
        let already_requested = self.shutdown_requested;
        self.shutdown_requested = true;
        already_requested
    }
}

/// The work a dispatched request asks of the Engine.
pub enum DispatchPlan {
    /// Answer at once with the response.
    Respond(Response),
    /// Recording the shutdown request, then answering it.
    Shutdown,
    /// Reading the process status.
    Status,
    /// Reading the current configuration.
    ReadConfig,
    Prepare { expected_revision: u64, config_bytes: Vec<u8> },
    Commit { token: u64, base_revision: u64, base_generation: u64 },
    SetEnabled { expected_revision: u64, enabled: bool },
    BeginCapture { capture_id: u64 },
    PollCapture { capture_id: u64, epoch: u64 },
    CancelCapture { capture_id: u64, epoch: u64 },
}

/// Decides how an authenticated connection serves `request`: requests that
/// change the Engine are refused unless the client runs the same version.
pub fn dispatch_plan(request: Request, version_matches: bool) -> (plan: DispatchPlan)
    ensures
        match request@ {
            RequestView::Hello { .. } => plan matches DispatchPlan::Respond(r) && r@
                == ResponseView::Error(ErrorCode::InvalidMessage),
            RequestView::Ping => plan matches DispatchPlan::Respond(r) && r@ == ResponseView::Pong,
            RequestView::GetStatus => plan is Status,
            RequestView::GetConfig => plan is ReadConfig,
            _ => if !version_matches {
                plan matches DispatchPlan::Respond(r) && r@ == ResponseView::Error(
                    ErrorCode::ExecutableVersionMismatch,
                )
            } else {
                match request@ {
                    RequestView::Shutdown => plan is Shutdown,
                    RequestView::PrepareConfig { expected_revision, config_bytes } => plan matches DispatchPlan::Prepare {
                        expected_revision: x,
                        config_bytes: b,
                    } && x == expected_revision && b@ == config_bytes,
                    RequestView::CommitConfig { token, base_revision, base_generation } => plan
                        == DispatchPlan::Commit { token, base_revision, base_generation },
                    RequestView::SetEnabled { expected_revision, enabled } => plan
                        == DispatchPlan::SetEnabled { expected_revision, enabled },
                    RequestView::BeginWindowCapture { capture_id } => plan
                        == DispatchPlan::BeginCapture { capture_id },
                    RequestView::PollWindowCapture { capture_id, epoch } => plan
                        == DispatchPlan::PollCapture { capture_id, epoch },
                    RequestView::CancelWindowCapture { capture_id, epoch } => plan
                        == DispatchPlan::CancelCapture { capture_id, epoch },
                    _ => false,
                }
            },
        },
{
    match request {
        Request::Hello { .. } => DispatchPlan::Respond(Response::Error(ErrorCode::InvalidMessage)),
        Request::Ping => DispatchPlan::Respond(Response::Pong),
        Request::GetStatus => DispatchPlan::Status,
        Request::GetConfig => DispatchPlan::ReadConfig,
        _ => {
            if !version_matches {
                DispatchPlan::Respond(Response::Error(ErrorCode::ExecutableVersionMismatch))
            } else {
                match request {
                    Request::Shutdown => DispatchPlan::Shutdown,
                    Request::PrepareConfig { expected_revision, config_bytes } => {
                        DispatchPlan::Prepare { expected_revision, config_bytes }
                    },
                    Request::CommitConfig { token, base_revision, base_generation } => {
                        DispatchPlan::Commit { token, base_revision, base_generation }
                    },
                    Request::SetEnabled { expected_revision, enabled } => DispatchPlan::SetEnabled {
                        expected_revision,
                        enabled,
                    },
                    Request::BeginWindowCapture { capture_id } => DispatchPlan::BeginCapture {
                        capture_id,
                    },
                    Request::PollWindowCapture { capture_id, epoch } => DispatchPlan::PollCapture {
                        capture_id,
                        epoch,
                    },
                    Request::CancelWindowCapture { capture_id, epoch } => {
                        DispatchPlan::CancelCapture { capture_id, epoch }
                    },
                    _ => DispatchPlan::Respond(Response::Error(ErrorCode::InvalidMessage)),
                }
            }
        },
    }
}

/// The answer to `GetConfig` from what the configuration owner returned.
pub fn config_response(result: Result<(u64, u64, Option<Vec<u8>>), ConfigOwnerError>) -> (r:
    Response)
    ensures
        match result {
            Ok((revision, generation, bytes)) => r@ == (ResponseView::Config {
                revision,
                generation,
                config_bytes: crate::message::opt_bytes_view(bytes),
            }),
            Err(e) => r@ == ResponseView::Error(config_error_code_spec(e)),
        },
{
    match result {
        Ok((revision, generation, config_bytes)) => Response::Config {
            revision,
            generation,
            config_bytes,
        },
        Err(error) => Response::Error(config_error_code(error)),
    }
}

pub open spec fn config_error_code_spec(error: ConfigOwnerError) -> ErrorCode {
    match error {
        ConfigOwnerError::PayloadTooLarge => ErrorCode::ConfigPayloadTooLarge,
        ConfigOwnerError::Busy => ErrorCode::ConfigBusy,
        ConfigOwnerError::RevisionConflict => ErrorCode::ConfigRevisionConflict,
        ConfigOwnerError::ValidationFailed => ErrorCode::ConfigValidationFailed,
        ConfigOwnerError::TokenMismatch => ErrorCode::ConfigTokenMismatch,
        ConfigOwnerError::NoPreparedConfig => ErrorCode::NoPreparedConfig,
        ConfigOwnerError::GenerationExhausted => ErrorCode::ConfigGenerationExhausted,
        ConfigOwnerError::PersistenceFailed => ErrorCode::ConfigPersistenceFailed,
    }
}

pub open spec fn capture_error_code_spec(error: CaptureError) -> ErrorCode {
    match error {
        CaptureError::Stale => ErrorCode::CaptureStale,
        CaptureError::Unavailable => ErrorCode::CaptureUnavailable,
    }
}

/// The answer to `PrepareConfig` from the prepared token and base.
pub fn prepared_response(result: Result<(u64, u64, u64), ConfigOwnerError>) -> (r: Response)
    ensures
        match result {
            Ok((token, base_revision, base_generation)) => r@ == (ResponseView::Prepared {
                token,
                base_revision,
                base_generation,
            }),
            Err(e) => r@ == ResponseView::Error(config_error_code_spec(e)),
        },
{
    match result {
        Ok((token, base_revision, base_generation)) => Response::Prepared {
            token,
            base_revision,
            base_generation,
        },
        Err(error) => Response::Error(config_error_code(error)),
    }
}

/// Why an applied configuration could not be projected: the owner reported
/// success but holds no active configuration.
pub const NO_ACTIVE_CONFIG: &'static str = "successful commit has no active config";

/// The answer to a `CommitConfig` or `SetEnabled` that the configuration
/// owner applied, as `(revision, generation, durability_warning)`. Before it
/// is answered, the active configuration is projected into the running
/// Engine: `projection` is `None` when the owner holds no active
/// configuration, so that nothing could be projected, and otherwise what the
/// projection returned. A failed projection is the connection's error, not
/// an answer.
pub fn applied_response(applied: (u64, u64, bool), projection: Option<Result<(), ControlError>>) -> (r:
    Result<Response, ControlError>)
    ensures
        match projection {
            None => r matches Err(ControlError::ProjectionFailed(d)) && d@ == NO_ACTIVE_CONFIG@,
            Some(Err(e)) => r == Err::<Response, ControlError>(e),
            Some(Ok(())) => r matches Ok(response) && response@ == (ResponseView::Applied {
                revision: applied.0,
                generation: applied.1,
                durability_warning: applied.2,
            }),
        },
{
    match projection {
        None => Err(ControlError::projection(NO_ACTIVE_CONFIG.to_owned())),
        Some(Err(error)) => Err(error),
        Some(Ok(())) => {
            let (revision, generation, durability_warning) = applied;
            Ok(Response::Applied { revision, generation, durability_warning })
        },
    }
}

/// The answer to `BeginWindowCapture` from the epoch the capture began at.
pub fn capture_started_response(capture_id: u64, result: Result<u64, CaptureError>) -> (r:
    Response)
    ensures
        match result {
            Ok(epoch) => r@ == (ResponseView::WindowCaptureStarted { capture_id, epoch }),
            Err(e) => r@ == ResponseView::Error(capture_error_code_spec(e)),
        },
{
    match result {
        Ok(epoch) => Response::WindowCaptureStarted { capture_id, epoch },
        Err(error) => Response::Error(capture_error_code(error)),
    }
}

/// The state of a polled capture: still waiting, or a point was captured and
/// the window under it was (or could not be) resolved.
pub enum CapturePollOutcome {
    Pending,
    Captured(Result<WindowCaptureInfo, ()>),
}

/// The answer to `PollWindowCapture`.
pub fn capture_poll_response(
    capture_id: u64,
    epoch: u64,
    result: Result<CapturePollOutcome, CaptureError>,
) -> (r: Response)
    ensures
        match result {
            Ok(CapturePollOutcome::Pending) => r@ == (ResponseView::WindowCapture {
                capture_id,
                epoch,
                result: crate::message::WindowCaptureResultView::Pending,
            }),
            Ok(CapturePollOutcome::Captured(Ok(info))) => r@ == (ResponseView::WindowCapture {
                capture_id,
                epoch,
                result: crate::message::WindowCaptureResultView::Captured(info@),
            }),
            Ok(CapturePollOutcome::Captured(Err(()))) => r@ == ResponseView::Error(
                ErrorCode::CaptureBackendFailed,
            ),
            Err(e) => r@ == ResponseView::Error(capture_error_code_spec(e)),
        },
{
    match result {
        Ok(CapturePollOutcome::Pending) => Response::WindowCapture {
            capture_id,
            epoch,
            result: WindowCaptureResult::Pending,
        },
        Ok(CapturePollOutcome::Captured(Ok(info))) => Response::WindowCapture {
            capture_id,
            epoch,
            result: WindowCaptureResult::Captured(info),
        },
        Ok(CapturePollOutcome::Captured(Err(()))) => Response::Error(
            ErrorCode::CaptureBackendFailed,
        ),
        Err(error) => Response::Error(capture_error_code(error)),
    }
}

/// The answer to `CancelWindowCapture`.
pub fn capture_cancelled_response(capture_id: u64, epoch: u64, result: Result<(), CaptureError>) -> (r:
    Response)
    ensures
        match result {
            Ok(()) => r@ == (ResponseView::WindowCaptureCancelled { capture_id, epoch }),
            Err(e) => r@ == ResponseView::Error(capture_error_code_spec(e)),
        },
{
    match result {
        Ok(()) => Response::WindowCaptureCancelled { capture_id, epoch },
        Err(error) => Response::Error(capture_error_code(error)),
    }
}

/// How a finished connection affects the server loop: a failed projection
/// of an applied configuration stops the server, any other failure only
/// ends the connection; otherwise whether shutdown was requested.
pub fn connection_outcome(result: Result<bool, ControlError>) -> (r: Result<bool, ControlError>)
    ensures
        match result {
            Ok(shutdown) => r == Ok::<bool, ControlError>(shutdown),
            Err(ControlError::ProjectionFailed(d)) => r == Err::<bool, ControlError>(
                ControlError::ProjectionFailed(d),
            ),
            Err(_) => r == Ok::<bool, ControlError>(false),
        },
{
    match result {
        Ok(shutdown_requested) => Ok(shutdown_requested),
        Err(ControlError::ProjectionFailed(description)) => Err(
            ControlError::ProjectionFailed(description),
        ),
        Err(_) => Ok(false),
    }
}

/// After a frame could not be read: `None` to end the connection quietly,
/// or the error code to answer (under request id 1) before closing.
pub fn read_failure_code(error: &ProtocolError) -> (r: Option<ErrorCode>)
    ensures
        !(*error is Io) ==> r == Some(
            if *error is WrongVersion {
                ErrorCode::WrongVersion
            } else {
                ErrorCode::InvalidMessage
            },
        ),
        *error is Io ==> r is None || r == Some(ErrorCode::InvalidMessage),
{
    match error {
        ProtocolError::Io(io_error) => {
            if io_failure_kind(io_error) != IoFailureKind::Other {
                None
            } else {
                Some(ErrorCode::InvalidMessage)
            }
        },
        ProtocolError::WrongVersion(_) => Some(ErrorCode::WrongVersion),
        _ => Some(ErrorCode::InvalidMessage),
    }
}

/// What the configuration owner reports about its state.
#[derive(Clone, Copy, Debug, PartialEq, Eq, Structural)]
pub struct ConfigOwnerStatus {
    pub available: bool,
    pub revision: u64,
    pub generation: u64,
    pub candidate_prepared: bool,
}

/// The Engine's status report from its process facts: the process id, how
/// long it has run (saturated to `u64` milliseconds), its resource counts
/// when they could be read, and the configuration owner's state.
pub fn process_status(
    process_id: u32,
    uptime_ms: u128,
    resources: Result<(u32, u32, u64), ControlError>,
    config: ConfigOwnerStatus,
) -> (r: Result<EngineStatus, ControlError>)
    ensures
        match resources {
            Err(e) => r == Err::<EngineStatus, ControlError>(e),
            Ok((thread_count, handle_count, working_set_bytes)) => r == Ok::<
                EngineStatus,
                ControlError,
            >(
                EngineStatus {
                    role: ProcessRole::Engine,
                    webview_count: 0,
                    process_id,
                    uptime_ms: if uptime_ms <= u64::MAX {
                        uptime_ms as u64
                    } else {
                        u64::MAX
                    },
                    thread_count,
                    handle_count,
                    working_set_bytes,
                    config_available: config.available,
                    config_revision: config.revision,
                    config_generation: config.generation,
                    config_candidate_prepared: config.candidate_prepared,
                },
            ),
        },
{
    let (thread_count, handle_count, working_set_bytes) = match resources {
        Ok(counts) => counts,
        Err(error) => {
            return Err(error);
        },
    };
    let uptime: u64 = if uptime_ms <= 0xFFFF_FFFF_FFFF_FFFF {
        uptime_ms as u64
    } else {
        0xFFFF_FFFF_FFFF_FFFF
    };
    Ok(
        EngineStatus {
            role: ProcessRole::Engine,
            webview_count: 0,
            process_id,
            uptime_ms: uptime,
            thread_count,
            handle_count,
            working_set_bytes,
            config_available: config.available,
            config_revision: config.revision,
            config_generation: config.generation,
            config_candidate_prepared: config.candidate_prepared,
        },
    )
}

} // verus!

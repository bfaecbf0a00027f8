//! The wire format of Engine IPC messages, stated as functions on byte
//! sequences.
//!
//! A frame body is a 12-byte header (little-endian protocol version, a
//! message tag, one reserved zero byte and the little-endian request id)
//! followed by a tag-specific payload.
use vstd::bytes::*;
use vstd::prelude::*;
use vstd::utf8::*;

use crate::message::{
    Envelope, EngineStatus, ErrorCode, ProcessRole, ProtocolError, RequestView, ResponseView,
    WindowCaptureInfoView, WindowCaptureResultView, AUTH_SECRET_BYTES, HEADER_BYTES,
    MAX_CAPTURE_TEXT_BYTES, MAX_CONFIG_BYTES, MAX_ENCODED_FRAME, MAX_VERSION_BYTES,
    PROTOCOL_VERSION,
};

verus! {

pub open spec fn le16(x: u16) -> Seq<u8> {
    spec_u16_to_le_bytes(x)
}

pub open spec fn le32(x: u32) -> Seq<u8> {
    spec_u32_to_le_bytes(x)
}

pub open spec fn le64(x: u64) -> Seq<u8> {
    spec_u64_to_le_bytes(x)
}

pub open spec fn bool_byte(b: bool) -> u8 {
    if b {
        1
    } else {
        0
    }
}

/// `x` narrowed to `u32`, saturating at `u32::MAX`.
pub open spec fn saturate_u32(x: int) -> u32 {
    if 0 <= x <= u32::MAX {
        x as u32
    } else {
        u32::MAX
    }
}

/// The body of a frame: header followed by payload.
pub open spec fn frame_body(version: u16, tag: u8, request_id: u64, payload: Seq<u8>) -> Seq<u8> {
    le16(version) + seq![tag, 0u8] + le64(request_id) + payload
}

/// Frame body, or the error for a body too large to fit a frame.
pub open spec fn spec_encode_envelope(version: u16, tag: u8, request_id: u64, payload: Seq<u8>) -> Result<
    Seq<u8>,
    ProtocolError,
> {
    if HEADER_BYTES + payload.len() + 4 > MAX_ENCODED_FRAME {
        Err(ProtocolError::FrameTooLarge(saturate_u32(HEADER_BYTES + payload.len())))
    } else {
        Ok(frame_body(version, tag, request_id, payload))
    }
}

/// A short string: one length byte, then its UTF-8 bytes.
pub open spec fn short_text(s: Seq<char>) -> Seq<u8> {
    seq![encode_utf8(s).len() as u8] + encode_utf8(s)
}

/// An optional capture text: `0xFFFF` for none, else a 16-bit length and the
/// UTF-8 bytes.
pub open spec fn optional_text(s: Option<Seq<char>>) -> Seq<u8> {
    match s {
        None => le16(0xFFFF),
        Some(s) => le16(encode_utf8(s).len() as u16) + encode_utf8(s),
    }
}

pub open spec fn optional_text_fits(s: Option<Seq<char>>) -> bool {
    match s {
        None => true,
        Some(s) => encode_utf8(s).len() <= MAX_CAPTURE_TEXT_BYTES,
    }
}

pub open spec fn error_code_byte_spec(code: ErrorCode) -> u8 {
    match code {
        ErrorCode::WrongVersion => 1,
        ErrorCode::ExecutableVersionMismatch => 2,
        ErrorCode::AuthenticationFailed => 3,
        ErrorCode::HelloRequired => 4,
        ErrorCode::DuplicateRequestId => 5,
        ErrorCode::RequestLimit => 6,
        ErrorCode::InvalidMessage => 7,
        ErrorCode::ConfigPayloadTooLarge => 8,
        ErrorCode::ConfigBusy => 9,
        ErrorCode::ConfigRevisionConflict => 10,
        ErrorCode::ConfigValidationFailed => 11,
        ErrorCode::ConfigTokenMismatch => 12,
        ErrorCode::NoPreparedConfig => 13,
        ErrorCode::ConfigGenerationExhausted => 14,
        ErrorCode::ConfigPersistenceFailed => 15,
        ErrorCode::CaptureStale => 16,
        ErrorCode::CaptureUnavailable => 17,
        ErrorCode::CaptureBackendFailed => 18,
    }
}

pub open spec fn byte_error_code_spec(byte: u8) -> Option<ErrorCode> {
    if byte == 1 {
        Some(ErrorCode::WrongVersion)
    } else if byte == 2 {
        Some(ErrorCode::ExecutableVersionMismatch)
    } else if byte == 3 {
        Some(ErrorCode::AuthenticationFailed)
    } else if byte == 4 {
        Some(ErrorCode::HelloRequired)
    } else if byte == 5 {
        Some(ErrorCode::DuplicateRequestId)
    } else if byte == 6 {
        Some(ErrorCode::RequestLimit)
    } else if byte == 7 {
        Some(ErrorCode::InvalidMessage)
    } else if byte == 8 {
        Some(ErrorCode::ConfigPayloadTooLarge)
    } else if byte == 9 {
        Some(ErrorCode::ConfigBusy)
    } else if byte == 10 {
        Some(ErrorCode::ConfigRevisionConflict)
    } else if byte == 11 {
        Some(ErrorCode::ConfigValidationFailed)
    } else if byte == 12 {
        Some(ErrorCode::ConfigTokenMismatch)
    } else if byte == 13 {
        Some(ErrorCode::NoPreparedConfig)
    } else if byte == 14 {
        Some(ErrorCode::ConfigGenerationExhausted)
    } else if byte == 15 {
        Some(ErrorCode::ConfigPersistenceFailed)
    } else if byte == 16 {
        Some(ErrorCode::CaptureStale)
    } else if byte == 17 {
        Some(ErrorCode::CaptureUnavailable)
    } else if byte == 18 {
        Some(ErrorCode::CaptureBackendFailed)
    } else {
        None
    }
}

// ---------------------------------------------------------------------------
// Requests
// ---------------------------------------------------------------------------
pub open spec fn request_tag(r: RequestView) -> u8 {
    match r {
        RequestView::Hello { .. } => 1,
        RequestView::Ping => 2,
        RequestView::GetStatus => 3,
        RequestView::Shutdown => 4,
        RequestView::GetConfig => 5,
        RequestView::PrepareConfig { .. } => 6,
        RequestView::CommitConfig { .. } => 7,
        RequestView::SetEnabled { .. } => 8,
        RequestView::BeginWindowCapture { .. } => 9,
        RequestView::PollWindowCapture { .. } => 10,
        RequestView::CancelWindowCapture { .. } => 11,
    }
}

pub open spec fn request_payload(r: RequestView) -> Seq<u8> {
    match r {
        RequestView::Hello { auth_secret, executable_version } => auth_secret + short_text(
            executable_version,
        ),
        RequestView::PrepareConfig { expected_revision, config_bytes } => le64(expected_revision)
            + le32(config_bytes.len() as u32) + config_bytes,
        RequestView::CommitConfig { token, base_revision, base_generation } => le64(token) + le64(
            base_revision,
        ) + le64(base_generation),
        RequestView::SetEnabled { expected_revision, enabled } => le64(expected_revision) + seq![
            bool_byte(enabled),
        ],
        RequestView::BeginWindowCapture { capture_id } => le64(capture_id),
        RequestView::PollWindowCapture { capture_id, epoch } => le64(capture_id) + le64(epoch),
        RequestView::CancelWindowCapture { capture_id, epoch } => le64(capture_id) + le64(epoch),
        _ => Seq::empty(),
    }
}

/// The error that refuses to encode `r`, if any.
pub open spec fn request_encode_error(r: RequestView) -> Option<ProtocolError> {
    match r {
        RequestView::Hello { executable_version, .. } => {
            if encode_utf8(executable_version).len() > MAX_VERSION_BYTES {
                Some(ProtocolError::VersionTooLong)
            } else {
                None
            }
        },
        RequestView::PrepareConfig { config_bytes, .. } => {
            if config_bytes.len() > MAX_CONFIG_BYTES {
                Some(ProtocolError::FrameTooLarge(saturate_u32(config_bytes.len() as int)))
            } else {
                None
            }
        },
        _ => None,
    }
}

pub open spec fn spec_encode_request(e: Envelope<RequestView>) -> Result<Seq<u8>, ProtocolError> {
    match request_encode_error(e.message) {
        Some(error) => Err(error),
        None => spec_encode_envelope(
            e.protocol_version,
            request_tag(e.message),
            e.request_id,
            request_payload(e.message),
        ),
    }
}

/// A request view that a `Request` value can have.
pub open spec fn request_view_wf(r: RequestView) -> bool {
    match r {
        RequestView::Hello { auth_secret, .. } => auth_secret.len() == AUTH_SECRET_BYTES,
        _ => true,
    }
}

// ---------------------------------------------------------------------------
// Responses
// ---------------------------------------------------------------------------
pub open spec fn response_tag(r: ResponseView) -> u8 {
    match r {
        ResponseView::Hello { .. } => 129,
        ResponseView::Pong => 130,
        ResponseView::Status(..) => 131,
        ResponseView::Shutdown { .. } => 132,
        ResponseView::Config { .. } => 133,
        ResponseView::Prepared { .. } => 134,
        ResponseView::Applied { .. } => 135,
        ResponseView::WindowCaptureStarted { .. } => 136,
        ResponseView::WindowCapture { .. } => 137,
        ResponseView::WindowCaptureCancelled { .. } => 138,
        ResponseView::Error(..) => 255,
    }
}

pub open spec fn status_payload(s: EngineStatus) -> Seq<u8> {
    seq![1u8] + le16(s.webview_count) + le32(s.process_id) + le64(s.uptime_ms) + le32(
        s.thread_count,
    ) + le32(s.handle_count) + le64(s.working_set_bytes) + seq![bool_byte(s.config_available)]
        + le64(s.config_revision) + le64(s.config_generation) + seq![
        bool_byte(s.config_candidate_prepared),
    ]
}

pub open spec fn capture_result_payload(result: WindowCaptureResultView) -> Seq<u8> {
    match result {
        WindowCaptureResultView::Pending => seq![0u8],
        WindowCaptureResultView::Captured(info) => seq![1u8] + optional_text(info.process_name)
            + optional_text(info.window_class) + optional_text(info.title),
    }
}

pub open spec fn response_payload(r: ResponseView) -> Seq<u8> {
    match r {
        ResponseView::Hello { engine_version, config_schema_version, capabilities } => short_text(
            engine_version,
        ) + le16(config_schema_version) + le64(capabilities),
        ResponseView::Pong => Seq::empty(),
        ResponseView::Status(status) => status_payload(status),
        ResponseView::Shutdown { already_requested } => seq![bool_byte(already_requested)],
        ResponseView::Config { revision, generation, config_bytes } => match config_bytes {
            None => le64(revision) + le64(generation) + seq![0u8],
            Some(bytes) => le64(revision) + le64(generation) + seq![1u8] + le32(bytes.len() as u32)
                + bytes,
        },
        ResponseView::Prepared { token, base_revision, base_generation } => le64(token) + le64(
            base_revision,
        ) + le64(base_generation),
        ResponseView::Applied { revision, generation, durability_warning } => le64(revision)
            + le64(generation) + seq![bool_byte(durability_warning)],
        ResponseView::WindowCaptureStarted { capture_id, epoch } => le64(capture_id) + le64(epoch),
        ResponseView::WindowCapture { capture_id, epoch, result } => le64(capture_id) + le64(epoch)
            + capture_result_payload(result),
        ResponseView::WindowCaptureCancelled { capture_id, epoch } => le64(capture_id) + le64(
            epoch,
        ),
        ResponseView::Error(code) => seq![error_code_byte_spec(code)],
    }
}

/// The error that refuses to encode `r`, if any.
pub open spec fn response_encode_error(r: ResponseView) -> Option<ProtocolError> {
    match r {
        ResponseView::Hello { engine_version, .. } => {
            if encode_utf8(engine_version).len() > MAX_VERSION_BYTES {
                Some(ProtocolError::VersionTooLong)
            } else {
                None
            }
        },
        ResponseView::Config { config_bytes: Some(bytes), .. } => {
            if bytes.len() > MAX_CONFIG_BYTES {
                Some(ProtocolError::FrameTooLarge(saturate_u32(bytes.len() as int)))
            } else {
                None
            }
        },
        ResponseView::WindowCapture { result: WindowCaptureResultView::Captured(info), .. } => {
            if optional_text_fits(info.process_name) && optional_text_fits(info.window_class)
                && optional_text_fits(info.title) {
                None
            } else {
                Some(ProtocolError::InvalidMessage)
            }
        },
        _ => None,
    }
}

pub open spec fn spec_encode_response(e: Envelope<ResponseView>) -> Result<Seq<u8>, ProtocolError> {
    match response_encode_error(e.message) {
        Some(error) => Err(error),
        None => spec_encode_envelope(
            e.protocol_version,
            response_tag(e.message),
            e.request_id,
            response_payload(e.message),
        ),
    }
}

// ---------------------------------------------------------------------------
// Decoding
// ---------------------------------------------------------------------------
/// The fields of a frame header: version, tag and request id, after the
/// checks that every frame must pass.
pub open spec fn spec_decode_header(b: Seq<u8>) -> Result<(u16, u8, u64), ProtocolError> {
    if b.len() < HEADER_BYTES {
        Err(ProtocolError::InvalidMessage)
    } else if spec_u16_from_le_bytes(b.subrange(0, 2)) != PROTOCOL_VERSION {
        Err(ProtocolError::WrongVersion(spec_u16_from_le_bytes(b.subrange(0, 2))))
    } else if b[3] != 0 {
        Err(ProtocolError::InvalidMessage)
    } else if spec_u64_from_le_bytes(b.subrange(4, 12)) == 0 {
        Err(ProtocolError::InvalidMessage)
    } else {
        Ok((PROTOCOL_VERSION, b[2], spec_u64_from_le_bytes(b.subrange(4, 12))))
    }
}

/// A short string starting at `pos`, and the position after it.
pub open spec fn short_text_at(p: Seq<u8>, pos: int) -> Result<(Seq<char>, int), ProtocolError> {
    if pos + 1 > p.len() {
        Err(ProtocolError::InvalidMessage)
    } else if p[pos] > MAX_VERSION_BYTES {
        Err(ProtocolError::VersionTooLong)
    } else if pos + 1 + p[pos] > p.len() {
        Err(ProtocolError::InvalidMessage)
    } else if !valid_utf8(p.subrange(pos + 1, pos + 1 + p[pos])) {
        Err(ProtocolError::InvalidUtf8)
    } else {
        Ok((decode_utf8(p.subrange(pos + 1, pos + 1 + p[pos])), pos + 1 + p[pos]))
    }
}

/// An optional capture text starting at `pos`, and the position after it.
pub open spec fn optional_text_at(p: Seq<u8>, pos: int) -> Result<
    (Option<Seq<char>>, int),
    ProtocolError,
> {
    if pos + 2 > p.len() {
        Err(ProtocolError::InvalidMessage)
    } else {
        let n = spec_u16_from_le_bytes(p.subrange(pos, pos + 2));
        if n == 0xFFFF {
            Ok((None, pos + 2))
        } else if n > MAX_CAPTURE_TEXT_BYTES {
            Err(ProtocolError::InvalidMessage)
        } else if pos + 2 + n > p.len() {
            Err(ProtocolError::InvalidMessage)
        } else if !valid_utf8(p.subrange(pos + 2, pos + 2 + n)) {
            Err(ProtocolError::InvalidUtf8)
        } else {
            Ok((Some(decode_utf8(p.subrange(pos + 2, pos + 2 + n))), pos + 2 + n))
        }
    }
}

/// A length-prefixed byte string of at most `max` bytes starting at `pos`,
/// and the position after it.
pub open spec fn bounded_bytes_at(p: Seq<u8>, pos: int, max: int) -> Result<
    (Seq<u8>, int),
    ProtocolError,
> {
    if pos + 4 > p.len() {
        Err(ProtocolError::InvalidMessage)
    } else {
        let n = spec_u32_from_le_bytes(p.subrange(pos, pos + 4));
        if n > max {
            Err(ProtocolError::InvalidMessage)
        } else if pos + 4 + n > p.len() {
            Err(ProtocolError::InvalidMessage)
        } else {
            Ok((p.subrange(pos + 4, pos + 4 + n), pos + 4 + n))
        }
    }
}

pub open spec fn u64_at(p: Seq<u8>, pos: int) -> u64 {
    spec_u64_from_le_bytes(p.subrange(pos, pos + 8))
}

pub open spec fn u32_at(p: Seq<u8>, pos: int) -> u32 {
    spec_u32_from_le_bytes(p.subrange(pos, pos + 4))
}

pub open spec fn u16_at(p: Seq<u8>, pos: int) -> u16 {
    spec_u16_from_le_bytes(p.subrange(pos, pos + 2))
}

/// The payload of a request with tag `tag`.
pub open spec fn spec_decode_request_payload(tag: u8, p: Seq<u8>) -> Result<
    RequestView,
    ProtocolError,
> {
    if tag == 1 {
        if p.len() < AUTH_SECRET_BYTES + 1 {
            Err(ProtocolError::InvalidMessage)
        } else {
            match short_text_at(p, AUTH_SECRET_BYTES as int) {
                Err(error) => Err(error),
                Ok((version, end)) => if end == p.len() {
                    Ok(
                        RequestView::Hello {
                            auth_secret: p.subrange(0, AUTH_SECRET_BYTES as int),
                            executable_version: version,
                        },
                    )
                } else {
                    Err(ProtocolError::InvalidMessage)
                },
            }
        }
    } else if 2 <= tag <= 5 {
        if p.len() != 0 {
            Err(ProtocolError::InvalidMessage)
        } else if tag == 2 {
            Ok(RequestView::Ping)
        } else if tag == 3 {
            Ok(RequestView::GetStatus)
        } else if tag == 4 {
            Ok(RequestView::Shutdown)
        } else {
            Ok(RequestView::GetConfig)
        }
    } else if tag == 6 {
        if p.len() < 8 {
            Err(ProtocolError::InvalidMessage)
        } else {
            match bounded_bytes_at(p, 8, MAX_CONFIG_BYTES as int) {
                Err(error) => Err(error),
                Ok((bytes, end)) => if end == p.len() {
                    Ok(
                        RequestView::PrepareConfig {
                            expected_revision: u64_at(p, 0),
                            config_bytes: bytes,
                        },
                    )
                } else {
                    Err(ProtocolError::InvalidMessage)
                },
            }
        }
    } else if tag == 7 {
        if p.len() == 24 {
            Ok(
                RequestView::CommitConfig {
                    token: u64_at(p, 0),
                    base_revision: u64_at(p, 8),
                    base_generation: u64_at(p, 16),
                },
            )
        } else {
            Err(ProtocolError::InvalidMessage)
        }
    } else if tag == 8 {
        if p.len() == 9 && p[8] <= 1 {
            Ok(RequestView::SetEnabled { expected_revision: u64_at(p, 0), enabled: p[8] == 1 })
        } else {
            Err(ProtocolError::InvalidMessage)
        }
    } else if tag == 9 {
        if p.len() == 8 {
            Ok(RequestView::BeginWindowCapture { capture_id: u64_at(p, 0) })
        } else {
            Err(ProtocolError::InvalidMessage)
        }
    } else if tag == 10 || tag == 11 {
        if p.len() != 16 {
            Err(ProtocolError::InvalidMessage)
        } else if tag == 10 {
            Ok(RequestView::PollWindowCapture { capture_id: u64_at(p, 0), epoch: u64_at(p, 8) })
        } else {
            Ok(RequestView::CancelWindowCapture { capture_id: u64_at(p, 0), epoch: u64_at(p, 8) })
        }
    } else {
        Err(ProtocolError::InvalidMessage)
    }
}

pub open spec fn spec_decode_request(b: Seq<u8>) -> Result<Envelope<RequestView>, ProtocolError> {
    match spec_decode_header(b) {
        Err(error) => Err(error),
        Ok((version, tag, request_id)) => match spec_decode_request_payload(
            tag,
            b.subrange(HEADER_BYTES as int, b.len() as int),
        ) {
            Err(error) => Err(error),
            Ok(message) => Ok(Envelope { protocol_version: version, request_id, message }),
        },
    }
}

pub open spec fn status_at(p: Seq<u8>) -> EngineStatus {
    EngineStatus {
        role: ProcessRole::Engine,
        webview_count: u16_at(p, 1),
        process_id: u32_at(p, 3),
        uptime_ms: u64_at(p, 7),
        thread_count: u32_at(p, 15),
        handle_count: u32_at(p, 19),
        working_set_bytes: u64_at(p, 23),
        config_available: p[31] == 1,
        config_revision: u64_at(p, 32),
        config_generation: u64_at(p, 40),
        config_candidate_prepared: p[48] == 1,
    }
}

/// The three optional texts of a captured window, from position 17.
pub open spec fn capture_info_at(p: Seq<u8>) -> Result<WindowCaptureInfoView, ProtocolError> {
    match optional_text_at(p, 17) {
        Err(error) => Err(error),
        Ok((process_name, e1)) => match optional_text_at(p, e1) {
            Err(error) => Err(error),
            Ok((window_class, e2)) => match optional_text_at(p, e2) {
                Err(error) => Err(error),
                Ok((title, e3)) => if e3 == p.len() {
                    Ok(WindowCaptureInfoView { process_name, window_class, title })
                } else {
                    Err(ProtocolError::InvalidMessage)
                },
            },
        },
    }
}

/// The payload of a response with tag `tag`.
pub open spec fn spec_decode_response_payload(tag: u8, p: Seq<u8>) -> Result<
    ResponseView,
    ProtocolError,
> {
    if tag == 129 {
        match short_text_at(p, 0) {
            Err(error) => Err(error),
            Ok((version, end)) => if end + 10 == p.len() {
                Ok(
                    ResponseView::Hello {
                        engine_version: version,
                        config_schema_version: u16_at(p, end),
                        capabilities: u64_at(p, end + 2),
                    },
                )
            } else {
                Err(ProtocolError::InvalidMessage)
            },
        }
    } else if tag == 130 {
        if p.len() == 0 {
            Ok(ResponseView::Pong)
        } else {
            Err(ProtocolError::InvalidMessage)
        }
    } else if tag == 131 {
        if p.len() == 49 && p[0] == 1 && p[31] <= 1 && p[48] <= 1 {
            Ok(ResponseView::Status(status_at(p)))
        } else {
            Err(ProtocolError::InvalidMessage)
        }
    } else if tag == 132 {
        if p.len() == 1 && p[0] <= 1 {
            Ok(ResponseView::Shutdown { already_requested: p[0] == 1 })
        } else {
            Err(ProtocolError::InvalidMessage)
        }
    } else if tag == 133 {
        if p.len() < 17 || p[16] > 1 {
            Err(ProtocolError::InvalidMessage)
        } else if p[16] == 0 {
            if p.len() == 17 {
                Ok(
                    ResponseView::Config {
                        revision: u64_at(p, 0),
                        generation: u64_at(p, 8),
                        config_bytes: None,
                    },
                )
            } else {
                Err(ProtocolError::InvalidMessage)
            }
        } else {
            match bounded_bytes_at(p, 17, MAX_CONFIG_BYTES as int) {
                Err(error) => Err(error),
                Ok((bytes, end)) => if end == p.len() {
                    Ok(
                        ResponseView::Config {
                            revision: u64_at(p, 0),
                            generation: u64_at(p, 8),
                            config_bytes: Some(bytes),
                        },
                    )
                } else {
                    Err(ProtocolError::InvalidMessage)
                },
            }
        }
    } else if tag == 134 {
        if p.len() == 24 {
            Ok(
                ResponseView::Prepared {
                    token: u64_at(p, 0),
                    base_revision: u64_at(p, 8),
                    base_generation: u64_at(p, 16),
                },
            )
        } else {
            Err(ProtocolError::InvalidMessage)
        }
    } else if tag == 135 {
        if p.len() == 17 && p[16] <= 1 {
            Ok(
                ResponseView::Applied {
                    revision: u64_at(p, 0),
                    generation: u64_at(p, 8),
                    durability_warning: p[16] == 1,
                },
            )
        } else {
            Err(ProtocolError::InvalidMessage)
        }
    } else if tag == 136 || tag == 138 {
        if p.len() != 16 {
            Err(ProtocolError::InvalidMessage)
        } else if tag == 136 {
            Ok(ResponseView::WindowCaptureStarted { capture_id: u64_at(p, 0), epoch: u64_at(p, 8) })
        } else {
            Ok(
                ResponseView::WindowCaptureCancelled {
                    capture_id: u64_at(p, 0),
                    epoch: u64_at(p, 8),
                },
            )
        }
    } else if tag == 137 {
        if p.len() < 17 || p[16] > 1 {
            Err(ProtocolError::InvalidMessage)
        } else if p[16] == 0 {
            if p.len() == 17 {
                Ok(
                    ResponseView::WindowCapture {
                        capture_id: u64_at(p, 0),
                        epoch: u64_at(p, 8),
                        result: WindowCaptureResultView::Pending,
                    },
                )
            } else {
                Err(ProtocolError::InvalidMessage)
            }
        } else {
            match capture_info_at(p) {
                Err(error) => Err(error),
                Ok(info) => Ok(
                    ResponseView::WindowCapture {
                        capture_id: u64_at(p, 0),
                        epoch: u64_at(p, 8),
                        result: WindowCaptureResultView::Captured(info),
                    },
                ),
            }
        }
    } else if tag == 255 {
        if p.len() == 1 && byte_error_code_spec(p[0]) is Some {
            Ok(ResponseView::Error(byte_error_code_spec(p[0]).unwrap()))
        } else {
            Err(ProtocolError::InvalidMessage)
        }
    } else {
        Err(ProtocolError::InvalidMessage)
    }
}

pub open spec fn spec_decode_response(b: Seq<u8>, expected_request_id: u64) -> Result<
    Envelope<ResponseView>,
    ProtocolError,
> {
    match spec_decode_header(b) {
        Err(error) => Err(error),
        Ok((version, tag, request_id)) => if request_id != expected_request_id {
            Err(ProtocolError::MismatchedResponse { expected: expected_request_id, actual: request_id })
        } else {
            match spec_decode_response_payload(tag, b.subrange(HEADER_BYTES as int, b.len() as int)) {
                Err(error) => Err(error),
                Ok(message) => Ok(Envelope { protocol_version: version, request_id, message }),
            }
        },
    }
}

} // verus!

//! Encoding and decoding of Engine IPC frame bodies.
use vstd::bytes::{
    spec_u64_from_le_bytes, u16_from_le_bytes, u16_to_le_bytes, u32_to_le_bytes,
    u64_from_le_bytes, u64_to_le_bytes,
};
use vstd::prelude::*;
use vstd::slice::{slice_subrange, slice_to_vec};
use vstd::utf8::encode_utf8;

use crate::cursor::Cursor;
use crate::message::{
    bytes_result_view, envelope_result_view, opt_string_view, EngineStatus, Envelope, ErrorCode,
    ProcessRole, ProtocolError, Request, RequestView, Response, ResponseView, WindowCaptureInfo,
    WindowCaptureInfoView, WindowCaptureResult, WindowCaptureResultView, AUTH_SECRET_BYTES,
    HEADER_BYTES, MAX_CAPTURE_TEXT_BYTES, MAX_CONFIG_BYTES, MAX_ENCODED_FRAME, MAX_VERSION_BYTES,
    PROTOCOL_VERSION,
};
use crate::wire::{
    bool_byte, byte_error_code_spec, capture_info_at, error_code_byte_spec, frame_body, le16,
    le32, le64, optional_text, optional_text_fits, response_encode_error, response_payload,
    response_tag, saturate_u32, short_text, spec_decode_header, spec_decode_request,
    spec_decode_request_payload, spec_decode_response, spec_decode_response_payload,
    spec_encode_envelope, spec_encode_request, spec_encode_response, status_payload,
};

verus! {

fn put_u16(out: &mut Vec<u8>, x: u16)
    ensures
        final(out)@ == old(out)@ + le16(x),
{
    let mut bytes = u16_to_le_bytes(x);
    out.append(&mut bytes);
}

fn put_u32(out: &mut Vec<u8>, x: u32)
    ensures
        final(out)@ == old(out)@ + le32(x),
{
    let mut bytes = u32_to_le_bytes(x);
    out.append(&mut bytes);
}

fn put_u64(out: &mut Vec<u8>, x: u64)
    ensures
        final(out)@ == old(out)@ + le64(x),
{
    let mut bytes = u64_to_le_bytes(x);
    out.append(&mut bytes);
}

fn put_bytes(out: &mut Vec<u8>, bytes: &[u8])
    ensures
        final(out)@ == old(out)@ + bytes@,
{
    let mut copy = slice_to_vec(bytes);
    out.append(&mut copy);
}

/// Appends a short string, refusing one longer than the version limit.
fn put_string(output: &mut Vec<u8>, value: &str) -> (r: Result<(), ProtocolError>)
    ensures
        encode_utf8(value@).len() <= MAX_VERSION_BYTES ==> r is Ok && final(output)@ == old(
            output,
        )@ + short_text(value@),
        encode_utf8(value@).len() > MAX_VERSION_BYTES ==> (r matches Err(
            ProtocolError::VersionTooLong,
        )) && final(output)@ == old(output)@,
{
    let bytes = value.as_bytes();
    if bytes.len() > MAX_VERSION_BYTES {
        return Err(ProtocolError::VersionTooLong);
    }
    output.push(bytes.len() as u8);
    put_bytes(output, bytes);
    assert(final(output)@ =~= old(output)@ + short_text(value@));
    Ok(())
}

/// Appends an optional capture text, refusing one over the capture limit.
fn put_optional_capture_text(output: &mut Vec<u8>, value: Option<&str>) -> (r: Result<
    (),
    ProtocolError,
>)
    ensures
        ({
            let v = match value {
                Some(s) => Some(s@),
                None => None,
            };
            &&& optional_text_fits(v) ==> r is Ok && final(output)@ == old(output)@
                + optional_text(v)
            &&& !optional_text_fits(v) ==> r matches Err(ProtocolError::InvalidMessage)
        }),
{
    match value {
        None => {
            put_u16(output, 0xFFFF);
            Ok(())
        },
        Some(text) => {
            let bytes = text.as_bytes();
            if bytes.len() > MAX_CAPTURE_TEXT_BYTES || bytes.len() >= 0xFFFF {
                return Err(ProtocolError::InvalidMessage);
            }
            put_u16(output, bytes.len() as u16);
            put_bytes(output, bytes);
            assert(final(output)@ =~= old(output)@ + (le16(bytes.len() as u16) + bytes@));
            Ok(())
        },
    }
}

fn error_code_byte(code: ErrorCode) -> (b: u8)
    ensures
        b == error_code_byte_spec(code),
{
    match code {
        ErrorCode::WrongVersion => 1,
        ErrorCode::ExecutableVersionMismatch => 2,
        ErrorCode::AuthenticationFailed => 3,
        ErrorCode::HelloRequired => 4,
        ErrorCode::DuplicateRequestId => 5,
        ErrorCode::RequestLimit => 6,
        ErrorCode::InvalidMessage => 7,
        ErrorCode::ConfigPayloadTooLarge => 8,
        ErrorCode::ConfigBusy => 9,
        ErrorCode::ConfigRevisionConflict => 10,
        ErrorCode::ConfigValidationFailed => 11,
        ErrorCode::ConfigTokenMismatch => 12,
        ErrorCode::NoPreparedConfig => 13,
        ErrorCode::ConfigGenerationExhausted => 14,
        ErrorCode::ConfigPersistenceFailed => 15,
        ErrorCode::CaptureStale => 16,
        ErrorCode::CaptureUnavailable => 17,
        ErrorCode::CaptureBackendFailed => 18,
    }
}

fn byte_error_code(byte: u8) -> (r: Result<ErrorCode, ProtocolError>)
    ensures
        match byte_error_code_spec(byte) {
            Some(code) => r == Ok::<ErrorCode, ProtocolError>(code),
            None => r matches Err(ProtocolError::InvalidMessage),
        },
{
    match byte {
        1 => Ok(ErrorCode::WrongVersion),
        2 => Ok(ErrorCode::ExecutableVersionMismatch),
        3 => Ok(ErrorCode::AuthenticationFailed),
        4 => Ok(ErrorCode::HelloRequired),
        5 => Ok(ErrorCode::DuplicateRequestId),
        6 => Ok(ErrorCode::RequestLimit),
        7 => Ok(ErrorCode::InvalidMessage),
        8 => Ok(ErrorCode::ConfigPayloadTooLarge),
        9 => Ok(ErrorCode::ConfigBusy),
        10 => Ok(ErrorCode::ConfigRevisionConflict),
        11 => Ok(ErrorCode::ConfigValidationFailed),
        12 => Ok(ErrorCode::ConfigTokenMismatch),
        13 => Ok(ErrorCode::NoPreparedConfig),
        14 => Ok(ErrorCode::ConfigGenerationExhausted),
        15 => Ok(ErrorCode::ConfigPersistenceFailed),
        16 => Ok(ErrorCode::CaptureStale),
        17 => Ok(ErrorCode::CaptureUnavailable),
        18 => Ok(ErrorCode::CaptureBackendFailed),
        _ => Err(ProtocolError::InvalidMessage),
    }
}

/// `x` narrowed to `u32`, saturating at `u32::MAX`.
fn saturating_u32(x: usize) -> (r: u32)
    ensures
        r == saturate_u32(x as int),
{
    if x <= 0xFFFF_FFFF {
        x as u32
    } else {
        0xFFFF_FFFF
    }
}

/// Prefixes `payload` with the frame header, refusing a body too large for
/// a frame.
pub fn encode_envelope(protocol_version: u16, tag: u8, request_id: u64, payload: &[u8]) -> (r:
    Result<Vec<u8>, ProtocolError>)
    ensures
        bytes_result_view(r) == spec_encode_envelope(protocol_version, tag, request_id, payload@),
{
    if payload.len() > MAX_ENCODED_FRAME - 4 - HEADER_BYTES {
        let body_length = if payload.len() <= usize::MAX - HEADER_BYTES {
            saturating_u32(payload.len() + HEADER_BYTES)
        } else {
            0xFFFF_FFFF
        };
        return Err(ProtocolError::FrameTooLarge(body_length));
    }
    let mut body: Vec<u8> = Vec::new();
    put_u16(&mut body, protocol_version);
    body.push(tag);
    body.push(0);
    put_u64(&mut body, request_id);
    put_bytes(&mut body, payload);
    assert(body@ =~= frame_body(protocol_version, tag, request_id, payload@));
    Ok(body)
}

/// Encodes a request envelope into a frame body.
pub fn encode_request(envelope: &Envelope<Request>) -> (r: Result<Vec<u8>, ProtocolError>)
    ensures
        bytes_result_view(r) == spec_encode_request(envelope@),
{
    let mut payload: Vec<u8> = Vec::new();
    let tag: u8 = match &envelope.message {
        Request::Hello { auth_secret, executable_version } => {
            put_bytes(&mut payload, auth_secret.as_slice());
            put_string(&mut payload, executable_version.as_str())?;
            1
        },
        Request::Ping => 2,
        Request::GetStatus => 3,
        Request::Shutdown => 4,
        Request::GetConfig => 5,
        Request::PrepareConfig { expected_revision, config_bytes } => {
            if config_bytes.len() > MAX_CONFIG_BYTES {
                return Err(ProtocolError::FrameTooLarge(saturating_u32(config_bytes.len())));
            }
            put_u64(&mut payload, *expected_revision);
            put_u32(&mut payload, config_bytes.len() as u32);
            put_bytes(&mut payload, config_bytes.as_slice());
            6
        },
        Request::CommitConfig { token, base_revision, base_generation } => {
            put_u64(&mut payload, *token);
            put_u64(&mut payload, *base_revision);
            put_u64(&mut payload, *base_generation);
            7
        },
        Request::SetEnabled { expected_revision, enabled } => {
            put_u64(&mut payload, *expected_revision);
            payload.push(if *enabled {
                1
            } else {
                0
            });
            8
        },
        Request::BeginWindowCapture { capture_id } => {
            put_u64(&mut payload, *capture_id);
            9
        },
        Request::PollWindowCapture { capture_id, epoch } => {
            put_u64(&mut payload, *capture_id);
            put_u64(&mut payload, *epoch);
            10
        },
        Request::CancelWindowCapture { capture_id, epoch } => {
            put_u64(&mut payload, *capture_id);
            put_u64(&mut payload, *epoch);
            11
        },
    };
    proof {
        let m = envelope.message@;
        assert(payload@ =~= crate::wire::request_payload(m));
        assert(tag == crate::wire::request_tag(m));
        assert(crate::wire::request_encode_error(m) is None);
    }
    encode_envelope(envelope.protocol_version, tag, envelope.request_id, payload.as_slice())
}

fn encode_status(payload: &mut Vec<u8>, status: &EngineStatus)
    ensures
        final(payload)@ == old(payload)@ + status_payload(*status),
{
    payload.push(
        match status.role {
            ProcessRole::Engine => 1,
        },
    );
    put_u16(payload, status.webview_count);
    put_u32(payload, status.process_id);
    put_u64(payload, status.uptime_ms);
    put_u32(payload, status.thread_count);
    put_u32(payload, status.handle_count);
    put_u64(payload, status.working_set_bytes);
    payload.push(
        if status.config_available {
            1
        } else {
            0
        },
    );
    put_u64(payload, status.config_revision);
    put_u64(payload, status.config_generation);
    payload.push(
        if status.config_candidate_prepared {
            1
        } else {
            0
        },
    );
    assert(final(payload)@ =~= old(payload)@ + status_payload(*status));
}

fn option_as_str(value: &Option<String>) -> (r: Option<&str>)
    ensures
        match r {
            Some(s) => opt_string_view(*value) == Some(s@),
            None => opt_string_view(*value) is None,
        },
{
    match value {
        Some(text) => Some(text.as_str()),
        None => None,
    }
}

fn encode_capture_info(payload: &mut Vec<u8>, info: &WindowCaptureInfo) -> (r: Result<
    (),
    ProtocolError,
>)
    ensures
        ({
            let v = info@;
            &&& optional_text_fits(v.process_name) && optional_text_fits(v.window_class)
                && optional_text_fits(v.title) ==> r is Ok && final(payload)@ == old(payload)@
                + optional_text(v.process_name) + optional_text(v.window_class) + optional_text(
                v.title,
            )
            &&& !(optional_text_fits(v.process_name) && optional_text_fits(v.window_class)
                && optional_text_fits(v.title)) ==> r matches Err(ProtocolError::InvalidMessage)
        }),
{
    put_optional_capture_text(payload, option_as_str(&info.process_name))?;
    put_optional_capture_text(payload, option_as_str(&info.window_class))?;
    put_optional_capture_text(payload, option_as_str(&info.title))?;
    Ok(())
}

/// Encodes a response envelope into a frame body.
pub fn encode_response(envelope: &Envelope<Response>) -> (r: Result<Vec<u8>, ProtocolError>)
    ensures
        bytes_result_view(r) == spec_encode_response(envelope@),
{
    let mut payload: Vec<u8> = Vec::new();
    let tag: u8 = match &envelope.message {
        Response::Hello { engine_version, config_schema_version, capabilities } => {
            put_string(&mut payload, engine_version.as_str())?;
            put_u16(&mut payload, *config_schema_version);
            put_u64(&mut payload, *capabilities);
            129
        },
        Response::Pong => 130,
        Response::Status(status) => {
            encode_status(&mut payload, status);
            131
        },
        Response::Shutdown { already_requested } => {
            payload.push(if *already_requested {
                1
            } else {
                0
            });
            132
        },
        Response::Config { revision, generation, config_bytes } => {
            match config_bytes {
                Some(bytes) => {
                    if bytes.len() > MAX_CONFIG_BYTES {
                        return Err(ProtocolError::FrameTooLarge(saturating_u32(bytes.len())));
                    }
                    put_u64(&mut payload, *revision);
                    put_u64(&mut payload, *generation);
                    payload.push(1);
                    put_u32(&mut payload, bytes.len() as u32);
                    put_bytes(&mut payload, bytes.as_slice());
                },
                None => {
                    put_u64(&mut payload, *revision);
                    put_u64(&mut payload, *generation);
                    payload.push(0);
                },
            }
            133
        },
        Response::Prepared { token, base_revision, base_generation } => {
            put_u64(&mut payload, *token);
            put_u64(&mut payload, *base_revision);
            put_u64(&mut payload, *base_generation);
            134
        },
        Response::Applied { revision, generation, durability_warning } => {
            put_u64(&mut payload, *revision);
            put_u64(&mut payload, *generation);
            payload.push(if *durability_warning {
                1
            } else {
                0
            });
            135
        },
        Response::WindowCaptureStarted { capture_id, epoch } => {
            put_u64(&mut payload, *capture_id);
            put_u64(&mut payload, *epoch);
            136
        },
        Response::WindowCapture { capture_id, epoch, result } => {
            put_u64(&mut payload, *capture_id);
            put_u64(&mut payload, *epoch);
            match result {
                WindowCaptureResult::Pending => {
                    payload.push(0);
                },
                WindowCaptureResult::Captured(info) => {
                    payload.push(1);
                    encode_capture_info(&mut payload, info)?;
                },
            }
            137
        },
        Response::WindowCaptureCancelled { capture_id, epoch } => {
            put_u64(&mut payload, *capture_id);
            put_u64(&mut payload, *epoch);
            138
        },
        Response::Error(code) => {
            payload.push(error_code_byte(*code));
            255
        },
    };
    proof {
        let m = envelope.message@;
        assert(payload@ =~= response_payload(m));
        assert(tag == response_tag(m));
        assert(response_encode_error(m) is None);
    }
    encode_envelope(envelope.protocol_version, tag, envelope.request_id, payload.as_slice())
}

/// Splits a frame body into version, tag, request id and payload, after the
/// checks that every frame must pass.
fn decode_envelope(body: &[u8]) -> (r: Result<(u16, u8, u64, &[u8]), ProtocolError>)
    ensures
        spec_decode_header(body@) is Ok <==> r is Ok,
        r matches Ok((version, tag, request_id, payload)) ==> {
            &&& spec_decode_header(body@) == Ok::<(u16, u8, u64), ProtocolError>(
                (version, tag, request_id),
            )
            &&& payload@ == body@.subrange(HEADER_BYTES as int, body@.len() as int)
        },
        r matches Err(e) ==> spec_decode_header(body@) == Err::<(u16, u8, u64), ProtocolError>(
            e,
        ),
{
    if body.len() < HEADER_BYTES {
        return Err(ProtocolError::InvalidMessage);
    }
    let protocol_version = u16_from_le_bytes(slice_subrange(body, 0, 2));
    if protocol_version != PROTOCOL_VERSION {
        return Err(ProtocolError::WrongVersion(protocol_version));
    }
    if body[3] != 0 {
        return Err(ProtocolError::InvalidMessage);
    }
    let request_id = u64_from_le_bytes(slice_subrange(body, 4, 12));
    if request_id == 0 {
        return Err(ProtocolError::InvalidMessage);
    }
    Ok((protocol_version, body[2], request_id, slice_subrange(body, HEADER_BYTES, body.len())))
}

/// The request id of a frame body, when its header holds a nonzero one.
pub fn request_id_from_body(body: &[u8]) -> (r: Option<u64>)
    ensures
        body@.len() >= 12 && spec_u64_from_le_bytes(body@.subrange(4, 12)) != 0 ==> r == Some(
            spec_u64_from_le_bytes(body@.subrange(4, 12)),
        ),
        !(body@.len() >= 12 && spec_u64_from_le_bytes(body@.subrange(4, 12)) != 0) ==> r is None,
{
    if body.len() < 12 {
        return None;
    }
    let request_id = u64_from_le_bytes(slice_subrange(body, 4, 12));
    if request_id == 0 {
        None
    } else {
        Some(request_id)
    }
}

fn empty_payload<T>(payload: &[u8], value: T) -> (r: Result<T, ProtocolError>)
    ensures
        payload@.len() == 0 ==> r == Ok::<T, ProtocolError>(value),
        payload@.len() != 0 ==> r matches Err(ProtocolError::InvalidMessage),
{
    if payload.len() == 0 {
        Ok(value)
    } else {
        Err(ProtocolError::InvalidMessage)
    }
}

fn decode_hello_request(payload: &[u8]) -> (r: Result<Request, ProtocolError>)
    ensures
        message_result_view(r) == spec_decode_request_payload(1, payload@),
{
    if payload.len() < AUTH_SECRET_BYTES + 1 {
        return Err(ProtocolError::InvalidMessage);
    }
    let mut cursor = Cursor::new(payload);
    let secret = cursor.take(AUTH_SECRET_BYTES)?;
    let mut auth_secret = [0u8; AUTH_SECRET_BYTES];
    let mut i: usize = 0;
    while i < AUTH_SECRET_BYTES
        invariant
            0 <= i <= AUTH_SECRET_BYTES,
            payload@.len() >= AUTH_SECRET_BYTES + 1,
            secret@ == payload@.subrange(0, AUTH_SECRET_BYTES as int),
            auth_secret@.len() == AUTH_SECRET_BYTES,
            forall|j: int| 0 <= j < i ==> auth_secret@[j] == secret@[j],
        decreases AUTH_SECRET_BYTES - i,
    {
        auth_secret[i] = secret[i];
        i = i + 1;
    }
    assert(auth_secret@ =~= payload@.subrange(0, AUTH_SECRET_BYTES as int));
    let executable_version = cursor.string()?;
    cursor.finish()?;
    Ok(Request::Hello { auth_secret, executable_version })
}

/// The view of a decoded message result.
pub open spec fn message_result_view<T: View>(r: Result<T, ProtocolError>) -> Result<
    T::V,
    ProtocolError,
> {
    match r {
        Ok(m) => Ok(m@),
        Err(e) => Err(e),
    }
}

fn decode_prepare_request(payload: &[u8]) -> (r: Result<Request, ProtocolError>)
    ensures
        message_result_view(r) == spec_decode_request_payload(6, payload@),
{
    let mut cursor = Cursor::new(payload);
    let expected_revision = cursor.u64()?;
    let config_bytes = cursor.bounded_bytes(MAX_CONFIG_BYTES)?;
    cursor.finish()?;
    Ok(Request::PrepareConfig { expected_revision, config_bytes })
}

fn decode_request_payload(tag: u8, payload: &[u8]) -> (r: Result<Request, ProtocolError>)
    ensures
        message_result_view(r) == spec_decode_request_payload(tag, payload@),
{
    let message = match tag {
        1 => decode_hello_request(payload)?,
        2 => empty_payload(payload, Request::Ping)?,
        3 => empty_payload(payload, Request::GetStatus)?,
        4 => empty_payload(payload, Request::Shutdown)?,
        5 => empty_payload(payload, Request::GetConfig)?,
        6 => decode_prepare_request(payload)?,
        7 => {
            let mut cursor = Cursor::new(payload);
            let token = cursor.u64()?;
            let base_revision = cursor.u64()?;
            let base_generation = cursor.u64()?;
            cursor.finish()?;
            Request::CommitConfig { token, base_revision, base_generation }
        },
        8 => {
            let mut cursor = Cursor::new(payload);
            let expected_revision = cursor.u64()?;
            let enabled = cursor.boolean()?;
            cursor.finish()?;
            Request::SetEnabled { expected_revision, enabled }
        },
        9 => {
            let mut cursor = Cursor::new(payload);
            let capture_id = cursor.u64()?;
            cursor.finish()?;
            Request::BeginWindowCapture { capture_id }
        },
        10 => {
            let mut cursor = Cursor::new(payload);
            let capture_id = cursor.u64()?;
            let epoch = cursor.u64()?;
            cursor.finish()?;
            Request::PollWindowCapture { capture_id, epoch }
        },
        11 => {
            let mut cursor = Cursor::new(payload);
            let capture_id = cursor.u64()?;
            let epoch = cursor.u64()?;
            cursor.finish()?;
            Request::CancelWindowCapture { capture_id, epoch }
        },
        _ => return Err(ProtocolError::InvalidMessage),
    };
    Ok(message)
}

/// Decodes a frame body into a request envelope.
pub fn decode_request(body: &[u8]) -> (r: Result<Envelope<Request>, ProtocolError>)
    ensures
        envelope_result_view(r) == spec_decode_request(body@),
{
    let (protocol_version, tag, request_id, payload) = decode_envelope(body)?;
    let message = decode_request_payload(tag, payload)?;
    Ok(Envelope { protocol_version, request_id, message })
}

fn decode_hello_response(payload: &[u8]) -> (r: Result<Response, ProtocolError>)
    ensures
        message_result_view(r) == spec_decode_response_payload(129, payload@),
{
    let mut cursor = Cursor::new(payload);
    let engine_version = cursor.string()?;
    let config_schema_version = cursor.u16()?;
    let capabilities = cursor.u64()?;
    cursor.finish()?;
    Ok(Response::Hello { engine_version, config_schema_version, capabilities })
}

fn decode_status_response(payload: &[u8]) -> (r: Result<Response, ProtocolError>)
    ensures
        message_result_view(r) == spec_decode_response_payload(131, payload@),
{
    let mut cursor = Cursor::new(payload);
    let role = match cursor.u8()? {
        1 => ProcessRole::Engine,
        _ => return Err(ProtocolError::InvalidMessage),
    };
    let webview_count = cursor.u16()?;
    let process_id = cursor.u32()?;
    let uptime_ms = cursor.u64()?;
    let thread_count = cursor.u32()?;
    let handle_count = cursor.u32()?;
    let working_set_bytes = cursor.u64()?;
    let config_available = cursor.boolean()?;
    let config_revision = cursor.u64()?;
    let config_generation = cursor.u64()?;
    let config_candidate_prepared = cursor.boolean()?;
    cursor.finish()?;
    let status = EngineStatus {
        role,
        webview_count,
        process_id,
        uptime_ms,
        thread_count,
        handle_count,
        working_set_bytes,
        config_available,
        config_revision,
        config_generation,
        config_candidate_prepared,
    };
    assert(status == crate::wire::status_at(payload@));
    Ok(Response::Status(status))
}

fn decode_shutdown_response(payload: &[u8]) -> (r: Result<Response, ProtocolError>)
    ensures
        message_result_view(r) == spec_decode_response_payload(132, payload@),
{
    if payload.len() != 1 || payload[0] > 1 {
        return Err(ProtocolError::InvalidMessage);
    }
    Ok(Response::Shutdown { already_requested: payload[0] == 1 })
}

fn decode_config_response(payload: &[u8]) -> (r: Result<Response, ProtocolError>)
    ensures
        message_result_view(r) == spec_decode_response_payload(133, payload@),
{
    let mut cursor = Cursor::new(payload);
    let revision = cursor.u64()?;
    let generation = cursor.u64()?;
    let config_bytes = if cursor.boolean()? {
        Some(cursor.bounded_bytes(MAX_CONFIG_BYTES)?)
    } else {
        None
    };
    cursor.finish()?;
    Ok(Response::Config { revision, generation, config_bytes })
}

fn decode_window_capture_response(payload: &[u8]) -> (r: Result<Response, ProtocolError>)
    ensures
        message_result_view(r) == spec_decode_response_payload(137, payload@),
{
    let mut cursor = Cursor::new(payload);
    let capture_id = cursor.u64()?;
    let epoch = cursor.u64()?;
    let result = match cursor.u8()? {
        0 => WindowCaptureResult::Pending,
        1 => {
            let process_name = cursor.optional_capture_text()?;
            let window_class = cursor.optional_capture_text()?;
            let title = cursor.optional_capture_text()?;
            WindowCaptureResult::Captured(WindowCaptureInfo { process_name, window_class, title })
        },
        _ => return Err(ProtocolError::InvalidMessage),
    };
    cursor.finish()?;
    Ok(Response::WindowCapture { capture_id, epoch, result })
}

fn decode_response_payload(tag: u8, payload: &[u8]) -> (r: Result<Response, ProtocolError>)
    ensures
        message_result_view(r) == spec_decode_response_payload(tag, payload@),
{
    let message = match tag {
        129 => decode_hello_response(payload)?,
        130 => empty_payload(payload, Response::Pong)?,
        131 => decode_status_response(payload)?,
        132 => decode_shutdown_response(payload)?,
        133 => decode_config_response(payload)?,
        134 => {
            let mut cursor = Cursor::new(payload);
            let token = cursor.u64()?;
            let base_revision = cursor.u64()?;
            let base_generation = cursor.u64()?;
            cursor.finish()?;
            Response::Prepared { token, base_revision, base_generation }
        },
        135 => {
            let mut cursor = Cursor::new(payload);
            let revision = cursor.u64()?;
            let generation = cursor.u64()?;
            let durability_warning = cursor.boolean()?;
            cursor.finish()?;
            Response::Applied { revision, generation, durability_warning }
        },
        136 => {
            let mut cursor = Cursor::new(payload);
            let capture_id = cursor.u64()?;
            let epoch = cursor.u64()?;
            cursor.finish()?;
            Response::WindowCaptureStarted { capture_id, epoch }
        },
        137 => decode_window_capture_response(payload)?,
        138 => {
            let mut cursor = Cursor::new(payload);
            let capture_id = cursor.u64()?;
            let epoch = cursor.u64()?;
            cursor.finish()?;
            Response::WindowCaptureCancelled { capture_id, epoch }
        },
        255 => {
            if payload.len() != 1 {
                return Err(ProtocolError::InvalidMessage);
            }
            Response::Error(byte_error_code(payload[0])?)
        },
        _ => return Err(ProtocolError::InvalidMessage),
    };
    Ok(message)
}

/// Decodes a frame body into the response to request `expected_request_id`.
pub fn decode_response(body: &[u8], expected_request_id: u64) -> (r: Result<
    Envelope<Response>,
    ProtocolError,
>)
    ensures
        envelope_result_view(r) == spec_decode_response(body@, expected_request_id),
{
    let (protocol_version, tag, request_id, payload) = decode_envelope(body)?;
    if request_id != expected_request_id {
        return Err(
            ProtocolError::MismatchedResponse { expected: expected_request_id, actual: request_id },
        );
    }
    let message = decode_response_payload(tag, payload)?;
    Ok(Envelope { protocol_version, request_id, message })
}

} // verus!

use zero_gesture::codec::{
    decode_request, decode_response, encode_envelope, encode_request, encode_response,
    request_id_from_body,
};
use zero_gesture::frame::{frame_body_length, frame_prefix};
use zero_gesture::message::{
    EngineStatus, Envelope, ErrorCode, ProcessRole, ProtocolError, Request, Response,
    WindowCaptureInfo, WindowCaptureResult, AUTH_SECRET_BYTES, CAPABILITIES, MAX_BODY,
    MAX_CONFIG_BYTES, MAX_ENCODED_FRAME, PROTOCOL_VERSION,
};

fn secret() -> [u8; AUTH_SECRET_BYTES] {
    [0x5a; AUTH_SECRET_BYTES]
}

#[test]
fn codec_roundtrips_hello() {
    let request = Envelope::current(
        1,
        Request::Hello {
            auth_secret: secret(),
            executable_version: "0.1.0".to_string(),
        },
    );
    assert_eq!(
        decode_request(&encode_request(&request).unwrap()).unwrap(),
        request
    );

    let response = Envelope::current(
        1,
        Response::Hello {
            engine_version: "0.1.0".to_string(),
            config_schema_version: 2,
            capabilities: CAPABILITIES,
        },
    );
    assert_eq!(
        decode_response(&encode_response(&response).unwrap(), 1).unwrap(),
        response
    );
}

#[test]
fn codec_roundtrips_ping() {
    let request = Envelope::current(2, Request::Ping);
    assert_eq!(
        decode_request(&encode_request(&request).unwrap()).unwrap(),
        request
    );
    let response = Envelope::current(2, Response::Pong);
    assert_eq!(
        decode_response(&encode_response(&response).unwrap(), 2).unwrap(),
        response
    );
}

#[test]
fn codec_roundtrips_status() {
    let response = Envelope::current(
        3,
        Response::Status(EngineStatus {
            role: ProcessRole::Engine,
            webview_count: 0,
            process_id: 7,
            uptime_ms: 11,
            thread_count: 2,
            handle_count: 9,
            working_set_bytes: 4096,
            config_available: true,
            config_revision: 1,
            config_generation: 1,
            config_candidate_prepared: false,
        }),
    );
    assert_eq!(
        decode_response(&encode_response(&response).unwrap(), 3).unwrap(),
        response
    );
}

#[test]
fn codec_roundtrips_shutdown() {
    let request = Envelope::current(4, Request::Shutdown);
    assert_eq!(
        decode_request(&encode_request(&request).unwrap()).unwrap(),
        request
    );
    let response = Envelope::current(
        4,
        Response::Shutdown {
            already_requested: true,
        },
    );
    assert_eq!(
        decode_response(&encode_response(&response).unwrap(), 4).unwrap(),
        response
    );
}

#[test]
fn codec_roundtrips_prepare_and_prepared() {
    let prepare = Envelope::current(
        5,
        Request::PrepareConfig {
            expected_revision: 7,
            config_bytes: br#"{"schema_version":2}"#.to_vec(),
        },
    );
    assert_eq!(
        decode_request(&encode_request(&prepare).unwrap()).unwrap(),
        prepare
    );
    let prepared = Envelope::current(
        5,
        Response::Prepared {
            token: 9,
            base_revision: 7,
            base_generation: 4,
        },
    );
    assert_eq!(
        decode_response(&encode_response(&prepared).unwrap(), 5).unwrap(),
        prepared
    );
}

#[test]
fn codec_roundtrips_commit_and_applied() {
    let commit = Envelope::current(
        6,
        Request::CommitConfig {
            token: 9,
            base_revision: 7,
            base_generation: 4,
        },
    );
    assert_eq!(
        decode_request(&encode_request(&commit).unwrap()).unwrap(),
        commit
    );
    let applied = Envelope::current(
        6,
        Response::Applied {
            revision: 8,
            generation: 5,
            durability_warning: true,
        },
    );
    assert_eq!(
        decode_response(&encode_response(&applied).unwrap(), 6).unwrap(),
        applied
    );
}

#[test]
fn codec_roundtrips_set_enabled() {
    let request = Envelope::current(
        7,
        Request::SetEnabled {
            expected_revision: 4,
            enabled: true,
        },
    );
    assert_eq!(
        decode_request(&encode_request(&request).unwrap()).unwrap(),
        request
    );
}

#[test]
fn codec_roundtrips_window_capture_identity_and_result() {
    let begin = Envelope::current(30, Request::BeginWindowCapture { capture_id: 77 });
    assert_eq!(
        decode_request(&encode_request(&begin).unwrap()).unwrap(),
        begin
    );

    let poll = Envelope::current(
        31,
        Request::PollWindowCapture {
            capture_id: 77,
            epoch: 9,
        },
    );
    assert_eq!(
        decode_request(&encode_request(&poll).unwrap()).unwrap(),
        poll
    );

    let response = Envelope::current(
        31,
        Response::WindowCapture {
            capture_id: 77,
            epoch: 9,
            result: WindowCaptureResult::Captured(WindowCaptureInfo {
                process_name: Some("explorer.exe".to_string()),
                window_class: Some("CabinetWClass".to_string()),
                title: Some("Downloads".to_string()),
            }),
        },
    );
    assert_eq!(
        decode_response(&encode_response(&response).unwrap(), 31).unwrap(),
        response
    );
}

#[test]
fn codec_roundtrips_available_config_observation() {
    let request = Envelope::current(7, Request::GetConfig);
    assert_eq!(
        decode_request(&encode_request(&request).unwrap()).unwrap(),
        request
    );
    let response = Envelope::current(
        7,
        Response::Config {
            revision: 3,
            generation: 2,
            config_bytes: Some(br#"{"schema_version":2}"#.to_vec()),
        },
    );
    assert_eq!(
        decode_response(&encode_response(&response).unwrap(), 7).unwrap(),
        response
    );
}

#[test]
fn codec_roundtrips_unavailable_config_observation() {
    let response = Envelope::current(
        8,
        Response::Config {
            revision: 0,
            generation: 0,
            config_bytes: None,
        },
    );
    assert_eq!(
        decode_response(&encode_response(&response).unwrap(), 8).unwrap(),
        response
    );
}

#[test]
fn config_payload_limit_is_enforced_by_the_closed_codec() {
    let oversized = Envelope::current(
        1,
        Request::PrepareConfig {
            expected_revision: 1,
            config_bytes: vec![0; MAX_CONFIG_BYTES + 1],
        },
    );
    assert!(matches!(
        encode_request(&oversized),
        Err(ProtocolError::FrameTooLarge(_))
    ));

    let mut payload = Vec::from(1_u64.to_le_bytes());
    payload.extend_from_slice(&u32::try_from(MAX_CONFIG_BYTES + 1).unwrap().to_le_bytes());
    let body = encode_envelope(PROTOCOL_VERSION, 6, 1, &payload).unwrap();
    assert!(matches!(
        decode_request(&body),
        Err(ProtocolError::InvalidMessage)
    ));
}

#[test]
fn zero_length_frame_is_rejected() {
    assert!(matches!(
        frame_body_length(&0_u32.to_le_bytes()),
        Err(ProtocolError::ZeroLength)
    ));
    assert!(matches!(frame_prefix(&[]), Err(ProtocolError::ZeroLength)));
}

#[test]
fn oversized_frame_is_rejected_before_body_read() {
    let oversized = u32::try_from(MAX_BODY + 1).unwrap();
    assert!(matches!(
        frame_body_length(&oversized.to_le_bytes()),
        Err(ProtocolError::FrameTooLarge(length)) if length == oversized
    ));
}

#[test]
fn maximum_frame_body_is_accepted() {
    let body = vec![0_u8; MAX_BODY];
    let prefix = frame_prefix(&body).unwrap();
    assert_eq!(prefix, (MAX_BODY as u32).to_le_bytes().to_vec());
    assert_eq!(frame_body_length(&prefix).unwrap(), MAX_BODY);
    assert_eq!(prefix.len() + body.len(), MAX_ENCODED_FRAME);
}

#[test]
fn wrong_version_is_rejected() {
    let mut body = encode_request(&Envelope::current(1, Request::Ping)).unwrap();
    body[..2].copy_from_slice(&(PROTOCOL_VERSION + 1).to_le_bytes());
    assert!(matches!(
        decode_request(&body),
        Err(ProtocolError::WrongVersion(version)) if version == PROTOCOL_VERSION + 1
    ));
}

#[test]
fn unknown_message_is_rejected() {
    let body = encode_envelope(PROTOCOL_VERSION, 99, 1, &[]).unwrap();
    assert!(matches!(
        decode_request(&body),
        Err(ProtocolError::InvalidMessage)
    ));
}

#[test]
fn invalid_utf8_is_rejected() {
    let mut payload = Vec::from(secret());
    payload.extend_from_slice(&[1, 0xff]);
    let body = encode_envelope(PROTOCOL_VERSION, 1, 1, &payload).unwrap();
    assert!(matches!(
        decode_request(&body),
        Err(ProtocolError::InvalidUtf8)
    ));
}

#[test]
fn mismatched_response_id_is_rejected() {
    let body = encode_response(&Envelope::current(8, Response::Pong)).unwrap();
    assert!(matches!(
        decode_response(&body, 7),
        Err(ProtocolError::MismatchedResponse {
            expected: 7,
            actual: 8
        })
    ));
}

#[test]
fn envelope_layout_is_version_tag_id_and_payload() {
    let body = encode_envelope(PROTOCOL_VERSION, 2, 0x0102_0304_0506_0708, &[9, 10]).unwrap();
    assert_eq!(
        body,
        vec![3, 0, 2, 0, 8, 7, 6, 5, 4, 3, 2, 1, 9, 10],
    );
    assert_eq!(request_id_from_body(&body), Some(0x0102_0304_0506_0708));
    assert_eq!(request_id_from_body(&body[..5]), None);
}

#[test]
fn error_response_roundtrips_each_code() {
    for code in [
        ErrorCode::WrongVersion,
        ErrorCode::AuthenticationFailed,
        ErrorCode::RequestLimit,
        ErrorCode::CaptureBackendFailed,
    ] {
        let response = Envelope::current(12, Response::Error(code));
        assert_eq!(
            decode_response(&encode_response(&response).unwrap(), 12).unwrap(),
            response
        );
    }
}

#[test]
fn version_string_longer_than_the_limit_is_refused() {
    let request = Envelope::current(
        1,
        Request::Hello {
            auth_secret: secret(),
            executable_version: "v".repeat(65),
        },
    );
    assert!(matches!(
        encode_request(&request),
        Err(ProtocolError::VersionTooLong)
    ));
}

#[test]
fn trailing_bytes_after_a_message_are_rejected() {
    let mut body = encode_request(&Envelope::current(3, Request::Ping)).unwrap();
    body.push(0);
    assert!(matches!(
        decode_request(&body),
        Err(ProtocolError::InvalidMessage)
    ));
}

#[test]
fn short_body_is_rejected() {
    assert!(matches!(
        decode_request(&[3, 0, 2]),
        Err(ProtocolError::InvalidMessage)
    ));
}

#[test]
fn encoded_messages_have_the_documented_bytes() {
    assert_eq!(
        encode_response(&Envelope::current(
            5,
            Response::Shutdown {
                already_requested: true
            }
        ))
        .unwrap(),
        vec![3, 0, 132, 0, 5, 0, 0, 0, 0, 0, 0, 0, 1]
    );
    assert_eq!(
        encode_request(&Envelope::current(
            2,
            Request::SetEnabled {
                expected_revision: 0x0102,
                enabled: true
            }
        ))
        .unwrap(),
        vec![3, 0, 8, 0, 2, 0, 0, 0, 0, 0, 0, 0, 2, 1, 0, 0, 0, 0, 0, 0, 1]
    );
    assert_eq!(
        encode_response(&Envelope::current(9, Response::Error(ErrorCode::CaptureBackendFailed)))
            .unwrap(),
        vec![3, 0, 255, 0, 9, 0, 0, 0, 0, 0, 0, 0, 18]
    );
    let capture = encode_response(&Envelope::current(
        1,
        Response::WindowCapture {
            capture_id: 1,
            epoch: 2,
            result: WindowCaptureResult::Captured(WindowCaptureInfo {
                process_name: None,
                window_class: Some("ab".to_string()),
                title: None,
            }),
        },
    ))
    .unwrap();
    assert_eq!(
        &capture[12..],
        &[1, 0, 0, 0, 0, 0, 0, 0, 2, 0, 0, 0, 0, 0, 0, 0, 1, 0xFF, 0xFF, 2, 0, b'a', b'b', 0xFF, 0xFF]
    );
}

#[test]
fn a_decoded_response_body_re_encodes_to_the_same_bytes() {
    // Applied { revision: 8, generation: 5, durability_warning: true } for request 9.
    let mut body = vec![3, 0, 135, 0, 9, 0, 0, 0, 0, 0, 0, 0];
    body.extend_from_slice(&8_u64.to_le_bytes());
    body.extend_from_slice(&5_u64.to_le_bytes());
    body.push(1);
    let decoded = decode_response(&body, 9).unwrap();
    assert_eq!(
        decoded.message,
        Response::Applied {
            revision: 8,
            generation: 5,
            durability_warning: true
        }
    );
    assert_eq!(encode_response(&decoded).unwrap(), body);

    let mut non_canonical = body.clone();
    *non_canonical.last_mut().unwrap() = 2;
    assert!(matches!(
        decode_response(&non_canonical, 9),
        Err(ProtocolError::InvalidMessage)
    ));
}

#[test]
fn a_decoded_request_body_re_encodes_to_the_same_bytes() {
    // SetEnabled { expected_revision: 4, enabled: false } as request 6.
    let mut body = vec![3, 0, 8, 0, 6, 0, 0, 0, 0, 0, 0, 0];
    body.extend_from_slice(&4_u64.to_le_bytes());
    body.push(0);
    let decoded = decode_request(&body).unwrap();
    assert_eq!(
        decoded.message,
        Request::SetEnabled {
            expected_revision: 4,
            enabled: false
        }
    );
    assert_eq!(encode_request(&decoded).unwrap(), body);
}

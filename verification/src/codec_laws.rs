//! Laws of the wire format: decoding what was encoded gives the message back.
use vstd::bytes::*;
use vstd::prelude::*;
use vstd::utf8::*;

use crate::message::{
    EngineStatus, Envelope, ErrorCode, ProtocolError, RequestView, ResponseView, WindowCaptureInfoView,
    WindowCaptureResultView, AUTH_SECRET_BYTES, HEADER_BYTES, MAX_CAPTURE_TEXT_BYTES,
    MAX_CONFIG_BYTES, MAX_ENCODED_FRAME, MAX_VERSION_BYTES, PROTOCOL_VERSION,
};
use crate::wire::{
    bool_byte, bounded_bytes_at, frame_body, le16, le32, le64, optional_text, optional_text_at,
    optional_text_fits, request_encode_error, request_payload, request_tag, request_view_wf,
    short_text, short_text_at, spec_decode_header, spec_decode_request,
    spec_decode_request_payload, spec_encode_request, u16_at, u32_at, u64_at, capture_info_at,
    response_encode_error, response_payload, response_tag, spec_decode_response,
    spec_decode_response_payload, spec_encode_response, status_at, capture_result_payload, status_payload,
    byte_error_code_spec, error_code_byte_spec,
};

verus! {

broadcast use {encode_utf8_valid_utf8, encode_utf8_decode_utf8};

#[verifier::spinoff_prover]
pub proof fn lemma_le_bytes()
    ensures
        forall|x: u16| #[trigger] le16(x).len() == 2 && spec_u16_from_le_bytes(le16(x)) == x,
        forall|x: u32| #[trigger] le32(x).len() == 4 && spec_u32_from_le_bytes(le32(x)) == x,
        forall|x: u64| #[trigger] le64(x).len() == 8 && spec_u64_from_le_bytes(le64(x)) == x,
{
    lemma_auto_spec_u16_to_from_le_bytes();
    lemma_auto_spec_u32_to_from_le_bytes();
    lemma_auto_spec_u64_to_from_le_bytes();
}

/// Decoding the header of a frame body recovers its fields and payload.
pub proof fn lemma_header_roundtrip(tag: u8, request_id: u64, payload: Seq<u8>)
    requires
        request_id != 0,
    ensures
        spec_decode_header(frame_body(PROTOCOL_VERSION, tag, request_id, payload)) == Ok::<
            (u16, u8, u64),
            ProtocolError,
        >((PROTOCOL_VERSION, tag, request_id)),
        frame_body(PROTOCOL_VERSION, tag, request_id, payload).subrange(
            HEADER_BYTES as int,
            frame_body(PROTOCOL_VERSION, tag, request_id, payload).len() as int,
        ) == payload,
{
    lemma_le_bytes();
    let b = frame_body(PROTOCOL_VERSION, tag, request_id, payload);
    let v = le16(PROTOCOL_VERSION);
    let i = le64(request_id);
    assert(le16(PROTOCOL_VERSION).len() == 2);
    assert(le64(request_id).len() == 8);
    assert(b.subrange(0, 2) =~= v);
    assert(b[2] == tag);
    assert(b[3] == 0);
    assert(b.subrange(4, 12) =~= i);
    assert(b.subrange(12, b.len() as int) =~= payload);
}

/// A u64 field placed at `prefix.len()` reads back.
pub proof fn lemma_u64_at(prefix: Seq<u8>, x: u64, suffix: Seq<u8>)
    ensures
        u64_at(prefix + le64(x) + suffix, prefix.len() as int) == x,
{
    lemma_le_bytes();
    assert((prefix + le64(x) + suffix).subrange(
        prefix.len() as int,
        prefix.len() + 8 as int,
    ) =~= le64(x));
}

pub proof fn lemma_u32_at(prefix: Seq<u8>, x: u32, suffix: Seq<u8>)
    ensures
        u32_at(prefix + le32(x) + suffix, prefix.len() as int) == x,
{
    lemma_le_bytes();
    assert((prefix + le32(x) + suffix).subrange(
        prefix.len() as int,
        prefix.len() + 4 as int,
    ) =~= le32(x));
}

pub proof fn lemma_u16_at(prefix: Seq<u8>, x: u16, suffix: Seq<u8>)
    ensures
        u16_at(prefix + le16(x) + suffix, prefix.len() as int) == x,
{
    lemma_le_bytes();
    assert((prefix + le16(x) + suffix).subrange(
        prefix.len() as int,
        prefix.len() + 2 as int,
    ) =~= le16(x));
}

/// A short string placed at `prefix.len()` reads back.
pub proof fn lemma_short_text_at(prefix: Seq<u8>, s: Seq<char>, suffix: Seq<u8>)
    requires
        encode_utf8(s).len() <= MAX_VERSION_BYTES,
    ensures
        short_text_at(prefix + short_text(s) + suffix, prefix.len() as int) == Ok::<
            (Seq<char>, int),
            ProtocolError,
        >((s, prefix.len() + 1 + encode_utf8(s).len() as int)),
{
    let e = encode_utf8(s);
    let p = prefix + short_text(s) + suffix;
    let pos = prefix.len() as int;
    assert(p[pos] == e.len() as u8);
    assert(p.subrange(pos + 1, pos + 1 + e.len()) =~= e);
}

/// An optional capture text placed at `prefix.len()` reads back.
pub proof fn lemma_optional_text_at(prefix: Seq<u8>, s: Option<Seq<char>>, suffix: Seq<u8>)
    requires
        optional_text_fits(s),
    ensures
        optional_text_at(prefix + optional_text(s) + suffix, prefix.len() as int) == Ok::<
            (Option<Seq<char>>, int),
            ProtocolError,
        >((s, prefix.len() + optional_text(s).len() as int)),
{
    lemma_le_bytes();
    let p = prefix + optional_text(s) + suffix;
    let pos = prefix.len() as int;
    match s {
        None => {
            assert(p.subrange(pos, pos + 2) =~= le16(0xFFFF));
        },
        Some(t) => {
            let e = encode_utf8(t);
            assert(p.subrange(pos, pos + 2) =~= le16(e.len() as u16));
            assert(p.subrange(pos + 2, pos + 2 + e.len()) =~= e);
        },
    }
}

/// A length-prefixed byte string placed at `prefix.len()` reads back.
pub proof fn lemma_bounded_bytes_at(prefix: Seq<u8>, bytes: Seq<u8>, suffix: Seq<u8>, max: int)
    requires
        bytes.len() <= max,
        max <= u32::MAX,
    ensures
        bounded_bytes_at(prefix + le32(bytes.len() as u32) + bytes + suffix, prefix.len() as int, max)
            == Ok::<(Seq<u8>, int), ProtocolError>((bytes, prefix.len() + 4 + bytes.len() as int)),
{
    lemma_le_bytes();
    let p = prefix + le32(bytes.len() as u32) + bytes + suffix;
    let pos = prefix.len() as int;
    assert(p.subrange(pos, pos + 4) =~= le32(bytes.len() as u32));
    assert(p.subrange(pos + 4, pos + 4 + bytes.len()) =~= bytes);
}

/// Every request that encodes decodes back to itself.
pub proof fn lemma_request_payload_roundtrip(r: RequestView)
    requires
        request_view_wf(r),
        request_encode_error(r) is None,
    ensures
        spec_decode_request_payload(request_tag(r), request_payload(r)) == Ok::<
            RequestView,
            ProtocolError,
        >(r),
{
    lemma_le_bytes();
    let p = request_payload(r);
    let empty = Seq::<u8>::empty();
    match r {
        RequestView::Hello { auth_secret, executable_version } => {
            lemma_short_text_at(auth_secret, executable_version, empty);
            assert(p =~= auth_secret + short_text(executable_version) + empty);
            assert(p.subrange(0, AUTH_SECRET_BYTES as int) =~= auth_secret);
        },
        RequestView::PrepareConfig { expected_revision, config_bytes } => {
            lemma_bounded_bytes_at(le64(expected_revision), config_bytes, empty, MAX_CONFIG_BYTES as int);
            assert(p =~= le64(expected_revision) + le32(config_bytes.len() as u32) + config_bytes + empty);
            lemma_u64_at(empty, expected_revision, le32(config_bytes.len() as u32) + config_bytes);
            assert(p =~= empty + le64(expected_revision) + (le32(config_bytes.len() as u32) + config_bytes));
        },
        RequestView::CommitConfig { token, base_revision, base_generation } => {
            lemma_u64_at(empty, token, le64(base_revision) + le64(base_generation));
            assert(p =~= empty + le64(token) + (le64(base_revision) + le64(base_generation)));
            lemma_u64_at(le64(token), base_revision, le64(base_generation));
            lemma_u64_at(le64(token) + le64(base_revision), base_generation, empty);
            assert(p =~= le64(token) + le64(base_revision) + le64(base_generation) + empty);
        },
        RequestView::SetEnabled { expected_revision, enabled } => {
            lemma_u64_at(empty, expected_revision, seq![bool_byte(enabled)]);
            assert(p =~= empty + le64(expected_revision) + seq![bool_byte(enabled)]);
        },
        RequestView::BeginWindowCapture { capture_id } => {
            lemma_u64_at(empty, capture_id, empty);
            assert(p =~= empty + le64(capture_id) + empty);
        },
        RequestView::PollWindowCapture { capture_id, epoch } => {
            lemma_u64_at(empty, capture_id, le64(epoch));
            lemma_u64_at(le64(capture_id), epoch, empty);
            assert(p =~= empty + le64(capture_id) + le64(epoch));
            assert(p =~= le64(capture_id) + le64(epoch) + empty);
        },
        RequestView::CancelWindowCapture { capture_id, epoch } => {
            lemma_u64_at(empty, capture_id, le64(epoch));
            lemma_u64_at(le64(capture_id), epoch, empty);
            assert(p =~= empty + le64(capture_id) + le64(epoch));
            assert(p =~= le64(capture_id) + le64(epoch) + empty);
        },
        _ => {},
    }
}

/// Decoding an encoded request gives the request back: for every envelope
/// of the current protocol version, with a nonzero request id, whose
/// message encodes.
pub proof fn lemma_request_roundtrip(e: Envelope<RequestView>)
    requires
        e.protocol_version == PROTOCOL_VERSION,
        e.request_id != 0,
        request_view_wf(e.message),
        spec_encode_request(e) is Ok,
    ensures
        spec_decode_request(spec_encode_request(e).unwrap()) == Ok::<
            Envelope<RequestView>,
            ProtocolError,
        >(e),
{
    lemma_request_payload_roundtrip(e.message);
    lemma_header_roundtrip(request_tag(e.message), e.request_id, request_payload(e.message));
}

/// The three optional texts of a captured window read back.
pub proof fn lemma_capture_info_roundtrip(head: Seq<u8>, info: WindowCaptureInfoView)
    requires
        head.len() == 17,
        optional_text_fits(info.process_name),
        optional_text_fits(info.window_class),
        optional_text_fits(info.title),
    ensures
        capture_info_at(
            head + optional_text(info.process_name) + optional_text(info.window_class)
                + optional_text(info.title),
        ) == Ok::<WindowCaptureInfoView, ProtocolError>(info),
{
    let a = optional_text(info.process_name);
    let b = optional_text(info.window_class);
    let c = optional_text(info.title);
    let p = head + a + b + c;
    lemma_optional_text_at(head, info.process_name, b + c);
    assert(p =~= head + a + (b + c));
    lemma_optional_text_at(head + a, info.window_class, c);
    assert(p =~= (head + a) + b + c);
    lemma_optional_text_at(head + a + b, info.title, Seq::<u8>::empty());
    assert(p =~= (head + a + b) + c + Seq::<u8>::empty());
}

#[verifier::spinoff_prover]
proof fn lemma_status_roundtrip(st: EngineStatus)
    ensures
        spec_decode_response_payload(131, status_payload(st)) == Ok::<ResponseView, ProtocolError>(
            ResponseView::Status(st),
        ),
{
    lemma_le_bytes();
    let p = status_payload(st);
    let f0 = seq![1u8];
    let f1 = le16(st.webview_count);
    let f2 = le32(st.process_id);
    let f3 = le64(st.uptime_ms);
    let f4 = le32(st.thread_count);
    let f5 = le32(st.handle_count);
    let f6 = le64(st.working_set_bytes);
    let f7 = seq![bool_byte(st.config_available)];
    let f8 = le64(st.config_revision);
    let f9 = le64(st.config_generation);
    let f10 = seq![bool_byte(st.config_candidate_prepared)];
    assert(p =~= f0 + f1 + f2 + f3 + f4 + f5 + f6 + f7 + f8 + f9 + f10);
    lemma_u16_at(f0, st.webview_count, f2 + f3 + f4 + f5 + f6 + f7 + f8 + f9 + f10);
    assert(p =~= f0 + f1 + (f2 + f3 + f4 + f5 + f6 + f7 + f8 + f9 + f10));
    lemma_u32_at(f0 + f1, st.process_id, f3 + f4 + f5 + f6 + f7 + f8 + f9 + f10);
    assert(p =~= (f0 + f1) + f2 + (f3 + f4 + f5 + f6 + f7 + f8 + f9 + f10));
    lemma_u64_at(f0 + f1 + f2, st.uptime_ms, f4 + f5 + f6 + f7 + f8 + f9 + f10);
    assert(p =~= (f0 + f1 + f2) + f3 + (f4 + f5 + f6 + f7 + f8 + f9 + f10));
    lemma_u32_at(f0 + f1 + f2 + f3, st.thread_count, f5 + f6 + f7 + f8 + f9 + f10);
    assert(p =~= (f0 + f1 + f2 + f3) + f4 + (f5 + f6 + f7 + f8 + f9 + f10));
    lemma_u32_at(f0 + f1 + f2 + f3 + f4, st.handle_count, f6 + f7 + f8 + f9 + f10);
    assert(p =~= (f0 + f1 + f2 + f3 + f4) + f5 + (f6 + f7 + f8 + f9 + f10));
    lemma_u64_at(f0 + f1 + f2 + f3 + f4 + f5, st.working_set_bytes, f7 + f8 + f9 + f10);
    assert(p =~= (f0 + f1 + f2 + f3 + f4 + f5) + f6 + (f7 + f8 + f9 + f10));
    lemma_u64_at(f0 + f1 + f2 + f3 + f4 + f5 + f6 + f7, st.config_revision, f9 + f10);
    assert(p =~= (f0 + f1 + f2 + f3 + f4 + f5 + f6 + f7) + f8 + (f9 + f10));
    lemma_u64_at(f0 + f1 + f2 + f3 + f4 + f5 + f6 + f7 + f8, st.config_generation, f10);
    assert(p =~= (f0 + f1 + f2 + f3 + f4 + f5 + f6 + f7 + f8) + f9 + f10);
    assert(p[31] == bool_byte(st.config_available));
    assert(p[48] == bool_byte(st.config_candidate_prepared));
    assert(status_at(p) == st);
}

proof fn lemma_config_roundtrip(r: ResponseView)
    requires
        r is Config,
        response_encode_error(r) is None,
    ensures
        spec_decode_response_payload(response_tag(r), response_payload(r)) == Ok::<
            ResponseView,
            ProtocolError,
        >(r),
{
    lemma_le_bytes();
    let p = response_payload(r);
    let empty = Seq::<u8>::empty();
    let revision = r->Config_revision;
    let generation = r->Config_generation;
    let config_bytes = r->config_bytes;
    let flag = match config_bytes {
        None => seq![0u8],
        Some(_) => seq![1u8],
    };
    let rest = match config_bytes {
        None => empty,
        Some(bytes) => le32(bytes.len() as u32) + bytes,
    };
    assert(p =~= empty + le64(revision) + (le64(generation) + flag + rest));
    lemma_u64_at(empty, revision, le64(generation) + flag + rest);
    assert(p =~= le64(revision) + le64(generation) + (flag + rest));
    lemma_u64_at(le64(revision), generation, flag + rest);
    if let Some(bytes) = config_bytes {
        let head = le64(revision) + le64(generation) + flag;
        assert(p =~= head + le32(bytes.len() as u32) + bytes + empty);
        lemma_bounded_bytes_at(head, bytes, empty, MAX_CONFIG_BYTES as int);
    }
}

proof fn lemma_window_capture_roundtrip(r: ResponseView)
    requires
        r is WindowCapture,
        response_encode_error(r) is None,
    ensures
        spec_decode_response_payload(response_tag(r), response_payload(r)) == Ok::<
            ResponseView,
            ProtocolError,
        >(r),
{
    lemma_le_bytes();
    let p = response_payload(r);
    let empty = Seq::<u8>::empty();
    let capture_id = r->WindowCapture_capture_id;
    let epoch = r->WindowCapture_epoch;
    let result = r->result;
    let tail = capture_result_payload(result);
    lemma_u64_at(empty, capture_id, le64(epoch) + tail);
    assert(p =~= empty + le64(capture_id) + (le64(epoch) + tail));
    lemma_u64_at(le64(capture_id), epoch, tail);
    if let WindowCaptureResultView::Captured(info) = result {
        let head = le64(capture_id) + le64(epoch) + seq![1u8];
        assert(p =~= head + optional_text(info.process_name) + optional_text(
            info.window_class,
        ) + optional_text(info.title));
        lemma_capture_info_roundtrip(head, info);
    }
}

/// Every response that encodes decodes back to itself.
pub proof fn lemma_response_payload_roundtrip(r: ResponseView)
    requires
        response_encode_error(r) is None,
    ensures
        spec_decode_response_payload(response_tag(r), response_payload(r)) == Ok::<
            ResponseView,
            ProtocolError,
        >(r),
{
    lemma_le_bytes();
    let p = response_payload(r);
    let empty = Seq::<u8>::empty();
    match r {
        ResponseView::Hello { engine_version, config_schema_version, capabilities } => {
            let t = short_text(engine_version);
            lemma_short_text_at(empty, engine_version, le16(config_schema_version) + le64(capabilities));
            assert(p =~= empty + t + (le16(config_schema_version) + le64(capabilities)));
            lemma_u16_at(t, config_schema_version, le64(capabilities));
            lemma_u64_at(t + le16(config_schema_version), capabilities, empty);
            assert(p =~= t + le16(config_schema_version) + le64(capabilities) + empty);
        },
        ResponseView::Status(st) => {
            lemma_status_roundtrip(st);
        },
        ResponseView::Config { .. } => {
            lemma_config_roundtrip(r);
        },
        ResponseView::Prepared { token, base_revision, base_generation } => {
            lemma_u64_at(empty, token, le64(base_revision) + le64(base_generation));
            assert(p =~= empty + le64(token) + (le64(base_revision) + le64(base_generation)));
            lemma_u64_at(le64(token), base_revision, le64(base_generation));
            lemma_u64_at(le64(token) + le64(base_revision), base_generation, empty);
            assert(p =~= le64(token) + le64(base_revision) + le64(base_generation) + empty);
        },
        ResponseView::Applied { revision, generation, durability_warning } => {
            let w = seq![bool_byte(durability_warning)];
            lemma_u64_at(empty, revision, le64(generation) + w);
            assert(p =~= empty + le64(revision) + (le64(generation) + w));
            lemma_u64_at(le64(revision), generation, w);
        },
        ResponseView::WindowCaptureStarted { capture_id, epoch } => {
            lemma_u64_at(empty, capture_id, le64(epoch));
            lemma_u64_at(le64(capture_id), epoch, empty);
            assert(p =~= empty + le64(capture_id) + le64(epoch));
            assert(p =~= le64(capture_id) + le64(epoch) + empty);
        },
        ResponseView::WindowCapture { .. } => {
            lemma_window_capture_roundtrip(r);
        },
        ResponseView::WindowCaptureCancelled { capture_id, epoch } => {
            lemma_u64_at(empty, capture_id, le64(epoch));
            lemma_u64_at(le64(capture_id), epoch, empty);
            assert(p =~= empty + le64(capture_id) + le64(epoch));
            assert(p =~= le64(capture_id) + le64(epoch) + empty);
        },
        ResponseView::Error(code) => {
            assert(byte_error_code_spec(error_code_byte_spec(code)) == Some(code));
        },
        _ => {},
    }
}

/// Decoding an encoded response, with the id it was sent under, gives the
/// response back: for every envelope of the current protocol version, with
/// a nonzero request id, whose message encodes.
pub proof fn lemma_response_roundtrip(e: Envelope<ResponseView>)
    requires
        e.protocol_version == PROTOCOL_VERSION,
        e.request_id != 0,
        spec_encode_response(e) is Ok,
    ensures
        spec_decode_response(spec_encode_response(e).unwrap(), e.request_id) == Ok::<
            Envelope<ResponseView>,
            ProtocolError,
        >(e),
{
    lemma_response_payload_roundtrip(e.message);
    lemma_header_roundtrip(response_tag(e.message), e.request_id, response_payload(e.message));
}

/// A response decoded with an id other than the one it was sent under is
/// refused as a mismatch that names both ids.
pub proof fn lemma_response_id_mismatch(e: Envelope<ResponseView>, expected_request_id: u64)
    requires
        e.protocol_version == PROTOCOL_VERSION,
        e.request_id != 0,
        spec_encode_response(e) is Ok,
        expected_request_id != e.request_id,
    ensures
        spec_decode_response(spec_encode_response(e).unwrap(), expected_request_id) == Err::<
            Envelope<ResponseView>,
            ProtocolError,
        >(ProtocolError::MismatchedResponse { expected: expected_request_id, actual: e.request_id }),
{
    lemma_header_roundtrip(response_tag(e.message), e.request_id, response_payload(e.message));
}

// ---------------------------------------------------------------------------
// Canonical form: what decodes is exactly what the encoder writes.
// ---------------------------------------------------------------------------

/// Every little-endian field read back from bytes writes those bytes again.
proof fn lemma_le_fields_canonical()
    ensures
        forall|s: Seq<u8>| s.len() == 2 ==> #[trigger] le16(spec_u16_from_le_bytes(s)) == s,
        forall|s: Seq<u8>| s.len() == 4 ==> #[trigger] le32(spec_u32_from_le_bytes(s)) == s,
        forall|s: Seq<u8>| s.len() == 8 ==> #[trigger] le64(spec_u64_from_le_bytes(s)) == s,
{
    lemma_auto_spec_u16_to_from_le_bytes();
    lemma_auto_spec_u32_to_from_le_bytes();
    lemma_auto_spec_u64_to_from_le_bytes();
}

proof fn lemma_u64_at_canonical(p: Seq<u8>, pos: int)
    requires
        0 <= pos,
        pos + 8 <= p.len(),
    ensures
        p.subrange(pos, pos + 8) == le64(u64_at(p, pos)),
{
    lemma_le_fields_canonical();
    assert(le64(spec_u64_from_le_bytes(p.subrange(pos, pos + 8))) == p.subrange(pos, pos + 8));
}

proof fn lemma_u32_at_canonical(p: Seq<u8>, pos: int)
    requires
        0 <= pos,
        pos + 4 <= p.len(),
    ensures
        p.subrange(pos, pos + 4) == le32(u32_at(p, pos)),
{
    lemma_le_fields_canonical();
    assert(le32(spec_u32_from_le_bytes(p.subrange(pos, pos + 4))) == p.subrange(pos, pos + 4));
}

proof fn lemma_u16_at_canonical(p: Seq<u8>, pos: int)
    requires
        0 <= pos,
        pos + 2 <= p.len(),
    ensures
        p.subrange(pos, pos + 2) == le16(u16_at(p, pos)),
{
    lemma_le_fields_canonical();
    assert(le16(spec_u16_from_le_bytes(p.subrange(pos, pos + 2))) == p.subrange(pos, pos + 2));
}

/// A short string that reads back was written in its one encoding.
proof fn lemma_short_text_canonical(p: Seq<u8>, pos: int)
    requires
        0 <= pos,
        short_text_at(p, pos) is Ok,
    ensures
        ({
            let (s, end) = short_text_at(p, pos).unwrap();
            &&& pos < end <= p.len()
            &&& p.subrange(pos, end) == short_text(s)
            &&& encode_utf8(s).len() <= MAX_VERSION_BYTES
        }),
{
    broadcast use decode_utf8_encode_utf8;

    let n = p[pos] as int;
    let bytes = p.subrange(pos + 1, pos + 1 + n);
    assert(encode_utf8(decode_utf8(bytes)) == bytes);
    assert(p.subrange(pos, pos + 1 + n) =~= seq![p[pos]] + bytes);
}

/// An optional capture text that reads back was written in its one
/// encoding, and fits.
proof fn lemma_optional_text_canonical(p: Seq<u8>, pos: int)
    requires
        0 <= pos,
        optional_text_at(p, pos) is Ok,
    ensures
        ({
            let (s, end) = optional_text_at(p, pos).unwrap();
            &&& pos < end <= p.len()
            &&& p.subrange(pos, end) == optional_text(s)
            &&& optional_text_fits(s)
        }),
{
    broadcast use decode_utf8_encode_utf8;

    lemma_u16_at_canonical(p, pos);
    let n = spec_u16_from_le_bytes(p.subrange(pos, pos + 2));
    if n != 0xFFFF {
        let bytes = p.subrange(pos + 2, pos + 2 + n);
        assert(encode_utf8(decode_utf8(bytes)) == bytes);
        assert(encode_utf8(decode_utf8(bytes)).len() as u16 == n);
        assert(p.subrange(pos, pos + 2 + n) =~= p.subrange(pos, pos + 2) + bytes);
    }
}

/// A length-prefixed byte string that reads back was written with its own
/// length, within the bound.
proof fn lemma_bounded_bytes_canonical(p: Seq<u8>, pos: int, max: int)
    requires
        0 <= pos,
        max <= u32::MAX,
        bounded_bytes_at(p, pos, max) is Ok,
    ensures
        ({
            let (bytes, end) = bounded_bytes_at(p, pos, max).unwrap();
            &&& pos < end <= p.len()
            &&& p.subrange(pos, end) == le32(bytes.len() as u32) + bytes
            &&& bytes.len() <= max
        }),
{
    lemma_u32_at_canonical(p, pos);
    let n = spec_u32_from_le_bytes(p.subrange(pos, pos + 4));
    let bytes = p.subrange(pos + 4, pos + 4 + n);
    assert(bytes.len() as u32 == n);
    assert(p.subrange(pos, pos + 4 + n) =~= p.subrange(pos, pos + 4) + bytes);
}

/// A frame header that passes the checks is the header the encoder writes
/// for the fields it decodes to.
proof fn lemma_header_canonical(b: Seq<u8>)
    requires
        spec_decode_header(b) is Ok,
    ensures
        ({
            let (version, tag, request_id) = spec_decode_header(b).unwrap();
            b == frame_body(version, tag, request_id, b.subrange(HEADER_BYTES as int, b.len() as int))
        }),
{
    lemma_u16_at_canonical(b, 0);
    lemma_u64_at_canonical(b, 4);
    let (version, tag, request_id) = spec_decode_header(b).unwrap();
    assert(b =~= frame_body(version, tag, request_id, b.subrange(HEADER_BYTES as int, b.len() as int)));
}

/// A request payload that decodes is the payload the encoder writes for
/// the request it decodes to, under the same tag.
pub proof fn lemma_request_payload_canonical(tag: u8, p: Seq<u8>)
    requires
        spec_decode_request_payload(tag, p) is Ok,
    ensures
        ({
            let r = spec_decode_request_payload(tag, p).unwrap();
            &&& request_tag(r) == tag
            &&& request_encode_error(r) is None
            &&& request_view_wf(r)
            &&& request_payload(r) == p
        }),
{
    lemma_le_bytes();
    if tag == 1 {
        lemma_short_text_canonical(p, AUTH_SECRET_BYTES as int);
        let (v, end) = short_text_at(p, AUTH_SECRET_BYTES as int).unwrap();
        assert(p =~= p.subrange(0, AUTH_SECRET_BYTES as int) + p.subrange(
            AUTH_SECRET_BYTES as int,
            end,
        ));
    } else if tag == 6 {
        lemma_u64_at_canonical(p, 0);
        lemma_bounded_bytes_canonical(p, 8, MAX_CONFIG_BYTES as int);
        let (bytes, end) = bounded_bytes_at(p, 8, MAX_CONFIG_BYTES as int).unwrap();
        assert(p =~= p.subrange(0, 8) + p.subrange(8, end));
    } else if tag == 7 {
        lemma_u64_at_canonical(p, 0);
        lemma_u64_at_canonical(p, 8);
        lemma_u64_at_canonical(p, 16);
        assert(p =~= p.subrange(0, 8) + p.subrange(8, 16) + p.subrange(16, 24));
    } else if tag == 8 {
        lemma_u64_at_canonical(p, 0);
        assert(bool_byte(p[8] == 1) == p[8]);
        assert(p =~= p.subrange(0, 8) + seq![p[8]]);
    } else if tag == 9 {
        lemma_u64_at_canonical(p, 0);
        assert(p =~= p.subrange(0, 8));
    } else if tag == 10 || tag == 11 {
        lemma_u64_at_canonical(p, 0);
        lemma_u64_at_canonical(p, 8);
        assert(p =~= p.subrange(0, 8) + p.subrange(8, 16));
    } else {
        assert(p =~= Seq::<u8>::empty());
    }
}

/// A request body is accepted only in the form the encoder writes: every
/// body that decodes, and fits a frame, is the encoding of what it decodes
/// to.
pub proof fn lemma_request_canonical(b: Seq<u8>)
    requires
        spec_decode_request(b) is Ok,
        b.len() + 4 <= MAX_ENCODED_FRAME,
    ensures
        spec_encode_request(spec_decode_request(b).unwrap()) == Ok::<Seq<u8>, ProtocolError>(b),
{
    lemma_header_canonical(b);
    let (version, tag, request_id) = spec_decode_header(b).unwrap();
    lemma_request_payload_canonical(tag, b.subrange(HEADER_BYTES as int, b.len() as int));
}

/// The status payload that decodes is the one the encoder writes.
proof fn lemma_status_canonical(p: Seq<u8>)
    requires
        p.len() == 49,
        p[0] == 1,
        p[31] <= 1,
        p[48] <= 1,
    ensures
        status_payload(status_at(p)) == p,
{
    lemma_u16_at_canonical(p, 1);
    lemma_u32_at_canonical(p, 3);
    lemma_u64_at_canonical(p, 7);
    lemma_u32_at_canonical(p, 15);
    lemma_u32_at_canonical(p, 19);
    lemma_u64_at_canonical(p, 23);
    lemma_u64_at_canonical(p, 32);
    lemma_u64_at_canonical(p, 40);
    assert(bool_byte(p[31] == 1) == p[31]);
    assert(bool_byte(p[48] == 1) == p[48]);
    assert(p =~= seq![p[0]] + p.subrange(1, 3) + p.subrange(3, 7) + p.subrange(7, 15) + p.subrange(
        15,
        19,
    ) + p.subrange(19, 23) + p.subrange(23, 31) + seq![p[31]] + p.subrange(32, 40) + p.subrange(
        40,
        48,
    ) + seq![p[48]]);
}

/// The captured-window texts that decode are the ones the encoder writes.
proof fn lemma_capture_info_canonical(p: Seq<u8>)
    requires
        p.len() >= 17,
        capture_info_at(p) is Ok,
    ensures
        ({
            let info = capture_info_at(p).unwrap();
            &&& optional_text_fits(info.process_name)
            &&& optional_text_fits(info.window_class)
            &&& optional_text_fits(info.title)
            &&& p.subrange(17, p.len() as int) == optional_text(info.process_name) + optional_text(
                info.window_class,
            ) + optional_text(info.title)
        }),
{
    lemma_optional_text_canonical(p, 17);
    let (n, e1) = optional_text_at(p, 17).unwrap();
    lemma_optional_text_canonical(p, e1);
    let (c, e2) = optional_text_at(p, e1).unwrap();
    lemma_optional_text_canonical(p, e2);
    assert(p.subrange(17, p.len() as int) =~= p.subrange(17, e1) + p.subrange(e1, e2) + p.subrange(
        e2,
        p.len() as int,
    ));
}

/// A response payload that decodes is the payload the encoder writes for
/// the response it decodes to, under the same tag.
#[verifier::spinoff_prover]
#[verifier::rlimit(40)]
pub proof fn lemma_response_payload_canonical(tag: u8, p: Seq<u8>)
    requires
        spec_decode_response_payload(tag, p) is Ok,
    ensures
        ({
            let r = spec_decode_response_payload(tag, p).unwrap();
            &&& response_tag(r) == tag
            &&& response_encode_error(r) is None
            &&& response_payload(r) == p
        }),
{
    lemma_le_bytes();
    if tag == 129 {
        lemma_short_text_canonical(p, 0);
        let (v, end) = short_text_at(p, 0).unwrap();
        lemma_u16_at_canonical(p, end);
        lemma_u64_at_canonical(p, end + 2);
        assert(p =~= p.subrange(0, end) + p.subrange(end, end + 2) + p.subrange(end + 2, end + 10));
    } else if tag == 130 {
        assert(p =~= Seq::<u8>::empty());
    } else if tag == 131 {
        lemma_status_canonical(p);
    } else if tag == 132 {
        assert(bool_byte(p[0] == 1) == p[0]);
        assert(p =~= seq![p[0]]);
    } else if tag == 133 {
        lemma_u64_at_canonical(p, 0);
        lemma_u64_at_canonical(p, 8);
        if p[16] == 0 {
            assert(p =~= p.subrange(0, 8) + p.subrange(8, 16) + seq![0u8]);
        } else {
            lemma_bounded_bytes_canonical(p, 17, MAX_CONFIG_BYTES as int);
            let (bytes, end) = bounded_bytes_at(p, 17, MAX_CONFIG_BYTES as int).unwrap();
            assert(p =~= p.subrange(0, 8) + p.subrange(8, 16) + seq![1u8] + p.subrange(17, end));
        }
    } else if tag == 134 {
        lemma_u64_at_canonical(p, 0);
        lemma_u64_at_canonical(p, 8);
        lemma_u64_at_canonical(p, 16);
        assert(p =~= p.subrange(0, 8) + p.subrange(8, 16) + p.subrange(16, 24));
    } else if tag == 135 {
        lemma_u64_at_canonical(p, 0);
        lemma_u64_at_canonical(p, 8);
        assert(bool_byte(p[16] == 1) == p[16]);
        assert(p =~= p.subrange(0, 8) + p.subrange(8, 16) + seq![p[16]]);
    } else if tag == 136 || tag == 138 {
        lemma_u64_at_canonical(p, 0);
        lemma_u64_at_canonical(p, 8);
        assert(p =~= p.subrange(0, 8) + p.subrange(8, 16));
    } else if tag == 137 {
        lemma_u64_at_canonical(p, 0);
        lemma_u64_at_canonical(p, 8);
        if p[16] == 0 {
            assert(p =~= p.subrange(0, 8) + p.subrange(8, 16) + seq![0u8]);
        } else {
            lemma_capture_info_canonical(p);
            assert(p =~= p.subrange(0, 8) + p.subrange(8, 16) + seq![1u8] + p.subrange(
                17,
                p.len() as int,
            ));
        }
    } else {
        assert(error_code_byte_spec(byte_error_code_spec(p[0]).unwrap()) == p[0]);
        assert(p =~= seq![p[0]]);
    }
}

/// A response body is accepted only in the form the encoder writes: every
/// body that decodes under some expected request id, and fits a frame, is
/// the encoding of what it decodes to.
pub proof fn lemma_response_canonical(b: Seq<u8>, expected_request_id: u64)
    requires
        spec_decode_response(b, expected_request_id) is Ok,
        b.len() + 4 <= MAX_ENCODED_FRAME,
    ensures
        spec_encode_response(spec_decode_response(b, expected_request_id).unwrap()) == Ok::<
            Seq<u8>,
            ProtocolError,
        >(b),
{
    lemma_header_canonical(b);
    let (version, tag, request_id) = spec_decode_header(b).unwrap();
    lemma_response_payload_canonical(tag, b.subrange(HEADER_BYTES as int, b.len() as int));
}

// ---------------------------------------------------------------------------
// Size limits: what is accepted, spelled out byte by byte.
// ---------------------------------------------------------------------------

/// A `PrepareConfig` request carrying a configuration document of at most
/// `MAX_CONFIG_BYTES` bytes always encodes, as the header (version, tag 6,
/// a zero byte, the request id), the expected revision, the document's
/// 32-bit length and the document itself; and a nonzero request id decodes
/// back from exactly those bytes. A larger document is refused with its
/// length (saturated to 32 bits).
pub proof fn lemma_prepare_config_size_limit(
    request_id: u64,
    expected_revision: u64,
    config_bytes: Seq<u8>,
)
    ensures
        ({
            let e = Envelope {
                protocol_version: PROTOCOL_VERSION,
                request_id,
                message: RequestView::PrepareConfig { expected_revision, config_bytes },
            };
            let bytes = le16(PROTOCOL_VERSION) + seq![6u8, 0u8] + le64(request_id) + le64(
                expected_revision,
            ) + le32(config_bytes.len() as u32) + config_bytes;
            &&& config_bytes.len() <= MAX_CONFIG_BYTES ==> spec_encode_request(e) == Ok::<
                Seq<u8>,
                ProtocolError,
            >(bytes)
            &&& config_bytes.len() <= MAX_CONFIG_BYTES && request_id != 0 ==> spec_decode_request(
                bytes,
            ) == Ok::<Envelope<RequestView>, ProtocolError>(e)
            &&& config_bytes.len() > MAX_CONFIG_BYTES ==> spec_encode_request(e) == Err::<
                Seq<u8>,
                ProtocolError,
            >(
                ProtocolError::FrameTooLarge(
                    if config_bytes.len() <= u32::MAX {
                        config_bytes.len() as u32
                    } else {
                        u32::MAX
                    },
                ),
            )
        }),
{
    let e = Envelope {
        protocol_version: PROTOCOL_VERSION,
        request_id,
        message: RequestView::PrepareConfig { expected_revision, config_bytes },
    };
    lemma_le_bytes();
    if config_bytes.len() <= MAX_CONFIG_BYTES {
        let payload = request_payload(e.message);
        assert(frame_body(PROTOCOL_VERSION, 6, request_id, payload) =~= le16(PROTOCOL_VERSION)
            + seq![6u8, 0u8] + le64(request_id) + le64(expected_revision) + le32(
            config_bytes.len() as u32,
        ) + config_bytes);
        if request_id != 0 {
            lemma_request_roundtrip(e);
        }
    }
}

/// A `Hello` request always encodes when its executable version takes at
/// most `MAX_VERSION_BYTES` bytes of UTF-8, as the header (tag 1), the
/// secret, one length byte and the version's bytes, and decodes back from
/// them; a longer version is refused as `VersionTooLong`.
pub proof fn lemma_hello_version_limit(
    request_id: u64,
    auth_secret: Seq<u8>,
    executable_version: Seq<char>,
)
    requires
        auth_secret.len() == AUTH_SECRET_BYTES,
    ensures
        ({
            let e = Envelope {
                protocol_version: PROTOCOL_VERSION,
                request_id,
                message: RequestView::Hello { auth_secret, executable_version },
            };
            let text = encode_utf8(executable_version);
            let bytes = le16(PROTOCOL_VERSION) + seq![1u8, 0u8] + le64(request_id) + auth_secret
                + seq![text.len() as u8] + text;
            &&& text.len() <= MAX_VERSION_BYTES ==> spec_encode_request(e) == Ok::<
                Seq<u8>,
                ProtocolError,
            >(bytes)
            &&& text.len() <= MAX_VERSION_BYTES && request_id != 0 ==> spec_decode_request(bytes)
                == Ok::<Envelope<RequestView>, ProtocolError>(e)
            &&& text.len() > MAX_VERSION_BYTES ==> spec_encode_request(e) == Err::<
                Seq<u8>,
                ProtocolError,
            >(ProtocolError::VersionTooLong)
        }),
{
    let e = Envelope {
        protocol_version: PROTOCOL_VERSION,
        request_id,
        message: RequestView::Hello { auth_secret, executable_version },
    };
    lemma_le_bytes();
    let text = encode_utf8(executable_version);
    if text.len() <= MAX_VERSION_BYTES {
        let payload = request_payload(e.message);
        assert(frame_body(PROTOCOL_VERSION, 1, request_id, payload) =~= le16(PROTOCOL_VERSION)
            + seq![1u8, 0u8] + le64(request_id) + auth_secret + seq![text.len() as u8] + text);
        if request_id != 0 {
            lemma_request_roundtrip(e);
        }
    }
}

/// A `Config` answer carrying a document of at most `MAX_CONFIG_BYTES`
/// bytes always encodes, as the header (tag 133), revision, generation, a
/// presence byte 1, the 32-bit length and the document, and decodes back
/// from those bytes under its request id; a larger document is refused with
/// its length (saturated to 32 bits).
pub proof fn lemma_config_answer_size_limit(
    request_id: u64,
    revision: u64,
    generation: u64,
    config_bytes: Seq<u8>,
)
    ensures
        ({
            let e = Envelope {
                protocol_version: PROTOCOL_VERSION,
                request_id,
                message: ResponseView::Config {
                    revision,
                    generation,
                    config_bytes: Some(config_bytes),
                },
            };
            let bytes = le16(PROTOCOL_VERSION) + seq![133u8, 0u8] + le64(request_id) + le64(
                revision,
            ) + le64(generation) + seq![1u8] + le32(config_bytes.len() as u32) + config_bytes;
            &&& config_bytes.len() <= MAX_CONFIG_BYTES ==> spec_encode_response(e) == Ok::<
                Seq<u8>,
                ProtocolError,
            >(bytes)
            &&& config_bytes.len() <= MAX_CONFIG_BYTES && request_id != 0 ==> spec_decode_response(
                bytes,
                request_id,
            ) == Ok::<Envelope<ResponseView>, ProtocolError>(e)
            &&& config_bytes.len() > MAX_CONFIG_BYTES ==> spec_encode_response(e) == Err::<
                Seq<u8>,
                ProtocolError,
            >(
                ProtocolError::FrameTooLarge(
                    if config_bytes.len() <= u32::MAX {
                        config_bytes.len() as u32
                    } else {
                        u32::MAX
                    },
                ),
            )
        }),
{
    let e = Envelope {
        protocol_version: PROTOCOL_VERSION,
        request_id,
        message: ResponseView::Config { revision, generation, config_bytes: Some(config_bytes) },
    };
    lemma_le_bytes();
    if config_bytes.len() <= MAX_CONFIG_BYTES {
        let payload = response_payload(e.message);
        assert(frame_body(PROTOCOL_VERSION, 133, request_id, payload) =~= le16(PROTOCOL_VERSION)
            + seq![133u8, 0u8] + le64(request_id) + le64(revision) + le64(generation) + seq![1u8]
            + le32(config_bytes.len() as u32) + config_bytes);
        if request_id != 0 {
            lemma_response_roundtrip(e);
        }
    }
}

} // verus!

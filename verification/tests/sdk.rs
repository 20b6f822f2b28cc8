//! Frames, and the requests that they hold.

use bytes::{BufMut, Bytes, BytesMut};
use vasal::json::{parse_text, Json};
use vasal::protocol::error::{
    ProtocolError, INVALID_PARAMS, INVALID_REQUEST, METHOD_NOT_FOUND, PARSE_ERROR,
};
use vasal::protocol::jsonrpc::{Request, RequestId, Response};
use vasal::protocol::sidecar::{
    CancelResponse, HealthResponse, HealthStatus, StatusResponse, SubmitResponse,
};
use vasal::sdk::codec::{CodecError, LengthPrefixCodec, HEADER_LEN, MAX_MESSAGE_SIZE};
use vasal::sdk::fit::response_bytes;
use vasal::sdk::handler::SidecarHandler;
use vasal::sdk::server::{refuse, refuse_frame, SidecarServer};
use vasal::sidecars::echo_ctrl::EchoHandler;
use vasal::wire::{decode_bytes, encode_bytes, Form, Wire};

#[test]
fn encode_decode_roundtrip() {
    let mut codec = LengthPrefixCodec::new();
    let payload = Bytes::from(r#"{"jsonrpc":"2.0","method":"health","id":1}"#);

    let mut buf = BytesMut::new();
    codec.encode(payload.clone(), &mut buf).unwrap();

    let expected_len = payload.len() as u32;
    assert_eq!(&buf[..HEADER_LEN], &expected_len.to_be_bytes());

    let decoded = codec.decode(&mut buf).unwrap().expect("complete frame");
    assert_eq!(&decoded[..], &payload[..]);
}

#[test]
fn decode_partial_header() {
    let mut codec = LengthPrefixCodec::new();
    let mut buf = BytesMut::from(&[0u8, 0][..]);
    assert!(codec.decode(&mut buf).unwrap().is_none());
}

#[test]
fn decode_partial_payload() {
    let mut codec = LengthPrefixCodec::new();
    let mut buf = BytesMut::new();
    buf.put_u32(100);
    buf.extend_from_slice(&[0u8; 10]);
    assert!(codec.decode(&mut buf).unwrap().is_none());
}

#[test]
fn decode_rejects_oversized_frame() {
    let mut codec = LengthPrefixCodec::with_max_size(64);
    let mut buf = BytesMut::new();
    buf.put_u32(128);
    buf.extend_from_slice(&[0u8; 128]);
    let err = codec.decode(&mut buf).unwrap_err();
    assert!(matches!(err, CodecError::InvalidData(_)));
    assert!(err.message().contains("128"));
    assert!(err.message().contains("64"));
}

#[test]
fn encode_rejects_oversized_payload() {
    let mut codec = LengthPrefixCodec::with_max_size(16);
    let data = Bytes::from(vec![0u8; 32]);
    let mut buf = BytesMut::new();
    let err = codec.encode(data, &mut buf).unwrap_err();
    assert!(matches!(err, CodecError::InvalidData(_)));
    assert!(buf.is_empty());
}

#[test]
fn multiple_frames_in_buffer() {
    let mut codec = LengthPrefixCodec::new();
    let mut buf = BytesMut::new();

    let msg_a = Bytes::from("aaa");
    let msg_b = Bytes::from("bbbbb");

    codec.encode(msg_a.clone(), &mut buf).unwrap();
    codec.encode(msg_b.clone(), &mut buf).unwrap();

    let decoded_a = codec.decode(&mut buf).unwrap().unwrap();
    assert_eq!(&decoded_a[..], &msg_a[..]);

    let decoded_b = codec.decode(&mut buf).unwrap().unwrap();
    assert_eq!(&decoded_b[..], &msg_b[..]);

    assert!(codec.decode(&mut buf).unwrap().is_none());
}

#[test]
fn empty_payload() {
    let mut codec = LengthPrefixCodec::new();
    let mut buf = BytesMut::new();

    codec.encode(Bytes::new(), &mut buf).unwrap();
    let decoded = codec.decode(&mut buf).unwrap().unwrap();
    assert!(decoded.is_empty());
}

#[test]
fn the_limit_itself_fits() {
    assert_eq!(MAX_MESSAGE_SIZE, 4 * 1024 * 1024);
    let mut codec = LengthPrefixCodec::with_max_size(3);
    let mut buf = BytesMut::new();
    codec.encode(Bytes::from("abc"), &mut buf).unwrap();
    assert_eq!(&buf[..], &[0, 0, 0, 3, b'a', b'b', b'c']);
    buf.extend_from_slice(b"later");
    assert_eq!(&codec.decode(&mut buf).unwrap().unwrap()[..], b"abc");
    assert_eq!(&buf[..], b"later");
    let mut sent = BytesMut::new();
    assert!(codec.encode(Bytes::from("abcd"), &mut sent).is_err());
    assert!(sent.is_empty());
    let mut received = BytesMut::from(&[0u8, 0, 0, 4][..]);
    assert!(codec.decode(&mut received).is_err());
    let mut none = LengthPrefixCodec::with_max_size(0);
    none.encode(Bytes::new(), &mut sent).unwrap();
    assert_eq!(&none.decode(&mut sent).unwrap().unwrap()[..], b"");
}

struct TestHandler;

impl SidecarHandler for TestHandler {
    fn name(&self) -> &str {
        "test-handler"
    }

    fn health(&self) -> HealthResponse {
        HealthResponse {
            status: HealthStatus::Healthy,
            version: Some("0.0.1".into()),
            error: None,
            metadata: None,
        }
    }

    fn submit(&self, params: Json) -> Result<SubmitResponse, ProtocolError> {
        Ok(SubmitResponse::Completed {
            stdout: params.to_text_pretty(),
            stderr: String::new(),
            truncated: false,
        })
    }
}

/// A sidecar that takes tasks on and is polled.
struct SlowHandler;

impl SidecarHandler for SlowHandler {
    fn name(&self) -> &str {
        "slow-handler"
    }

    fn health(&self) -> HealthResponse {
        HealthResponse {
            status: HealthStatus::Degraded,
            version: None,
            error: Some("slow".into()),
            metadata: None,
        }
    }

    fn submit(&self, _params: Json) -> Result<SubmitResponse, ProtocolError> {
        Ok(SubmitResponse::Accepted { task_id: "t".into() })
    }

    fn status(&self, task_id: &str) -> Result<StatusResponse, ProtocolError> {
        if task_id == "t" {
            Ok(StatusResponse::Running)
        } else {
            Err(ProtocolError::task_not_found(task_id))
        }
    }

    fn cancel(&self, _task_id: &str) -> Result<CancelResponse, ProtocolError> {
        Ok(CancelResponse { cancelled: true })
    }
}

fn object(members: &[(&str, Json)]) -> Json {
    Json::Object(members.iter().map(|(k, v)| (k.to_string(), v.clone())).collect())
}

/// Sends the request through frames in both directions.
fn serve<H: SidecarHandler>(handler: H, payload: Vec<u8>) -> Response {
    let server = SidecarServer::new(handler, "/run/test.sock");
    assert_eq!(server.socket_path(), "/run/test.sock");
    let mut codec = LengthPrefixCodec::default();
    let mut wire = BytesMut::new();
    codec.encode(Bytes::from(payload), &mut wire).unwrap();
    let frame = codec.decode(&mut wire).unwrap().unwrap();
    let answer = server.handle(&frame);
    codec.encode(Bytes::from(encode_bytes(&answer)), &mut wire).unwrap();
    let frame = codec.decode(&mut wire).unwrap().unwrap();
    decode_bytes::<Response>(&frame, "response").unwrap()
}

fn roundtrip(request: &Request) -> Response {
    serve(TestHandler, encode_bytes(request))
}

#[test]
fn health_request() {
    let req = Request::new("health", None, 1i64.into());
    let resp = roundtrip(&req);
    assert!(resp.is_success());

    let result = HealthResponse::from_json(&resp.result.unwrap(), "result", Form::Plain).unwrap();
    assert_eq!(result.status, HealthStatus::Healthy);
    assert_eq!(result.version.as_deref(), Some("0.0.1"));
}

#[test]
fn submit_echoes_params() {
    let params = object(&[("greeting", Json::text("hello"))]);
    let req = Request::new("submit", Some(params.clone()), 2i64.into());
    let resp = roundtrip(&req);
    assert!(resp.is_success());

    match SubmitResponse::from_json(&resp.result.unwrap(), "result", Form::Plain).unwrap() {
        SubmitResponse::Completed { stdout, .. } => {
            assert_eq!(parse_text(&stdout).unwrap(), params);
        }
        other => panic!("expected Completed, got {other:?}"),
    }
}

#[test]
fn unknown_method_returns_error() {
    let req = Request::new("frobnicate", None, 3i64.into());
    let resp = roundtrip(&req);
    assert!(!resp.is_success());
    let err = resp.error.unwrap();
    assert_eq!(err.code, METHOD_NOT_FOUND);
    assert_eq!(err.message, "method not found: frobnicate");
}

#[test]
fn status_on_sync_sidecar_returns_method_not_found() {
    let req = Request::new("status", Some(object(&[("task_id", Json::text("abc"))])), 4i64.into());
    let resp = roundtrip(&req);
    assert!(!resp.is_success());
    assert_eq!(resp.error.unwrap().code, METHOD_NOT_FOUND);
}

#[test]
fn malformed_json_returns_parse_error() {
    let resp = serve(TestHandler, b"this is not json".to_vec());
    assert!(!resp.is_success());
    assert_eq!(resp.error.unwrap().code, PARSE_ERROR);
}

#[test]
fn invalid_jsonrpc_version() {
    let req = Request {
        jsonrpc: "1.0".into(),
        method: "health".into(),
        params: None,
        id: RequestId::Integer(5),
    };
    let resp = roundtrip(&req);
    assert!(!resp.is_success());
    assert_eq!(resp.id, RequestId::Integer(5));
    let err = resp.error.unwrap();
    assert_eq!(err.code, INVALID_REQUEST);
    assert_eq!(err.message, "expected jsonrpc \"2.0\", got \"1.0\"");
}

#[test]
fn missing_fields_return_invalid_request() {
    let resp = serve(TestHandler, br#"{"jsonrpc":"2.0","id":1}"#.to_vec());
    assert_eq!(resp.id, RequestId::Integer(0));
    let err = resp.error.unwrap();
    assert_eq!(err.code, INVALID_REQUEST);
    assert_eq!(err.message, "missing field `method`");
}

#[test]
fn oversized_frames_are_invalid_requests() {
    let e = CodecError::InvalidData("frame too large".into());
    let resp = refuse_frame(&e);
    let err = resp.error.unwrap();
    assert_eq!(err.code, INVALID_REQUEST);
    assert_eq!(err.message, "frame too large");
}

#[test]
fn status_without_task_is_invalid_params() {
    let req = Request::new("status", None, 6i64.into());
    let resp = serve(SlowHandler, encode_bytes(&req));
    assert_eq!(resp.error.unwrap().code, INVALID_PARAMS);
    let words = |params: &str| {
        let params = parse_text(params).unwrap();
        let req = Request::new("cancel", Some(params), 6i64.into());
        serve(SlowHandler, encode_bytes(&req)).error.unwrap().message
    };
    assert_eq!(words("7"), "invalid type: integer `7`, expected struct TaskIdParam");
    assert_eq!(words("{}"), "missing field `task_id`");
    assert_eq!(words(r#"{"task_id": null}"#), "invalid type: null, expected a string");
    assert_eq!(words("[]"), "invalid length 0, expected struct TaskIdParam with 1 element");
    assert_eq!(words("[[]]"), "invalid type: sequence, expected a string");
    assert_eq!(words(r#"["a", 1]"#), "invalid length 2, expected fewer elements in array");
}

#[test]
fn polled_sidecar_answers_for_itself() {
    let ask = |method: &str, task: &str| {
        let params = object(&[("task_id", Json::text(task))]);
        serve(SlowHandler, encode_bytes(&Request::new(method, Some(params), RequestId::from_text("id"))))
    };
    let running = ask("status", "t");
    assert_eq!(running.id, RequestId::String("id".into()));
    let running = StatusResponse::from_json(&running.result.unwrap(), "result", Form::Plain).unwrap();
    assert_eq!(running, StatusResponse::Running);
    let unknown = ask("status", "u").error.unwrap();
    assert_eq!(unknown.code, -32001);
    let cancelled = CancelResponse::from_json(&ask("cancel", "t").result.unwrap(), "result", Form::Plain);
    assert_eq!(cancelled, Ok(CancelResponse { cancelled: true }));
    let health = serve(SlowHandler, encode_bytes(&Request::new("health", None, 1i64.into())));
    let health = HealthResponse::from_json(&health.result.unwrap(), "result", Form::Plain).unwrap();
    assert_eq!(health.status, HealthStatus::Degraded);
    assert_eq!(SlowHandler.name(), "slow-handler");
}

#[test]
fn echo_answers_with_its_parameters() {
    let echo = EchoHandler::new("9.9");
    assert_eq!(echo.name(), "echo-ctrl");
    assert_eq!(echo.health().version.as_deref(), Some("9.9"));
    let params = object(&[("n", Json::unsigned(1))]);
    match echo.submit(params).unwrap() {
        SubmitResponse::Completed { stdout, stderr, truncated } => {
            assert_eq!(stdout, "{\n  \"n\": 1\n}");
            assert_eq!(stderr, "");
            assert!(!truncated);
        }
        other => panic!("{other:?}"),
    }
}

fn answer(stdout: String, stderr: String) -> Response {
    let done = SubmitResponse::Completed { stdout, stderr, truncated: false };
    Response::success(RequestId::Integer(4), done.to_json())
}

fn sent(response: Response) -> (usize, Response) {
    let bytes = response_bytes(response);
    (bytes.len(), decode_bytes::<Response>(&bytes, "response").unwrap())
}

#[test]
fn output_that_fits_is_sent_as_it_is() {
    let whole = answer("a".repeat(1_000_000), "oops".into());
    let bytes = encode_bytes(&whole);
    assert!(bytes.len() <= MAX_MESSAGE_SIZE);
    assert!(response_bytes(whole) == bytes);
}

#[test]
fn output_over_the_limit_is_cut_and_marked() {
    for (text, kept) in [
        ("a".repeat(5_000_000), 2_500_000),
        ("\u{1}".repeat(2_000_000), 500_000),
    ] {
        let (len, got) = sent(answer(text.clone(), "oops".into()));
        assert!(len <= MAX_MESSAGE_SIZE);
        assert_eq!(got.id, RequestId::Integer(4));
        match SubmitResponse::from_json(&got.result.unwrap(), "result", Form::Plain).unwrap() {
            SubmitResponse::Completed { stdout, stderr, truncated } => {
                assert!(truncated);
                assert_eq!(stderr, "oops");
                assert_eq!(stdout, text[..kept]);
            }
            other => panic!("{other:?}"),
        }
    }
}

#[test]
fn a_response_without_output_is_sent_as_it_is() {
    let e = ProtocolError::new(-1, &"x".repeat(MAX_MESSAGE_SIZE));
    let (len, got) = sent(refuse(RequestId::Integer(1), e));
    assert!(len > MAX_MESSAGE_SIZE);
    assert_eq!(got.error.unwrap().message.len(), MAX_MESSAGE_SIZE);
}

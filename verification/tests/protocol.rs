use apx::asgi::event::AsgiEvent;
use apx::asgi::receive::WsIncomingEvent;
use apx::protocol::http::error::{find_in_error_chain, AppError};
use apx::protocol::http::service::{
    build_request_span, ensure_request_id, error_response, handle, handle_http,
    inbound_from_hyper, outbound_to_hyper, parse_request_id_as_trace_id, parse_tracestate_header,
    probe_response, request_id, request_span, set_request_id, trace_state_pairs, DispatchOutcome,
    Admission, AdmissionEvent, RequestHead, Route, ServiceConfig,
};
use apx::protocol::ws::session::{
    dispatch_ws, extract_request_info, forward_all_incoming, forward_all_outgoing, forward_incoming,
    forward_outgoing, handle_upgrade_error,
    is_websocket_upgrade, submit_error, ws_session, Frame, Incoming, IncomingStep, OutgoingStep,
    SessionAction, SessionPhase, SubmitStage, WS_CLOSE_NORMAL,
};
use apx::transport::{protocol_of, Addr, HttpVersion, OutboundResponse, ProtocolVersion, ResponseBody};
use hyper::header::{HeaderMap, HeaderName, HeaderValue};

fn headers(lines: &[(&str, &str)]) -> HeaderMap<HeaderValue> {
    let mut map = HeaderMap::new();
    for (name, value) in lines {
        map.append(
            HeaderName::from_bytes(name.as_bytes()).unwrap(),
            HeaderValue::from_str(value).unwrap(),
        );
    }
    map
}

fn addr(ip: &str, port: u16) -> Addr {
    Addr { ip: ip.to_owned(), port }
}

fn head(path: &str, query: Option<&str>, headers: HeaderMap<HeaderValue>) -> RequestHead {
    RequestHead {
        method: "GET".to_owned(),
        path: path.to_owned(),
        query: query.map(|q| q.to_owned()),
        headers,
        version: HttpVersion::Http11,
        has_body: true,
    }
}

fn fixed(body: &ResponseBody) -> &[u8] {
    match body {
        ResponseBody::Fixed(b) => b,
        ResponseBody::Stream => panic!("expected Fixed body"),
    }
}

// Errors

#[test]
fn find_in_error_chain_not_found() {
    let chain: [Option<u8>; 0] = [];
    assert!(find_in_error_chain(&chain).is_none());
}

#[test]
fn find_in_error_chain_positive() {
    assert_eq!(find_in_error_chain(&[Some(7)]), Some(&7));
}

#[test]
fn find_in_error_chain_depth_two() {
    assert_eq!(find_in_error_chain(&[None, Some(7)]), Some(&7));
}

#[test]
fn error_chains_are_followed_so_far_only() {
    let mut chain: Vec<Option<u8>> = vec![None; 30];
    chain[25] = Some(1);
    assert!(find_in_error_chain(&chain).is_none());
}

#[test]
fn app_error_internal_does_not_leak() {
    let err = AppError::Internal("secret db password: hunter2".to_owned());
    assert_eq!(err.status_code(), 500);
}

#[test]
fn app_error_status_codes() {
    assert_eq!(AppError::Internal("x".to_owned()).status_code(), 500);
    assert_eq!(AppError::Timeout.status_code(), 408);
}

// Probes and plain responses

#[test]
fn probe_healthz_returns_200_with_json() {
    let resp = probe_response("/healthz").unwrap();
    assert_eq!(resp.status, 200);
    assert_eq!(resp.headers.get("content-type").unwrap(), "application/json");
    assert_eq!(fixed(&resp.body), b"{\"status\":\"alive\"}");
}

#[test]
fn probe_readyz_returns_200_with_json() {
    let resp = probe_response("/readyz").unwrap();
    assert_eq!(resp.status, 200);
    assert_eq!(resp.headers.get("content-type").unwrap(), "application/json");
    assert_eq!(fixed(&resp.body), b"{\"status\":\"ready\"}");
}

#[test]
fn probe_unknown_path_returns_none() {
    assert!(probe_response("/api/users").is_none());
    assert!(probe_response("/").is_none());
    assert!(probe_response("/health").is_none());
}

#[test]
fn service_config_default_values() {
    let config = ServiceConfig::default();
    assert_eq!(config.timeout_secs, 30);
    assert_eq!(config.max_concurrent, 256);
}

#[test]
fn error_response_503_service_unavailable() {
    let resp = error_response(503, "overloaded");
    assert_eq!(resp.status, 503);
    assert_eq!(resp.headers.get("content-type").unwrap(), "text/plain");
    assert_eq!(fixed(&resp.body), b"overloaded");
}

#[test]
fn error_response_408_request_timeout() {
    let resp = error_response(408, "timeout");
    assert_eq!(resp.status, 408);
    assert_eq!(fixed(&resp.body), b"timeout");
}

#[test]
fn outbound_to_hyper_preserves_status_and_headers() {
    let outbound = OutboundResponse {
        status: 201,
        headers: headers(&[("x-custom", "value"), ("content-type", "application/json")]),
        body: ResponseBody::Fixed(b"{}".to_vec()),
        server_route: None,
    };
    let resp = outbound_to_hyper(outbound);
    assert_eq!(resp.status, 201);
    assert_eq!(resp.headers.get("x-custom").unwrap(), "value");
    assert_eq!(resp.headers.get("content-type").unwrap(), "application/json");
}

#[test]
fn requests_are_routed() {
    let ws = headers(&[("connection", "upgrade"), ("upgrade", "websocket")]);
    assert!(matches!(handle("/healthz", &ws), Route::Probe(_)));
    assert!(matches!(handle("/ws", &ws), Route::WebSocket));
    assert!(matches!(handle("/ws", &HeaderMap::new()), Route::Http));
}

#[test]
fn outcomes_of_requests() {
    let busy = handle_http(DispatchOutcome::NoPermit, "/a");
    assert_eq!(busy.response.status, 503);
    assert!(!busy.keeps_permit);
    let late = handle_http(DispatchOutcome::TimedOut, "/a");
    assert_eq!(late.response.status, 408);
    let answered = handle_http(
        DispatchOutcome::Answered(OutboundResponse {
            status: 404,
            headers: HeaderMap::new(),
            body: ResponseBody::Stream,
            server_route: Some("/a/{id}".to_owned()),
        }),
        "/a/1",
    );
    assert_eq!(answered.response.status, 404);
    assert!(answered.keeps_permit);
    assert_eq!(answered.route, "/a/{id}");
    assert_eq!(answered.error_type.as_deref(), Some("404"));
}

#[test]
fn permit_of_a_fixed_response_is_not_kept() {
    let done = handle_http(
        DispatchOutcome::Answered(OutboundResponse {
            status: 200,
            headers: HeaderMap::new(),
            body: ResponseBody::Fixed(b"ok".to_vec()),
            server_route: None,
        }),
        "/plain",
    );
    assert!(!done.keeps_permit);
    assert_eq!(done.route, "/plain");
    assert!(done.error_type.is_none());
}

#[test]
fn requests_in_flight_are_limited() {
    let config = ServiceConfig { timeout_secs: 0, max_concurrent: 2 };
    assert_eq!(config.time_limit(), None);
    assert_eq!(ServiceConfig::default().time_limit(), Some(30));
    let mut admission = Admission::new(&config);
    assert!(admission.step(AdmissionEvent::Arrived));
    assert!(admission.step(AdmissionEvent::Arrived));
    assert!(!admission.step(AdmissionEvent::Arrived));
    admission.step(AdmissionEvent::Settled(true));
    assert!(!admission.step(AdmissionEvent::Arrived));
    admission.step(AdmissionEvent::StreamEnded);
    assert!(admission.step(AdmissionEvent::Arrived));
    admission.step(AdmissionEvent::Settled(false));
    assert_eq!(admission.taken, 1);
}

// Request ids

#[test]
fn request_ids_are_given_once() {
    let mut map = HeaderMap::new();
    ensure_request_id(&mut map).unwrap();
    let first = request_id(&map).unwrap();
    assert_eq!(first.len(), 36);
    ensure_request_id(&mut map).unwrap();
    assert_eq!(request_id(&map).unwrap(), first);
    let mut other = headers(&[("x-request-id", "mine")]);
    ensure_request_id(&mut other).unwrap();
    assert_eq!(request_id(&other).unwrap(), "mine");
    let mut plain = HeaderMap::new();
    set_request_id(&mut plain, "abc").unwrap();
    assert_eq!(plain.get("x-request-id").unwrap(), "abc");
}

#[test]
fn two_requests_get_two_ids() {
    let mut a = HeaderMap::new();
    let mut b = HeaderMap::new();
    ensure_request_id(&mut a).unwrap();
    ensure_request_id(&mut b).unwrap();
    assert_ne!(request_id(&a), request_id(&b));
}

#[test]
fn request_id_as_trace_id() {
    let map = headers(&[("x-request-id", "01020304-0506-0708-090a-0b0c0d0e0f10")]);
    assert_eq!(
        parse_request_id_as_trace_id(&map),
        Some([1, 2, 3, 4, 5, 6, 7, 8, 9, 10, 11, 12, 13, 14, 15, 16])
    );
    assert_eq!(parse_request_id_as_trace_id(&headers(&[("x-request-id", "no uuid")])), None);
    assert_eq!(parse_request_id_as_trace_id(&HeaderMap::new()), None);
}

#[test]
fn trace_state() {
    assert_eq!(
        trace_state_pairs("a=1, b=2,broken,c=x=y"),
        vec![
            ("a".to_owned(), "1".to_owned()),
            ("b".to_owned(), "2".to_owned()),
            ("c".to_owned(), "x=y".to_owned()),
        ]
    );
    let map = headers(&[("tracestate", "vendor=value")]);
    assert_eq!(
        parse_tracestate_header(&map),
        vec![("vendor".to_owned(), "value".to_owned())]
    );
    assert!(parse_tracestate_header(&headers(&[("tracestate", "UPPER=value")])).is_empty());
    let accepted = |raw: &str| !parse_tracestate_header(&headers(&[("tracestate", raw)])).is_empty();
    assert!(accepted("0_-*/=v"));
    assert!(accepted("tenant@system=v"));
    assert!(accepted("t@abcdefghijklm=v"));
    assert!(!accepted("t@abcdefghijklmn=v"));
    assert!(!accepted("t@@s=v"));
    assert!(!accepted("t@_s=v"));
    assert!(!accepted("_t=v"));
    assert!(!accepted("a=1=2"));
    assert!(accepted(&format!("a={}", "v".repeat(256))));
    assert!(!accepted(&format!("a={}", "v".repeat(257))));
    assert!(accepted(&format!("{}=v", "k".repeat(256))));
    assert!(!accepted(&format!("{}=v", "k".repeat(257))));
    assert!(parse_tracestate_header(&HeaderMap::new()).is_empty());
}

#[test]
fn spans_describe_requests() {
    let map = headers(&[("x-request-id", "abc")]);
    let span = build_request_span(&map, "GET", "http", "/x");
    assert_eq!(span.request_id, "abc");
    assert_eq!(span.method, "GET");
    assert!(span.trace_id.is_none());
    let span = request_span("PUT", "http", "/y", None, Some([1; 16]), Vec::new());
    assert_eq!(span.request_id, "");
    assert_eq!(span.trace_id, Some([1; 16]));
}

#[test]
fn inbound_requests() {
    let mut h = head("/p", Some("a=1"), HeaderMap::new());
    h.version = HttpVersion::Http2;
    let r = inbound_from_hyper(h, addr("127.0.0.1", 80), None).unwrap();
    assert_eq!(r.protocol, ProtocolVersion::H2);
    assert_eq!(r.query_string, b"a=1");
    assert!(r.has_body);
    assert!(r.headers.contains_key("x-request-id"));
    assert_eq!(protocol_of(HttpVersion::Http10), ProtocolVersion::Http10);
    assert_eq!(protocol_of(HttpVersion::Http3), ProtocolVersion::Http11);
}

// WebSockets

#[test]
fn is_websocket_upgrade_positive() {
    assert!(is_websocket_upgrade(&headers(&[("Connection", "Upgrade"), ("Upgrade", "websocket")])));
}

#[test]
fn is_websocket_upgrade_negative() {
    assert!(!is_websocket_upgrade(&HeaderMap::new()));
}

#[test]
fn is_websocket_upgrade_case_insensitive() {
    assert!(is_websocket_upgrade(&headers(&[("Connection", "upgrade"), ("Upgrade", "WEBSOCKET")])));
}

#[test]
fn upgrade_headers_are_lists() {
    assert!(is_websocket_upgrade(&headers(&[
        ("connection", "keep-alive, Upgrade"),
        ("upgrade", "h2c ,\twebsocket"),
    ])));
    assert!(is_websocket_upgrade(&headers(&[
        ("connection", "keep-alive"),
        ("connection", "upgrade"),
        ("upgrade", "websocket"),
    ])));
    assert!(!is_websocket_upgrade(&headers(&[
        ("connection", "upgraded"),
        ("upgrade", "websocket"),
    ])));
    assert!(!is_websocket_upgrade(&headers(&[("connection", "upgrade"), ("upgrade", "h2c")])));
}

#[test]
fn extract_request_info_preserves_fields() {
    let server = addr("127.0.0.1", 8080);
    let client = addr("10.0.0.1", 54321);
    let inbound = extract_request_info(
        head(
            "/ws/chat",
            Some("token=abc"),
            headers(&[("Host", "localhost"), ("Connection", "Upgrade"), ("Upgrade", "websocket")]),
        ),
        server,
        Some(client),
    )
    .unwrap();
    assert_eq!(inbound.path, "/ws/chat");
    assert_eq!(inbound.query_string.as_slice(), b"token=abc");
    assert_eq!(inbound.server_addr.ip, "127.0.0.1");
    assert_eq!(inbound.server_addr.port, 8080);
    assert!(matches!(&inbound.client_addr, Some(a) if a.ip == "10.0.0.1" && a.port == 54321));
    assert!(inbound.headers.contains_key("host"));
    assert!(!inbound.has_body);
}

#[test]
fn extract_request_info_no_query() {
    let inbound =
        extract_request_info(head("/ws", None, HeaderMap::new()), addr("127.0.0.1", 8080), None)
            .unwrap();
    assert_eq!(inbound.path, "/ws");
    assert!(inbound.query_string.is_empty());
    assert!(inbound.client_addr.is_none());
}

#[test]
fn extract_request_info_headers() {
    let inbound = extract_request_info(
        head("/ws", None, headers(&[("X-Custom", "test-value"), ("Authorization", "Bearer xyz")])),
        addr("0.0.0.0", 3000),
        None,
    )
    .unwrap();
    assert_eq!(inbound.headers.get("x-custom").unwrap(), "test-value");
    assert_eq!(inbound.headers.get("authorization").unwrap(), "Bearer xyz");
}

#[test]
fn forward_incoming_text_message() {
    match forward_incoming(Incoming::Frame(Frame::Text("hello".to_owned()))) {
        IncomingStep::Forward(WsIncomingEvent::Receive { text, bytes }) => {
            assert_eq!(text.as_deref(), Some("hello"));
            assert!(bytes.is_none());
        }
        _ => panic!("expected Receive"),
    }
}

#[test]
fn forward_incoming_binary_message() {
    match forward_incoming(Incoming::Frame(Frame::Binary(vec![1u8, 2, 3]))) {
        IncomingStep::Forward(WsIncomingEvent::Receive { text, bytes }) => {
            assert!(text.is_none());
            assert_eq!(bytes.as_deref(), Some(&[1u8, 2, 3][..]));
        }
        _ => panic!("expected Receive"),
    }
}

#[test]
fn forward_incoming_close_frame() {
    match forward_incoming(Incoming::Frame(Frame::Close(Some(1000)))) {
        IncomingStep::Finish(WsIncomingEvent::Disconnect { code }) => assert_eq!(code, 1000),
        _ => panic!("expected Disconnect"),
    }
    match forward_incoming(Incoming::Frame(Frame::Close(Some(1001)))) {
        IncomingStep::Finish(WsIncomingEvent::Disconnect { code }) => assert_eq!(code, 1001),
        _ => panic!("expected Disconnect"),
    }
}

#[test]
fn forward_incoming_stream_end() {
    match forward_incoming(Incoming::Ended) {
        IncomingStep::Finish(WsIncomingEvent::Disconnect { code }) => {
            assert_eq!(code, WS_CLOSE_NORMAL);
        }
        _ => panic!("expected Disconnect"),
    }
    assert!(matches!(forward_incoming(Incoming::Frame(Frame::Control)), IncomingStep::Skip));
    assert!(matches!(
        forward_incoming(Incoming::Failed),
        IncomingStep::Finish(WsIncomingEvent::Disconnect { code: 1000 })
    ));
}

fn accept() -> AsgiEvent {
    AsgiEvent::WsAccept { subprotocol: None, headers: Vec::new() }
}

#[test]
fn forward_outgoing_accept_then_send() {
    let mut accepted = false;
    assert!(matches!(forward_outgoing(&mut accepted, accept()), OutgoingStep::Skip));
    let step = forward_outgoing(
        &mut accepted,
        AsgiEvent::WsSend { text: Some("world".to_owned()), bytes: None },
    );
    assert!(matches!(step, OutgoingStep::SendText(t) if t == "world"));
    let step = forward_outgoing(&mut accepted, AsgiEvent::WsClose { code: 1000 });
    assert!(matches!(step, OutgoingStep::SendClose(1000)));
}

#[test]
fn forward_outgoing_close() {
    let mut accepted = false;
    forward_outgoing(&mut accepted, accept());
    let step = forward_outgoing(&mut accepted, AsgiEvent::WsClose { code: 1001 });
    assert!(matches!(step, OutgoingStep::SendClose(1001)));
}

fn message(text: &str) -> AsgiEvent {
    AsgiEvent::WsSend { text: Some(text.to_owned()), bytes: None }
}

#[test]
fn one_disconnect_ends_a_connection() {
    let told = forward_all_incoming(vec![
        Incoming::Frame(Frame::Text("a".to_owned())),
        Incoming::Frame(Frame::Control),
        Incoming::Frame(Frame::Close(Some(1001))),
        Incoming::Frame(Frame::Text("late".to_owned())),
        Incoming::Failed,
    ]);
    assert_eq!(told.len(), 2);
    assert!(matches!(&told[0], WsIncomingEvent::Receive { text: Some(t), .. } if t == "a"));
    assert!(matches!(told[1], WsIncomingEvent::Disconnect { code: 1001 }));
    let told = forward_all_incoming(vec![Incoming::Frame(Frame::Binary(vec![1]))]);
    assert_eq!(told.len(), 2);
    assert!(matches!(told[1], WsIncomingEvent::Disconnect { code: 1000 }));
    assert_eq!(forward_all_incoming(Vec::new()).len(), 1);
}

#[test]
fn nothing_follows_a_close_frame() {
    let sent = forward_all_outgoing(vec![
        message("early"),
        accept(),
        message("a"),
        AsgiEvent::WsSend { text: None, bytes: None },
        AsgiEvent::WsClose { code: 1001 },
        message("late"),
        AsgiEvent::WsClose { code: 1002 },
    ]);
    assert_eq!(sent.len(), 2);
    assert!(matches!(&sent[0], OutgoingStep::SendText(t) if t == "a"));
    assert!(matches!(sent[1], OutgoingStep::SendClose(1001)));
    assert!(forward_all_outgoing(vec![message("early")]).is_empty());
}

#[test]
fn nothing_is_sent_before_accept() {
    let mut accepted = false;
    let step = forward_outgoing(
        &mut accepted,
        AsgiEvent::WsSend { text: Some("early".to_owned()), bytes: None },
    );
    assert!(matches!(step, OutgoingStep::Skip));
    assert!(!accepted);
}

#[test]
fn sessions_run_to_their_end() {
    let (phase, action) = ws_session(SessionPhase::Upgrading, true);
    assert_eq!(action, SessionAction::SendConnect);
    let (phase, action) = ws_session(phase, true);
    assert_eq!(action, SessionAction::ForwardAndSubmit);
    let (phase, action) = ws_session(phase, true);
    assert_eq!(action, SessionAction::AwaitForwarding);
    let (phase, action) = ws_session(phase, true);
    assert_eq!(action, SessionAction::StopForwarding);
    assert_eq!(phase, SessionPhase::Over);
    assert_eq!(ws_session(SessionPhase::Upgrading, false).1, SessionAction::Return);
    assert_eq!(ws_session(SessionPhase::Submitting, false).1, SessionAction::StopForwarding);
}

#[test]
fn refused_sessions() {
    let resp = dispatch_ws(None);
    assert_eq!(resp.status, 400);
    assert_eq!(fixed(&resp.body), b"websocket not supported");
    let resp = dispatch_ws(Some(handle_upgrade_error("secret")));
    assert_eq!(resp.status, 500);
    assert_eq!(fixed(&resp.body), b"Internal Server Error");
    assert!(matches!(handle_upgrade_error("x"), AppError::Internal(m) if m == "websocket upgrade failed: x"));
    assert!(matches!(
        submit_error(SubmitStage::Submit, "x"),
        AppError::Internal(m) if m == "submit ws to asyncio: x"
    ));
}

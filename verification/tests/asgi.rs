use apx::asgi::app::{format_pyerr, parse_specifier, AppLoadError, BuildStep, Found, ModuleImport};
use apx::asgi::dispatch::{
    dispatch_pipeline, error_response, materialize, pipeline_error, request_slot,
    response_data_to_outbound, slot_to_inbound_request, PipelineFault,
};
use apx::asgi::event::{extract_status, parse_asgi_send_event, parse_header_map, AsgiEvent, EventError};
use apx::asgi::percent::{decode_escapes, hex_val, percent_decode};
use apx::asgi::receive::{
    build_disconnect_event, build_receive_template, build_ws_receive_event, AsgiReceive,
    ReceiveAction, WsIncomingEvent,
};
use apx::asgi::scope::{
    build_ws_scope, scope_from_template, AppObject, MissingRouter, ScopeInterns,
};
use apx::asgi::send::{status_or_500, AsgiSend, Progress, Pushed, SendAction};
use apx::asgi::slot_send::{ResponseData, SlotAction, SlotSend};
use apx::asgi::streaming::{read_all, AsgiBodyStream, Buffered, Chunk, Polled};
use apx::io::channel::{try_recv, QueueStep, Wakeup};
use apx::io::reactor::{first_step, init, shutdown, SetupStep, TeardownStep};
use apx::protocol::http::error::AppError;
use apx::python_value::{get, set_item, PyValue};
use apx::transport::{Addr, InboundRequest, ProtocolVersion, ResponseBody};
use hyper::header::{HeaderMap, HeaderName, HeaderValue};

fn text(s: &str) -> PyValue {
    PyValue::Str(s.to_owned())
}

fn bytes(b: &[u8]) -> PyValue {
    PyValue::Bytes(b.to_vec())
}

fn dict(entries: Vec<(&str, PyValue)>) -> Vec<(String, PyValue)> {
    entries.into_iter().map(|(k, v)| (k.to_owned(), v)).collect()
}

fn text_of(d: &[(String, PyValue)], key: &str) -> String {
    match get(d, key) {
        Some(PyValue::Str(s)) => s.clone(),
        _ => panic!("{key} is no text"),
    }
}

fn bytes_of(d: &[(String, PyValue)], key: &str) -> Vec<u8> {
    match get(d, key) {
        Some(PyValue::Bytes(b)) => b.clone(),
        _ => panic!("{key} is no bytes"),
    }
}

fn int_of(d: &[(String, PyValue)], key: &str) -> i64 {
    match get(d, key) {
        Some(PyValue::Int(n)) => *n,
        _ => panic!("{key} is no number"),
    }
}

fn headers(lines: &[(&str, &str)]) -> HeaderMap<HeaderValue> {
    let mut map = HeaderMap::new();
    for (name, value) in lines {
        map.append(
            HeaderName::from_bytes(name.as_bytes()).unwrap(),
            HeaderValue::from_str(value).unwrap(),
        );
    }
    map
}

fn addr(ip: &str, port: u16) -> Addr {
    Addr { ip: ip.to_owned(), port }
}

fn make_inbound_request(
    method: &str,
    path: &str,
    query: &[u8],
    headers: HeaderMap<HeaderValue>,
    path_params: Vec<(String, String)>,
    client_addr: Option<Addr>,
) -> InboundRequest {
    InboundRequest {
        method: method.to_owned(),
        path: path.to_owned(),
        query_string: query.to_vec(),
        headers,
        protocol: ProtocolVersion::Http11,
        has_body: false,
        client_addr,
        server_addr: addr("127.0.0.1", 8080),
        path_params,
    }
}

fn interns() -> ScopeInterns {
    ScopeInterns::new(addr("127.0.0.1", 8080))
}

// Specifiers

#[test]
fn parse_valid_specifier() {
    let (module, attr) = parse_specifier("myapp.main:app").unwrap();
    assert_eq!(module, "myapp.main");
    assert_eq!(attr, "app");
}

#[test]
fn parse_specifier_plain_module() {
    let (module, attr) = parse_specifier("myapp.main").unwrap();
    assert_eq!(module, "myapp.main");
    assert_eq!(attr, "app");
}

#[test]
fn parse_specifier_single_segment() {
    let (module, attr) = parse_specifier("app").unwrap();
    assert_eq!(module, "app");
    assert_eq!(attr, "app");
}

#[test]
fn parse_specifier_empty_string() {
    assert!(matches!(parse_specifier(""), Err(AppLoadError::InvalidSpecifier { .. })));
}

#[test]
fn parse_specifier_empty_module() {
    assert!(matches!(parse_specifier(":app"), Err(AppLoadError::InvalidSpecifier { .. })));
}

#[test]
fn parse_specifier_empty_attr() {
    assert!(matches!(parse_specifier("myapp:"), Err(AppLoadError::InvalidSpecifier { .. })));
}

// Loading, by what the interpreter found

#[test]
fn load_builtin_callable() {
    let loader = ModuleImport::new("json:dumps", false);
    assert!(loader.load_callable(Found::Callable).is_ok());
}

#[test]
fn load_plain_module_default_attr_fails() {
    let loader = ModuleImport::new("json", false);
    let err = loader.load_callable(Found::NoAttribute).unwrap_err();
    assert!(matches!(err, AppLoadError::MissingAttribute { attr, .. } if attr == "app"));
}

#[test]
fn load_missing_module() {
    let loader = ModuleImport::new("nonexistent_module_xyz:app", false);
    let err = loader.load_callable(Found::NoModule("no such module".to_owned())).unwrap_err();
    assert!(matches!(err, AppLoadError::ImportFailed { .. }));
}

#[test]
fn load_missing_attr() {
    let loader = ModuleImport::new("json:nonexistent_attr_xyz", false);
    let err = loader.load_callable(Found::NoAttribute).unwrap_err();
    assert!(matches!(err, AppLoadError::MissingAttribute { .. }));
}

#[test]
fn load_not_callable() {
    let loader = ModuleImport::new("json:__name__", false);
    let err = loader.load_callable(Found::NotCallable).unwrap_err();
    assert!(matches!(err, AppLoadError::NotCallable { .. }));
}

#[test]
fn error_display_invalid_specifier() {
    let err = AppLoadError::InvalidSpecifier { specifier: "bad".to_owned() };
    let msg = err.message();
    assert!(msg.contains("module:attr"));
    assert!(msg.contains("\"bad\""));
}

#[test]
fn error_display_import_failed() {
    let loader = ModuleImport::new("nonexistent_module_xyz:app", false);
    let err = loader.load_callable(Found::NoModule("No module named x".to_owned())).unwrap_err();
    let msg = err.message();
    assert!(msg.contains("import"));
    assert_eq!(
        msg,
        "failed to import module \"nonexistent_module_xyz\": No module named x"
    );
}

#[test]
fn error_display_missing_attribute() {
    let err = AppLoadError::MissingAttribute { module: "json".to_owned(), attr: "nope".to_owned() };
    let msg = err.message();
    assert!(msg.contains("no attribute"));
}

#[test]
fn error_display_not_callable() {
    let err = AppLoadError::NotCallable { module: "json".to_owned(), attr: "__name__".to_owned() };
    let msg = err.message();
    assert!(msg.contains("not callable"));
}

#[test]
fn build_failures_name_the_step() {
    let loader = ModuleImport::new("m", true);
    let err = loader.build(BuildStep::InstallDispatch, "boom".to_owned());
    assert!(matches!(err, AppLoadError::ImportFailed { module, .. } if module == "install_dispatch"));
}

#[test]
fn format_pyerr_includes_traceback_lines() {
    let lines = vec![
        "Traceback (most recent call last):\n".to_owned(),
        "ValueError: test error\n".to_owned(),
    ];
    let formatted = format_pyerr(Some(lines), "ValueError: test error".to_owned());
    assert!(formatted.contains("ValueError"));
    assert!(formatted.contains("test error"));
    assert_eq!(formatted, "Traceback (most recent call last):\nValueError: test error\n");
}

#[test]
fn format_pyerr_fallback_on_simple_err() {
    let formatted = format_pyerr(None, "RuntimeError: simple error".to_owned());
    assert!(formatted.contains("RuntimeError") || formatted.contains("simple error"));
}

// Error responses

#[test]
fn error_response_internal() {
    let err = AppError::Internal("db connection failed".to_owned());
    let resp = error_response(&err);
    assert_eq!(resp.status, 500);
    match &resp.body {
        ResponseBody::Fixed(b) => assert_eq!(b.as_slice(), b"Internal Server Error"),
        ResponseBody::Stream => panic!("expected Fixed body"),
    }
}

#[test]
fn error_response_timeout() {
    let err = AppError::Timeout;
    let resp = error_response(&err);
    assert_eq!(resp.status, 408);
    match &resp.body {
        ResponseBody::Fixed(b) => assert_eq!(b.as_slice(), b"request timeout"),
        ResponseBody::Stream => panic!("expected Fixed body"),
    }
}

#[test]
fn pipeline_faults_are_internal_errors() {
    for fault in [
        PipelineFault::Body("too large".to_owned()),
        PipelineFault::InboundClosed,
        PipelineFault::ResponseClosed,
    ] {
        let resp = dispatch_pipeline(Err(fault));
        assert_eq!(resp.status, 500);
        assert_eq!(resp.headers.len(), 1);
        assert_eq!(resp.headers.get("content-type").unwrap(), "text/plain");
        assert!(resp.server_route.is_none());
        assert!(matches!(resp.body, ResponseBody::Fixed(b) if b == b"Internal Server Error"));
    }
    assert!(matches!(
        pipeline_error(PipelineFault::Body("x".to_owned())),
        AppError::Internal(m) if m == "body collect: x"
    ));
}

#[test]
fn raw_headers_become_a_response() {
    let data = ResponseData {
        status: 201,
        headers: vec![
            (b"X-A".to_vec(), b"1".to_vec()),
            (b"x-a".to_vec(), b"2".to_vec()),
        ],
        chunks: Vec::new(),
        more: false,
    };
    let resp = response_data_to_outbound(&data).unwrap();
    assert_eq!(resp.status, 201);
    let all: Vec<&[u8]> = resp.headers.get_all("x-a").iter().map(|v| v.as_bytes()).collect();
    assert_eq!(all, vec![b"1".as_slice(), b"2".as_slice()]);
    let bad = ResponseData {
        status: 200,
        headers: vec![(b"bad name".to_vec(), b"1".to_vec())],
        chunks: Vec::new(),
        more: false,
    };
    let err = response_data_to_outbound(&bad).unwrap_err();
    assert!(matches!(err, AppError::Internal(m) if m.starts_with("invalid header name: ")));
    let bad = ResponseData {
        status: 200,
        headers: vec![(b"a".to_vec(), b"1\n".to_vec())],
        chunks: Vec::new(),
        more: false,
    };
    let err = response_data_to_outbound(&bad).unwrap_err();
    assert!(matches!(err, AppError::Internal(m) if m.starts_with("invalid header value: ")));
}

fn response_with(headers: Vec<(Vec<u8>, Vec<u8>)>) -> ResponseData {
    ResponseData { status: 200, headers, chunks: Vec::new(), more: false }
}

#[test]
fn names_fill_a_response_up_and_values_do_not() {
    let cookies: Vec<_> =
        (0..7000).map(|i| (b"set-cookie".to_vec(), format!("c={i}").into_bytes())).collect();
    let resp = response_data_to_outbound(&response_with(cookies)).unwrap();
    assert_eq!(resp.headers.get_all("set-cookie").iter().count(), 7000);
    let many = || -> Vec<_> {
        (0..40000).map(|i| (format!("x-{i}").into_bytes(), b"1".to_vec())).collect()
    };
    let err = response_data_to_outbound(&response_with(many())).unwrap_err();
    assert!(matches!(err, AppError::Internal(m) if m == "too many headers"));
    let resp = dispatch_pipeline(Ok(response_with(many())));
    assert_eq!(resp.status, 500);
    let line = |name: String| PyValue::Tuple(vec![bytes(name.as_bytes()), bytes(b"1")]);
    let start = |lines: Vec<PyValue>| {
        dict(vec![
            ("type", text("http.response.start")),
            ("status", PyValue::Int(200)),
            ("headers", PyValue::List(lines)),
        ])
    };
    let same = start((0..7000).map(|_| line("x-a".to_owned())).collect());
    assert!(parse_asgi_send_event(&same).is_ok());
    let many = start((0..40000).map(|i| line(format!("x-{i}"))).collect());
    assert!(matches!(parse_asgi_send_event(&many), Err(EventError::TooManyHeaders)));
}

#[test]
fn slot_carries_a_request() {
    let req = make_inbound_request(
        "POST",
        "/a%20b",
        b"q=1",
        headers(&[("x-a", "1")]),
        Vec::new(),
        None,
    );
    let slot = request_slot(req, b"{}".to_vec());
    assert_eq!(slot.raw_path, b"/a%20b");
    let (req, body) = slot_to_inbound_request(slot);
    assert_eq!(req.path, "/a%20b");
    assert_eq!(req.headers.get("x-a").unwrap(), "1");
    assert_eq!(body, b"{}");
    assert!(!req.has_body);
}

#[test]
fn slots_are_materialized() {
    let req = make_inbound_request(
        "POST",
        "/a%20b",
        b"",
        headers(&[("x-a", "1")]),
        vec![("room".to_owned(), "main".to_owned())],
        None,
    );
    let slot = request_slot(req, b"{}".to_vec());
    let mut out = materialize(slot, &interns(), true);
    assert_eq!(text_of(&out.scope, "path"), "/a b");
    assert!(matches!(get(&out.scope, "path_params"), Some(PyValue::Dict(d)) if d.is_empty()));
    match out.receive.call() {
        ReceiveAction::Event(e) => assert_eq!(bytes_of(&e, "body"), b"{}"),
        _ => panic!("expected the body"),
    }
    assert!(out.send.dev_mode && out.send.response_open);
}

// Scopes

#[test]
fn asgi_event_debug_response_start() {
    let event =
        AsgiEvent::ResponseStart { status: 200, headers: headers(&[("content-type", "text/plain")]) };
    let dbg = format!("{event:?}");
    assert!(dbg.contains("ResponseStart"));
    assert!(dbg.contains("200"));
}

#[test]
fn asgi_event_debug_response_body() {
    let event = AsgiEvent::ResponseBody { body: b"hello".to_vec(), more_body: false };
    let dbg = format!("{event:?}");
    assert!(dbg.contains("ResponseBody"));
}

#[test]
fn scope_carries_the_application() {
    let req = make_inbound_request("GET", "/", b"", HeaderMap::new(), Vec::new(), None);
    let app = AppObject { app: text("app"), router: Some(text("router")) };
    let scope = scope_from_template(&interns(), &req, Some(app)).unwrap();
    assert_eq!(text_of(&scope, "app"), "app");
    assert_eq!(text_of(&scope, "router"), "router");
    assert_eq!(text_of(&scope, "type"), "http");
    let bare = AppObject { app: text("app"), router: None };
    assert_eq!(scope_from_template(&interns(), &req, Some(bare)).err(), Some(MissingRouter));
    let scope = scope_from_template(&interns(), &req, None).unwrap();
    assert!(get(&scope, "app").is_none() && get(&scope, "router").is_none());
}

#[test]
fn scope_basic_fields() {
    let req = make_inbound_request(
        "GET",
        "/",
        b"",
        HeaderMap::new(),
        Vec::new(),
        Some(addr("10.0.0.1", 5555)),
    );
    let scope = scope_from_template(&interns(), &req, None).unwrap();
    assert_eq!(text_of(&scope, "type"), "http");
    assert_eq!(text_of(&scope, "method"), "GET");
    assert_eq!(text_of(&scope, "path"), "/");
    assert_eq!(text_of(&scope, "scheme"), "http");
    assert_eq!(text_of(&scope, "root_path"), "");
    match get(&scope, "asgi") {
        Some(PyValue::Dict(asgi)) => {
            assert_eq!(text_of(asgi, "version"), "3.0");
            assert_eq!(text_of(asgi, "spec_version"), "2.4");
        }
        _ => panic!("asgi is no dict"),
    }
}

#[test]
fn scope_protocol_versions() {
    for (version, expected) in [
        (ProtocolVersion::Http10, "1.0"),
        (ProtocolVersion::Http11, "1.1"),
        (ProtocolVersion::H2, "2"),
    ] {
        let mut req = make_inbound_request("GET", "/", b"", HeaderMap::new(), Vec::new(), None);
        req.protocol = version;
        let scope = scope_from_template(&interns(), &req, None).unwrap();
        assert_eq!(text_of(&scope, "http_version"), expected);
    }
}

#[test]
fn scope_with_query_string() {
    let req = make_inbound_request(
        "GET",
        "/search",
        b"q=hello&page=1",
        HeaderMap::new(),
        Vec::new(),
        None,
    );
    let scope = scope_from_template(&interns(), &req, None).unwrap();
    assert_eq!(bytes_of(&scope, "query_string"), b"q=hello&page=1");
}

#[test]
fn scope_with_headers() {
    let req = make_inbound_request(
        "POST",
        "/api",
        b"",
        headers(&[("content-type", "application/json"), ("x-custom", "value")]),
        Vec::new(),
        None,
    );
    let scope = scope_from_template(&interns(), &req, None).unwrap();
    match get(&scope, "headers") {
        Some(PyValue::List(list)) => assert_eq!(list.len(), 2),
        _ => panic!("headers is no list"),
    }
}

#[test]
fn scope_with_path_params() {
    let req = make_inbound_request(
        "GET",
        "/items/42",
        b"",
        HeaderMap::new(),
        vec![("item_id".to_owned(), "42".to_owned())],
        None,
    );
    let scope = scope_from_template(&interns(), &req, None).unwrap();
    match get(&scope, "path_params") {
        Some(PyValue::Dict(pp)) => assert_eq!(text_of(pp, "item_id"), "42"),
        _ => panic!("path_params is no dict"),
    }
}

fn host_and_port(scope: &[(String, PyValue)], key: &str) -> (String, i64) {
    match get(scope, key) {
        Some(PyValue::Tuple(pair)) | Some(PyValue::List(pair)) => match (&pair[0], &pair[1]) {
            (PyValue::Str(h), PyValue::Int(p)) => (h.clone(), *p),
            _ => panic!("{key} holds no address"),
        },
        _ => panic!("{key} is no pair"),
    }
}

#[test]
fn scope_with_client_addr() {
    let req = make_inbound_request(
        "GET",
        "/",
        b"",
        HeaderMap::new(),
        Vec::new(),
        Some(addr("192.168.1.100", 12345)),
    );
    let scope = scope_from_template(&interns(), &req, None).unwrap();
    let (host, port) = host_and_port(&scope, "client");
    assert_eq!(host, "192.168.1.100");
    assert_eq!(port, 12345);
}

#[test]
fn scope_no_client() {
    let req = make_inbound_request("GET", "/", b"", HeaderMap::new(), Vec::new(), None);
    let scope = scope_from_template(&interns(), &req, None).unwrap();
    assert!(matches!(get(&scope, "client"), Some(PyValue::Nothing)));
}

#[test]
fn scope_server_addr() {
    let req = make_inbound_request("GET", "/", b"", HeaderMap::new(), Vec::new(), None);
    let scope = scope_from_template(&interns(), &req, None).unwrap();
    let (host, port) = host_and_port(&scope, "server");
    assert_eq!(host, "127.0.0.1");
    assert_eq!(port, 8080);
}

#[test]
fn scope_decodes_the_path() {
    let req = make_inbound_request("GET", "/a%20b", b"", HeaderMap::new(), Vec::new(), None);
    let scope = scope_from_template(&interns(), &req, None).unwrap();
    assert_eq!(text_of(&scope, "path"), "/a b");
    assert_eq!(bytes_of(&scope, "raw_path"), b"/a%20b");
}

#[test]
fn build_ws_scope_basic() {
    let req = make_inbound_request(
        "GET",
        "/ws",
        b"token=abc",
        HeaderMap::new(),
        vec![("room".to_owned(), "main".to_owned())],
        Some(addr("10.0.0.1", 5555)),
    );
    let scope = build_ws_scope(&interns(), &req);
    assert_eq!(text_of(&scope, "type"), "websocket");
    assert_eq!(text_of(&scope, "scheme"), "ws");
    assert_eq!(text_of(&scope, "path"), "/ws");
    assert_eq!(bytes_of(&scope, "query_string"), b"token=abc");
    match get(&scope, "path_params") {
        Some(PyValue::Dict(pp)) => assert_eq!(text_of(pp, "room"), "main"),
        _ => panic!("path_params is no dict"),
    }
    assert!(get(&scope, "method").is_none());
}

#[test]
fn set_item_replaces() {
    let mut d = dict(vec![("a", PyValue::Int(1)), ("b", PyValue::Int(2))]);
    set_item(&mut d, "a", PyValue::Int(3));
    set_item(&mut d, "c", PyValue::Int(4));
    assert_eq!(int_of(&d, "a"), 3);
    assert_eq!(int_of(&d, "b"), 2);
    assert_eq!(int_of(&d, "c"), 4);
    assert_eq!(d.len(), 3);
}

// Percent escapes

#[test]
fn escapes() {
    assert_eq!(hex_val(b'0'), Some(0));
    assert_eq!(hex_val(b'f'), Some(15));
    assert_eq!(hex_val(b'A'), Some(10));
    assert_eq!(hex_val(b'g'), None);
    assert_eq!(decode_escapes(b"%41%zz%4"), b"A%zz%4");
    assert_eq!(percent_decode("/caf%C3%A9"), "/café");
    assert_eq!(percent_decode("/plain"), "/plain");
    assert_eq!(percent_decode("/%ff"), "/%ff");
}

// Events that applications send

#[test]
fn receive_disconnect_event() {
    let d = build_disconnect_event();
    assert_eq!(text_of(&d, "type"), "http.disconnect");
}

#[test]
fn parse_response_start_event() {
    let d = dict(vec![
        ("type", text("http.response.start")),
        ("status", PyValue::Int(200)),
        (
            "headers",
            PyValue::List(vec![PyValue::Tuple(vec![bytes(b"content-type"), bytes(b"text/plain")])]),
        ),
    ]);
    match parse_asgi_send_event(&d).unwrap() {
        AsgiEvent::ResponseStart { status, headers } => {
            assert_eq!(status, 200);
            assert_eq!(headers.len(), 1);
            assert_eq!(headers.get("content-type").unwrap(), "text/plain");
        }
        other => panic!("expected ResponseStart, got {other:?}"),
    }
}

#[test]
fn parse_response_body_event() {
    let d = dict(vec![
        ("type", text("http.response.body")),
        ("body", bytes(b"hello")),
        ("more_body", PyValue::Bool(false)),
    ]);
    match parse_asgi_send_event(&d).unwrap() {
        AsgiEvent::ResponseBody { body, more_body } => {
            assert_eq!(body.as_slice(), b"hello");
            assert!(!more_body);
        }
        other => panic!("expected ResponseBody, got {other:?}"),
    }
}

#[test]
fn send_unknown_event_type() {
    let d = dict(vec![("type", text("http.unknown"))]);
    match parse_asgi_send_event(&d) {
        Err(EventError::Protocol(m)) | Err(EventError::Invalid(m)) => {
            assert!(m.contains("unsupported ASGI event type"));
        }
        other => panic!("expected an error, got {other:?}"),
    }
}

#[test]
fn send_missing_type_key() {
    assert!(parse_asgi_send_event(&[]).is_err());
}

#[test]
fn parse_ws_accept_event() {
    let d = dict(vec![("type", text("websocket.accept")), ("subprotocol", text("graphql-ws"))]);
    match parse_asgi_send_event(&d).unwrap() {
        AsgiEvent::WsAccept { subprotocol, headers } => {
            assert_eq!(subprotocol.as_deref(), Some("graphql-ws"));
            assert!(headers.is_empty());
        }
        other => panic!("expected WsAccept, got {other:?}"),
    }
}

#[test]
fn parse_ws_send_text_event() {
    let d = dict(vec![("type", text("websocket.send")), ("text", text("hello"))]);
    match parse_asgi_send_event(&d).unwrap() {
        AsgiEvent::WsSend { text, bytes } => {
            assert_eq!(text.as_deref(), Some("hello"));
            assert!(bytes.is_none());
        }
        other => panic!("expected WsSend, got {other:?}"),
    }
}

#[test]
fn parse_ws_send_binary_event() {
    let d = dict(vec![("type", text("websocket.send")), ("bytes", bytes(b"\x01\x02\x03"))]);
    match parse_asgi_send_event(&d).unwrap() {
        AsgiEvent::WsSend { text, bytes } => {
            assert!(text.is_none());
            assert_eq!(bytes.as_deref(), Some(b"\x01\x02\x03".as_ref()));
        }
        other => panic!("expected WsSend, got {other:?}"),
    }
}

#[test]
fn parse_ws_close_event() {
    let d = dict(vec![("type", text("websocket.close")), ("code", PyValue::Int(1001))]);
    match parse_asgi_send_event(&d).unwrap() {
        AsgiEvent::WsClose { code } => assert_eq!(code, 1001),
        other => panic!("expected WsClose, got {other:?}"),
    }
}

#[test]
fn parse_ws_close_default_code() {
    let d = dict(vec![("type", text("websocket.close"))]);
    match parse_asgi_send_event(&d).unwrap() {
        AsgiEvent::WsClose { code } => assert_eq!(code, 1000),
        other => panic!("expected WsClose, got {other:?}"),
    }
}

#[test]
fn ws_incoming_event_debug() {
    let connect = WsIncomingEvent::Connect;
    assert!(format!("{connect:?}").contains("Connect"));
    let recv = WsIncomingEvent::Receive { text: Some("hello".to_owned()), bytes: None };
    assert!(format!("{recv:?}").contains("Receive"));
    let disc = WsIncomingEvent::Disconnect { code: 1000 };
    assert!(format!("{disc:?}").contains("Disconnect"));
}

#[test]
fn parse_response_body_missing_body_key() {
    let d = dict(vec![("type", text("http.response.body"))]);
    match parse_asgi_send_event(&d).unwrap() {
        AsgiEvent::ResponseBody { body, more_body } => {
            assert!(body.is_empty());
            assert!(!more_body);
        }
        other => panic!("expected ResponseBody, got {other:?}"),
    }
}

#[test]
fn parse_ws_accept_no_subprotocol() {
    let d = dict(vec![("type", text("websocket.accept"))]);
    match parse_asgi_send_event(&d).unwrap() {
        AsgiEvent::WsAccept { subprotocol, headers } => {
            assert!(subprotocol.is_none());
            assert!(headers.is_empty());
        }
        other => panic!("expected WsAccept, got {other:?}"),
    }
}

#[test]
fn last_header_of_a_name_counts() {
    let d = dict(vec![(
        "headers",
        PyValue::List(vec![
            PyValue::Tuple(vec![bytes(b"x-a"), bytes(b"1")]),
            PyValue::Tuple(vec![bytes(b"x-a"), bytes(b"2")]),
        ]),
    )]);
    let map = parse_header_map(&d).unwrap();
    assert_eq!(map.len(), 1);
    assert_eq!(map.get("x-a").unwrap(), "2");
}

#[test]
fn bad_events_are_refused() {
    assert!(matches!(
        extract_status(&dict(vec![("status", PyValue::Int(70000))])),
        Err(EventError::OutOfRange)
    ));
    assert!(matches!(
        extract_status(&dict(vec![("status", text("200"))])),
        Err(EventError::WrongType)
    ));
    assert!(matches!(extract_status(&[]), Err(EventError::MissingKey(k)) if k == "status"));
    let short = dict(vec![(
        "headers",
        PyValue::List(vec![PyValue::Tuple(vec![bytes(b"x-a")])]),
    )]);
    assert!(matches!(parse_header_map(&short), Err(EventError::NoItem)));
    let lines = |line: PyValue| dict(vec![("headers", PyValue::List(vec![line]))]);
    assert!(matches!(parse_header_map(&lines(bytes(b""))), Err(EventError::NoItem)));
    assert!(matches!(parse_header_map(&lines(text(""))), Err(EventError::NoItem)));
    assert!(matches!(parse_header_map(&lines(bytes(b"ab"))), Err(EventError::WrongType)));
    assert!(matches!(parse_header_map(&lines(text("ab"))), Err(EventError::WrongType)));
    assert!(matches!(
        parse_header_map(&lines(PyValue::Dict(Vec::new()))),
        Err(EventError::MissingKey(key)) if key == "0"
    ));
    let bad = dict(vec![(
        "headers",
        PyValue::List(vec![PyValue::Tuple(vec![bytes(b"x a"), bytes(b"1")])]),
    )]);
    assert!(matches!(parse_header_map(&bad), Err(EventError::Invalid(_))));
}

// Events that applications receive

#[test]
fn build_ws_receive_event_connect() {
    let d = build_ws_receive_event(Some(WsIncomingEvent::Connect));
    assert_eq!(text_of(&d, "type"), "websocket.connect");
}

#[test]
fn build_ws_receive_event_receive_text() {
    let event = WsIncomingEvent::Receive { text: Some("hello".to_owned()), bytes: None };
    let d = build_ws_receive_event(Some(event));
    assert_eq!(text_of(&d, "type"), "websocket.receive");
    assert_eq!(text_of(&d, "text"), "hello");
}

#[test]
fn build_ws_receive_event_receive_bytes() {
    let event = WsIncomingEvent::Receive { text: None, bytes: Some(vec![0x01, 0x02, 0x03]) };
    let d = build_ws_receive_event(Some(event));
    assert_eq!(text_of(&d, "type"), "websocket.receive");
    assert_eq!(bytes_of(&d, "bytes"), vec![0x01, 0x02, 0x03]);
}

#[test]
fn build_ws_receive_event_disconnect_with_code() {
    let d = build_ws_receive_event(Some(WsIncomingEvent::Disconnect { code: 1001 }));
    assert_eq!(text_of(&d, "type"), "websocket.disconnect");
    assert_eq!(int_of(&d, "code"), 1001);
}

#[test]
fn build_ws_receive_event_channel_closed() {
    let d = build_ws_receive_event(None);
    assert_eq!(text_of(&d, "type"), "websocket.disconnect");
    assert_eq!(int_of(&d, "code"), 1000);
}

#[test]
fn receive_delivers_the_body_once() {
    let mut receive = AsgiReceive::http(b"abc".to_vec());
    match receive.call() {
        ReceiveAction::Event(e) => {
            assert_eq!(text_of(&e, "type"), "http.request");
            assert_eq!(bytes_of(&e, "body"), b"abc");
            assert!(matches!(get(&e, "more_body"), Some(PyValue::Bool(false))));
        }
        _ => panic!("expected the body"),
    }
    assert!(matches!(receive.call(), ReceiveAction::AwaitDisconnect));
    assert!(matches!(receive.call(), ReceiveAction::Pend));
    let mut slot = AsgiReceive::slot(Vec::new());
    assert!(matches!(slot.call(), ReceiveAction::Event(_)));
    assert!(matches!(slot.call(), ReceiveAction::Pend));
    assert_eq!(bytes_of(&build_receive_template(), "body"), b"");
}

// The send callables

fn start(status: i64) -> Vec<(String, PyValue)> {
    dict(vec![
        ("type", text("http.response.start")),
        ("status", PyValue::Int(status)),
        ("headers", PyValue::List(Vec::new())),
    ])
}

fn body(chunk: &[u8], more: bool) -> Vec<(String, PyValue)> {
    dict(vec![
        ("type", text("http.response.body")),
        ("body", bytes(chunk)),
        ("more_body", PyValue::Bool(more)),
    ])
}

#[test]
fn asgi_send_http_fixed_response() {
    let mut send = AsgiSend::http();
    let action = send.handle_http(parse_asgi_send_event(&start(200)).unwrap()).unwrap();
    assert!(matches!(action, SendAction::Resolve));
    match send.handle_http(parse_asgi_send_event(&body(b"hello", false)).unwrap()).unwrap() {
        SendAction::Fixed(Some(resp)) => {
            assert_eq!(resp.status, 200);
            match resp.body {
                ResponseBody::Fixed(b) => assert_eq!(b.as_slice(), b"hello"),
                ResponseBody::Stream => panic!("expected Fixed body"),
            }
        }
        _ => panic!("expected a response"),
    }
}

#[test]
fn asgi_send_http_streaming_response() {
    let mut send = AsgiSend::http();
    send.handle_http(parse_asgi_send_event(&start(200)).unwrap()).unwrap();
    match send.handle_http(parse_asgi_send_event(&body(b"chunk1", true)).unwrap()).unwrap() {
        SendAction::Stream(Some(resp), chunk) => {
            assert_eq!(resp.status, 200);
            assert!(matches!(resp.body, ResponseBody::Stream));
            assert_eq!(chunk.as_slice(), b"chunk1");
        }
        _ => panic!("expected a stream"),
    }
    match send.handle_http(parse_asgi_send_event(&body(b"end", false)).unwrap()).unwrap() {
        SendAction::Push(chunk, more) => {
            assert_eq!(chunk.as_slice(), b"end");
            assert!(!more);
        }
        _ => panic!("expected a chunk"),
    }
    assert!(matches!(send.handle_stream_body(Pushed::Sent, false), Ok(Progress::Resolve)));
    assert!(!send.streaming);
}

#[test]
fn send_protocol_errors() {
    let mut send = AsgiSend::http();
    let err = send.handle_http(parse_asgi_send_event(&body(b"x", false)).unwrap());
    assert!(matches!(err, Err(EventError::Protocol(m)) if m.contains("body before response start")));
    let err = send.handle_http(AsgiEvent::WsClose { code: 1000 });
    assert!(matches!(err, Err(EventError::Protocol(m)) if m == "unexpected event type in HTTP mode"));
    assert!(matches!(AsgiSend::handle_ws(Pushed::Full), Ok(Progress::Await)));
    assert!(AsgiSend::handle_ws(Pushed::Closed).is_err());
    assert_eq!(send.send_error("boom".to_owned()), Some("boom".to_owned()));
    assert_eq!(send.send_error("boom".to_owned()), None);
    assert_eq!(status_or_500(99), 500);
    assert_eq!(status_or_500(404), 404);
}

fn whole_body(r: &ResponseData) -> Vec<u8> {
    r.chunks.concat()
}

#[test]
fn send_error_prod_mode_returns_generic_body() {
    let mut slot = SlotSend::new(false);
    let traceback = "Traceback (most recent call last):\n  NameError: x\n";
    let response = slot.send_error(traceback).unwrap();
    assert_eq!(response.status, 500);
    assert_eq!(whole_body(&response), b"Internal Server Error");
}

#[test]
fn send_error_dev_mode_returns_traceback_body() {
    let mut slot = SlotSend::new(true);
    let traceback = "Traceback (most recent call last):\n  NameError: x\n";
    let response = slot.send_error(traceback).unwrap();
    assert_eq!(response.status, 500);
    let body = String::from_utf8(whole_body(&response)).unwrap();
    assert!(body.contains("Traceback"));
    assert!(body.contains("NameError"));
}

#[test]
fn send_error_without_response_tx_does_not_panic() {
    let mut slot = SlotSend::new(false);
    slot.response_open = false;
    assert!(slot.send_error("some error").is_none());
}

#[test]
fn slot_send_streams() {
    let mut slot = SlotSend::new(false);
    assert!(matches!(slot.call(&start(200)), Ok(SlotAction::Resolve)));
    match slot.call(&body(b"a", true)).unwrap() {
        SlotAction::Respond(Some(r)) => {
            assert_eq!(r.status, 200);
            assert_eq!(whole_body(&r), b"a");
            assert!(r.more);
        }
        _ => panic!("expected a response"),
    }
    match slot.call(&body(b"b", false)).unwrap() {
        SlotAction::Push(chunk, more) => {
            assert_eq!(chunk.as_slice(), b"b");
            assert!(!more);
        }
        _ => panic!("expected a chunk"),
    }
}

#[test]
fn bodies_arrive_in_order() {
    let mut slot = SlotSend::new(false);
    slot.call(&start(200)).unwrap();
    let mut received: Vec<u8> = Vec::new();
    for (part, more) in [("", true), ("ab", true), ("", true), ("c", false)] {
        match slot.call(&body(part.as_bytes(), more)).unwrap() {
            SlotAction::Respond(Some(r)) => received.extend(whole_body(&r)),
            SlotAction::Push(chunk, open) => {
                received.extend(chunk);
                assert_eq!(open, more);
            }
            _ => panic!("expected a chunk"),
        }
    }
    assert_eq!(received, b"abc");
    assert!(!slot.streaming);
}

// Streams

fn chunk(b: &[u8], more_body: bool) -> AsgiEvent {
    AsgiEvent::ResponseBody { body: b.to_vec(), more_body }
}

#[test]
fn asgi_body_stream_single_chunk() {
    assert_eq!(read_all(None, vec![chunk(b"hello", false)]), vec![b"hello".to_vec()]);
}

#[test]
fn asgi_body_stream_multiple_chunks() {
    assert_eq!(
        read_all(None, vec![chunk(b"hel", true), chunk(b"lo", false)]),
        vec![b"hel".to_vec(), b"lo".to_vec()]
    );
}

#[test]
fn asgi_body_stream_channel_closed() {
    let mut stream = AsgiBodyStream::new(None);
    assert!(matches!(stream.poll_buffered(), Buffered::AskChannel));
    assert!(matches!(stream.poll_next(Polled::Closed), Chunk::End));
}

#[test]
fn asgi_body_stream_initial_chunk() {
    assert_eq!(
        read_all(Some(b"hello ".to_vec()), vec![chunk(b"world", false)]),
        vec![b"hello ".to_vec(), b"world".to_vec()]
    );
}

#[test]
fn stream_stays_pending() {
    let mut stream = AsgiBodyStream::new(None);
    assert!(matches!(stream.poll_next(Polled::Pending), Chunk::Pending));
    assert!(matches!(stream.poll_next(Polled::Event(chunk(b"x", true))), Chunk::Bytes(b) if b == b"x"));
}

// Wakeups

#[test]
fn wakeup_signal_roundtrip() {
    let mut wakeup = Wakeup::new();
    assert!(wakeup.signal());
}

#[test]
fn wakeup_coalescing_skips_redundant_writes() {
    let mut wakeup = Wakeup::new();
    let written = [wakeup.signal(), wakeup.signal(), wakeup.signal()];
    assert_eq!(
        written.iter().filter(|w| **w).count(),
        1,
        "coalesced signals should produce exactly 1 byte"
    );
}

#[test]
fn wakeup_drain_resets_flag() {
    let mut wakeup = Wakeup::new();
    assert!(wakeup.signal());
    assert!(!wakeup.signal());
    wakeup.drain();
    assert!(wakeup.signal());
}

#[test]
fn empty_queue_is_looked_at_twice() {
    assert!(matches!(try_recv(Some(3), false), QueueStep::Deliver(3)));
    assert!(matches!(try_recv::<u8>(None, false), QueueStep::DrainAndRetry));
    assert!(matches!(try_recv(Some(4), true), QueueStep::Deliver(4)));
    assert!(matches!(try_recv::<u8>(None, true), QueueStep::Empty));
}

// The event loop

#[test]
fn loop_is_set_up_in_order() {
    assert_eq!(first_step("uvloop"), SetupStep::InstallUvloop);
    assert_eq!(first_step("asyncio"), SetupStep::CreateLoop);
    assert_eq!(
        init(SetupStep::InstallUvloop, Err("no uvloop".to_owned())),
        Ok(SetupStep::CreateLoop)
    );
    assert_eq!(
        init(SetupStep::SetRunning, Err("boom".to_owned())),
        Err("_set_running_loop: boom".to_owned())
    );
    let mut step = first_step("uvloop");
    let mut steps = 0;
    while step != SetupStep::Ready {
        step = init(step, Ok(())).unwrap();
        steps += 1;
    }
    assert_eq!(steps, 10);
}

#[test]
fn loop_is_taken_down_in_order() {
    let steps = shutdown();
    assert_eq!(steps.first(), Some(&TeardownStep::StopLoop));
    assert_eq!(steps[4], TeardownStep::CloseExecutor(5));
    assert_eq!(steps.last(), Some(&TeardownStep::CloseLoop));
}

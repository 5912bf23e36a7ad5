use apx::protocol::http::error::AppError;
use apx::python_value::PyValue;
use apx::telemetry::config::{
    default_http_config, parse_apx_config, parse_http_config, parse_process_config,
    parse_resource_config, parse_system_config, read_python_config, HttpConfig, HttpMetricToggles,
    ProcessMetricToggles, SystemGlobalToggles,
};
use apx::telemetry::http::{
    capture_request_headers, capture_response_headers, error_type_for, protocol_version,
    record_duration, ActiveRequestGuard, AttrValue,
};
use apx::telemetry::metrics::{
    instrument_setting, io_totals, is_stale, register_process_metrics, system_gauges,
    FrameworkGauge, PyMetricDefinition,
};
use apx::telemetry::spans::{
    map_span_kind, record_exception, record_python_exception, restore_context_var, span_status,
    write_context_var, Raised, SpanHandle, SpanKind, StatusCode,
};
use apx::transport::HttpVersion;
use hyper::header::{HeaderMap, HeaderName, HeaderValue};

fn text(s: &str) -> PyValue {
    PyValue::Str(s.to_owned())
}

fn entries(items: Vec<(&str, PyValue)>) -> Vec<(String, PyValue)> {
    items.into_iter().map(|(k, v)| (k.to_owned(), v)).collect()
}

fn dict(items: Vec<(&str, PyValue)>) -> PyValue {
    PyValue::Dict(entries(items))
}

fn headers(lines: &[(&str, &str)]) -> HeaderMap<HeaderValue> {
    let mut map = HeaderMap::new();
    for (name, value) in lines {
        map.append(
            HeaderName::from_bytes(name.as_bytes()).unwrap(),
            HeaderValue::from_str(value).unwrap(),
        );
    }
    map
}

#[test]
fn configuration_defaults() {
    let config = read_python_config(&dict(vec![("instrumentations", PyValue::List(Vec::new()))]))
        .unwrap();
    assert!(config.system.enabled && config.process.enabled);
    assert!(config.system.metrics.system_cpu && !config.system.metrics.system_paging);
    assert!(config.process.metrics.process_cpu && !config.process.metrics.process_threads);
    assert!(config.http.metrics.server_request_duration);
    assert!(config.apx.enabled && !config.apx.metrics.dispatch_total);
    assert!(config.resource.attributes.is_empty() && config.resource.schema_url.is_none());
}

#[test]
fn configuration_is_read() {
    let config = read_python_config(&dict(vec![
        (
            "resource",
            dict(vec![
                (
                    "attributes",
                    PyValue::List(vec![dict(vec![("key", text("a")), ("value", text("b"))])]),
                ),
                ("schema_url", text("https://x")),
            ]),
        ),
        (
            "instrumentations",
            PyValue::List(vec![
                dict(vec![("type", text("system")), ("enabled", PyValue::Bool(false))]),
                dict(vec![("type", text("other"))]),
                dict(vec![
                    ("type", text("http")),
                    (
                        "capture_headers",
                        dict(vec![("request", PyValue::List(vec![text("X-A")]))]),
                    ),
                    (
                        "metrics",
                        dict(vec![("server_active_requests", PyValue::Bool(false))]),
                    ),
                ]),
                dict(vec![
                    ("type", text("apx")),
                    ("metrics", dict(vec![("dispatch_total", PyValue::Bool(true))])),
                ]),
            ]),
        ),
    ]))
    .unwrap();
    assert_eq!(config.resource.attributes, vec![("a".to_owned(), "b".to_owned())]);
    assert_eq!(config.resource.schema_url.as_deref(), Some("https://x"));
    assert!(!config.system.enabled);
    assert_eq!(config.http.capture_request_headers, vec!["X-A"]);
    assert!(config.http.metrics.server_request_duration);
    assert!(!config.http.metrics.server_active_requests);
    assert!(config.apx.metrics.dispatch_total);
}

#[test]
fn later_instrumentation_decides() {
    let item = |on: bool| dict(vec![("type", text("process")), ("enabled", PyValue::Bool(on))]);
    let config = read_python_config(&dict(vec![(
        "instrumentations",
        PyValue::List(vec![item(false), item(true)]),
    )]))
    .unwrap();
    assert!(config.process.enabled);
}

#[test]
fn configuration_faults() {
    assert!(read_python_config(&PyValue::Nothing).is_err());
    assert!(read_python_config(&dict(Vec::new())).is_err());
    assert!(read_python_config(&dict(vec![("instrumentations", text("x"))])).is_err());
    let item = dict(vec![("enabled", PyValue::Bool(true))]);
    assert!(read_python_config(&dict(vec![("instrumentations", PyValue::List(vec![item]))])).is_err());
    let bad = entries(vec![("enabled", text("yes"))]);
    assert!(parse_system_config(&bad).is_err());
    assert!(parse_process_config(&bad).is_err());
    assert!(parse_http_config(&bad).is_err());
    assert!(parse_apx_config(&bad).is_err());
    let bad = entries(vec![("attributes", PyValue::List(vec![dict(vec![("key", text("a"))])]))]);
    assert!(parse_resource_config(&bad).is_err());
    let loose = entries(vec![("metrics", dict(vec![("cpu", text("yes"))]))]);
    assert!(parse_system_config(&loose).unwrap().metrics.system_cpu);
}

#[test]
fn active_requests() {
    let on = HttpMetricToggles::default();
    let guard = ActiveRequestGuard::enter(on, "GET", "http").unwrap();
    assert_eq!(guard.attrs.len(), 2);
    assert_eq!(guard.attrs[0].0, "http.request.method");
    let off = HttpMetricToggles { server_request_duration: false, server_active_requests: false };
    assert!(ActiveRequestGuard::enter(off, "GET", "http").is_none());
    assert!(record_duration(off, "GET", "http", 200, "/", None).is_none());
}

#[test]
fn durations() {
    let attrs =
        record_duration(HttpMetricToggles::default(), "GET", "http", 404, "/a", Some("404")).unwrap();
    let names: Vec<&str> = attrs.iter().map(|(k, _)| k.as_str()).collect();
    assert_eq!(
        names,
        vec![
            "http.request.method", "url.scheme", "http.response.status_code", "http.route",
            "error.type",
        ]
    );
    assert!(matches!(&attrs[2].1, AttrValue::Int(404)));
    assert!(matches!(&attrs[4].1, AttrValue::Text(t) if t == "404"));
    assert_eq!(error_type_for(&AppError::Timeout), "408");
    assert_eq!(error_type_for(&AppError::Internal("x".to_owned())), "500");
    assert_eq!(protocol_version(HttpVersion::Http2), "2");
    assert_eq!(protocol_version(HttpVersion::Http09), "0.9");
}

fn capturing(request: &[&str], sanitize: &[&str]) -> HttpConfig {
    let mut config = default_http_config();
    config.capture_request_headers = request.iter().map(|s| (*s).to_owned()).collect();
    config.capture_response_headers = vec!["Etag".to_owned()];
    config.sanitize_headers = sanitize.iter().map(|s| (*s).to_owned()).collect();
    config
}

#[test]
fn headers_are_captured() {
    let map = headers(&[("x-my-id", "1"), ("x-my-id", "2"), ("authorization", "Bearer t")]);
    let config = capturing(&["X-My-Id", "Authorization", "absent", "bad name"], &["AUTH"]);
    assert_eq!(
        capture_request_headers(&map, &config),
        vec![
            ("http.request.header.x_my_id".to_owned(), "1, 2".to_owned()),
            ("http.request.header.authorization".to_owned(), "[REDACTED]".to_owned()),
        ]
    );
    assert_eq!(
        capture_response_headers(&headers(&[("etag", "e")]), &config),
        vec![("http.response.header.etag".to_owned(), "e".to_owned())]
    );
}

#[test]
fn spans() {
    assert_eq!(map_span_kind(2), SpanKind::Server);
    assert_eq!(map_span_kind(5), SpanKind::Consumer);
    assert_eq!(map_span_kind(0), SpanKind::Internal);
    assert_eq!(span_status(StatusCode::Error, "bad").as_deref(), Some("bad"));
    assert_eq!(span_status(StatusCode::Success, "bad"), None);
    assert_eq!(
        record_exception("m", "ValueError", ""),
        vec![
            ("exception.type".to_owned(), "ValueError".to_owned()),
            ("exception.message".to_owned(), "m".to_owned()),
        ]
    );
    let all = record_python_exception(None, None, Some("trace".to_owned()));
    assert_eq!(all[0].1, "Exception");
    assert_eq!(all[2], ("exception.stacktrace".to_owned(), "trace".to_owned()));
}

#[test]
fn contexts() {
    let saved = write_context_var(&[0xab; 16], &[0x01; 8], 1, "a=1");
    assert_eq!(saved.trace_id_hex, "ab".repeat(16));
    assert_eq!(saved.span_id_hex, "01".repeat(8));
    let back = restore_context_var(Some(saved));
    assert_eq!(back.flags, 1);
    assert_eq!(back.trace_state, "a=1");
    let none = restore_context_var(None);
    assert_eq!(none.trace_id_hex, "0".repeat(32));
    assert_eq!(none.span_id_hex, "0".repeat(16));
    let other = write_context_var(&[0xac; 16], &[0x01; 8], 1, "");
    assert_ne!(other.trace_id_hex, back.trace_id_hex);
}

#[test]
fn blocks_keep_the_context() {
    let outer = || write_context_var(&[1; 16], &[2; 8], 1, "");
    let mut handle = SpanHandle::new(
        "db.query".to_owned(),
        Some(vec![("table".to_owned(), "users".to_owned())]),
        3,
    );
    assert!(handle.add_event("early".to_owned(), None).is_none());
    let start = handle.enter(Some(outer()));
    assert_eq!(start.name, "db.query");
    assert_eq!(start.kind, SpanKind::Client);
    assert_eq!(start.attributes.len(), 1);
    assert!(handle.add_event("e".to_owned(), None).is_some());
    assert!(handle.set_attribute("k".to_owned(), "v".to_owned()).is_some());
    assert_eq!(handle.set_status(StatusCode::Error, "bad"), Some(Some("bad".to_owned())));
    assert!(handle.record_exception("m", "E", "").is_some());
    let end = handle.exit(Some(Raised {
        class_name: Some("ValueError".to_owned()),
        message: Some("boom".to_owned()),
        stacktrace: None,
    }));
    assert!(end.ends);
    let (attrs, text) = end.failure.unwrap();
    assert_eq!(attrs[0].1, "ValueError");
    assert_eq!(text, "boom");
    assert_eq!(end.context.trace_id_hex, "01".repeat(16));
    let again = handle.exit(None);
    assert!(!again.ends);
    assert_eq!(again.context.trace_id_hex, "0".repeat(32));
    assert_eq!(handle.set_status(StatusCode::Success, ""), None);
}

#[test]
fn metrics() {
    assert!(!is_stale(999));
    assert!(is_stale(1000));
    assert_eq!(instrument_setting(String::new()), None);
    assert_eq!(instrument_setting("ms".to_owned()).as_deref(), Some("ms"));
    let definition = PyMetricDefinition {
        name: "system.cpu",
        description: "CPU",
        unit: "1",
        group: "system",
        scope: "a\"b",
    };
    assert_eq!(
        definition.repr(),
        "MetricDefinition(name=\"system.cpu\", group=\"system\", scope=\"a\\\"b\")"
    );
    assert_eq!(io_totals(&[(1, 2), (3, 4)]), (4, 6));
    assert_eq!(io_totals(&[]), (0, 0));
}

#[test]
fn gauges_follow_the_toggles() {
    assert_eq!(
        system_gauges(&SystemGlobalToggles::default()),
        vec![FrameworkGauge::SystemCpu, FrameworkGauge::SystemMemory]
    );
    let all = SystemGlobalToggles {
        system_cpu: false,
        system_memory: false,
        system_paging: true,
        system_disk_io: true,
        system_network_io: true,
    };
    assert_eq!(
        system_gauges(&all),
        vec![FrameworkGauge::SystemSwap, FrameworkGauge::DiskIo, FrameworkGauge::NetworkIo]
    );
    assert_eq!(
        register_process_metrics(&ProcessMetricToggles::default()),
        vec![FrameworkGauge::ProcessCpu]
    );
}

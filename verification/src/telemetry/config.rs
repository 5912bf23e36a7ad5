//! Telemetry configuration, read from the dict that the Python side provides.

use vstd::prelude::*;

use crate::python_value::{
    dict_data, dict_holds_entries, extract_bool, extract_bool_or, extract_string,
    extract_string_list, flag_at, flag_or, get, items_data, list_holds_items, lookup, text_at,
    texts_at, PyData, PyValue, ReadError, ReadFault,
};
use crate::text::{pair_views, same, views};

verus! {

/// Attributes of the telemetry resource.
pub struct ResourceConfig {
    /// Pairs of key and value, in the order given.
    pub attributes: Vec<(String, String)>,
    /// Schema URL that replaces the default one.
    pub schema_url: Option<String>,
}

/// Attributes of the telemetry resource, as a mathematical value.
pub struct ResourceData {
    /// Pairs of key and value.
    pub attributes: Seq<(Seq<char>, Seq<char>)>,
    /// Schema URL.
    pub schema_url: Option<Seq<char>>,
}

impl ResourceConfig {
    /// The mathematical value.
    pub open spec fn data(self) -> ResourceData {
        ResourceData {
            attributes: pair_views(self.attributes@),
            schema_url: match self.schema_url {
                Some(s) => Some(s@),
                None => None,
            },
        }
    }
}

/// Telemetry configuration of a worker.
pub struct TelemetryConfig {
    /// Attributes of the resource.
    pub resource: ResourceConfig,
    /// Metrics of the machine; collected by the supervisor alone.
    pub system: SystemConfig,
    /// Metrics of a process.
    pub process: ProcessConfig,
    /// HTTP instrumentation.
    pub http: HttpConfig,
    /// Dispatch timing of the framework.
    pub apx: ApxConfig,
}

/// Telemetry configuration, as a mathematical value.
pub struct TelemetryData {
    /// Attributes of the resource.
    pub resource: ResourceData,
    /// Metrics of the machine.
    pub system: SystemConfig,
    /// Metrics of a process.
    pub process: ProcessConfig,
    /// HTTP instrumentation.
    pub http: HttpData,
    /// Dispatch timing of the framework.
    pub apx: ApxConfig,
}

impl TelemetryConfig {
    /// The mathematical value.
    pub open spec fn data(self) -> TelemetryData {
        TelemetryData {
            resource: self.resource.data(),
            system: self.system,
            process: self.process,
            http: self.http.data(),
            apx: self.apx,
        }
    }
}

/// Metrics of the machine.
#[derive(Clone, Copy, PartialEq, Eq, Structural, Debug)]
pub struct SystemConfig {
    /// Whether they are collected.
    pub enabled: bool,
    /// Which of them.
    pub metrics: SystemGlobalToggles,
}

/// Which metrics of the machine are collected.
#[derive(Clone, Copy, PartialEq, Eq, Structural, Debug)]
pub struct SystemGlobalToggles {
    /// Processor use.
    pub system_cpu: bool,
    /// Memory use.
    pub system_memory: bool,
    /// Paging.
    pub system_paging: bool,
    /// Disk traffic.
    pub system_disk_io: bool,
    /// Network traffic.
    pub system_network_io: bool,
}

/// The default choice of machine metrics.
pub open spec fn default_system_toggles() -> SystemGlobalToggles {
    SystemGlobalToggles {
        system_cpu: true,
        system_memory: true,
        system_paging: false,
        system_disk_io: false,
        system_network_io: false,
    }
}

impl Default for SystemGlobalToggles {
    fn default() -> (out: Self)
        ensures
            out == default_system_toggles(),
    {
        SystemGlobalToggles {
            system_cpu: true,
            system_memory: true,
            system_paging: false,
            system_disk_io: false,
            system_network_io: false,
        }
    }
}

/// Metrics of a process.
#[derive(Clone, Copy, PartialEq, Eq, Structural, Debug)]
pub struct ProcessConfig {
    /// Whether they are collected.
    pub enabled: bool,
    /// Which of them.
    pub metrics: ProcessMetricToggles,
}

/// Which metrics of a process are collected.
#[derive(Clone, Copy, PartialEq, Eq, Structural, Debug)]
pub struct ProcessMetricToggles {
    /// Processor use.
    pub process_cpu: bool,
    /// Memory use.
    pub process_memory: bool,
    /// Number of threads.
    pub process_threads: bool,
}

/// The default choice of process metrics.
pub open spec fn default_process_toggles() -> ProcessMetricToggles {
    ProcessMetricToggles { process_cpu: true, process_memory: false, process_threads: false }
}

impl Default for ProcessMetricToggles {
    fn default() -> (out: Self)
        ensures
            out == default_process_toggles(),
    {
        ProcessMetricToggles { process_cpu: true, process_memory: false, process_threads: false }
    }
}

/// HTTP instrumentation.
pub struct HttpConfig {
    /// Whether it is on.
    pub enabled: bool,
    /// Request headers kept as span attributes.
    pub capture_request_headers: Vec<String>,
    /// Response headers kept as span attributes.
    pub capture_response_headers: Vec<String>,
    /// Parts of header names whose values are not shown.
    pub sanitize_headers: Vec<String>,
    /// Which metrics are recorded.
    pub metrics: HttpMetricToggles,
}

/// HTTP instrumentation, as a mathematical value.
pub struct HttpData {
    /// Whether it is on.
    pub enabled: bool,
    /// Request headers kept as span attributes.
    pub capture_request_headers: Seq<Seq<char>>,
    /// Response headers kept as span attributes.
    pub capture_response_headers: Seq<Seq<char>>,
    /// Parts of header names whose values are not shown.
    pub sanitize_headers: Seq<Seq<char>>,
    /// Which metrics are recorded.
    pub metrics: HttpMetricToggles,
}

impl HttpConfig {
    /// The mathematical value.
    pub open spec fn data(self) -> HttpData {
        HttpData {
            enabled: self.enabled,
            capture_request_headers: views(self.capture_request_headers@),
            capture_response_headers: views(self.capture_response_headers@),
            sanitize_headers: views(self.sanitize_headers@),
            metrics: self.metrics,
        }
    }
}

/// Which HTTP metrics are recorded.
#[derive(Clone, Copy, PartialEq, Eq, Structural, Debug)]
pub struct HttpMetricToggles {
    /// Duration of requests.
    pub server_request_duration: bool,
    /// Number of requests in flight.
    pub server_active_requests: bool,
}

/// The default choice of HTTP metrics.
pub open spec fn default_http_toggles() -> HttpMetricToggles {
    HttpMetricToggles { server_request_duration: true, server_active_requests: true }
}

impl Default for HttpMetricToggles {
    fn default() -> (out: Self)
        ensures
            out == default_http_toggles(),
    {
        HttpMetricToggles { server_request_duration: true, server_active_requests: true }
    }
}

/// Dispatch timing of the framework.
#[derive(Clone, Copy, PartialEq, Eq, Structural, Debug)]
pub struct ApxConfig {
    /// Whether it is on.
    pub enabled: bool,
    /// Which timings are recorded.
    pub metrics: ApxMetricToggles,
}

/// Which dispatch timings are recorded.
#[derive(Clone, Copy, PartialEq, Eq, Structural, Debug)]
pub struct ApxMetricToggles {
    /// Time to collect a request body.
    pub dispatch_body_collect: bool,
    /// Time to hand a request over.
    pub dispatch_crossbeam_send: bool,
    /// Time until the response came.
    pub dispatch_response_wait: bool,
    /// Whole time of a dispatch.
    pub dispatch_total: bool,
    /// Time to build a receive event.
    pub asgi_receive_build: bool,
    /// Time to parse a send event.
    pub asgi_send_parse: bool,
    /// Time a request waited.
    pub dispatch_pickup_delay: bool,
    /// Time to build the Python objects of a request.
    pub dispatch_materialize: bool,
    /// Number of requests waiting.
    pub dispatch_queue_depth: bool,
}

/// The default choice of dispatch timings: none.
pub open spec fn default_apx_toggles() -> ApxMetricToggles {
    ApxMetricToggles {
        dispatch_body_collect: false,
        dispatch_crossbeam_send: false,
        dispatch_response_wait: false,
        dispatch_total: false,
        asgi_receive_build: false,
        asgi_send_parse: false,
        dispatch_pickup_delay: false,
        dispatch_materialize: false,
        dispatch_queue_depth: false,
    }
}

impl Default for ApxMetricToggles {
    fn default() -> (out: Self)
        ensures
            out == default_apx_toggles(),
    {
        ApxMetricToggles {
            dispatch_body_collect: false,
            dispatch_crossbeam_send: false,
            dispatch_response_wait: false,
            dispatch_total: false,
            asgi_receive_build: false,
            asgi_send_parse: false,
            dispatch_pickup_delay: false,
            dispatch_materialize: false,
            dispatch_queue_depth: false,
        }
    }
}

/// The entries of a dict object.
pub type Entries = Seq<(Seq<char>, PyData)>;

/// The default for machine metrics.
pub open spec fn default_system() -> SystemConfig {
    SystemConfig { enabled: true, metrics: default_system_toggles() }
}

/// The default for process metrics.
pub open spec fn default_process() -> ProcessConfig {
    ProcessConfig { enabled: true, metrics: default_process_toggles() }
}

/// The default for HTTP instrumentation.
pub open spec fn default_http() -> HttpData {
    HttpData {
        enabled: true,
        capture_request_headers: Seq::empty(),
        capture_response_headers: Seq::empty(),
        sanitize_headers: Seq::empty(),
        metrics: default_http_toggles(),
    }
}

/// The default for dispatch timing.
pub open spec fn default_apx() -> ApxConfig {
    ApxConfig { enabled: true, metrics: default_apx_toggles() }
}

/// Machine metrics when nothing is configured.
pub fn default_system_config() -> (out: SystemConfig)
    ensures
        out == default_system(),
{
    SystemConfig { enabled: true, metrics: SystemGlobalToggles::default() }
}

/// Process metrics when nothing is configured.
pub fn default_process_config() -> (out: ProcessConfig)
    ensures
        out == default_process(),
{
    ProcessConfig { enabled: true, metrics: ProcessMetricToggles::default() }
}

/// HTTP instrumentation when nothing is configured.
pub fn default_http_config() -> (out: HttpConfig)
    ensures
        out.data() == default_http(),
{
    let out = HttpConfig {
        enabled: true,
        capture_request_headers: Vec::new(),
        capture_response_headers: Vec::new(),
        sanitize_headers: Vec::new(),
        metrics: HttpMetricToggles::default(),
    };
    assert(out.data().capture_request_headers =~= Seq::empty());
    assert(out.data().capture_response_headers =~= Seq::empty());
    assert(out.data().sanitize_headers =~= Seq::empty());
    out
}

/// Dispatch timing when nothing is configured.
pub fn default_apx_config() -> (out: ApxConfig)
    ensures
        out == default_apx(),
{
    ApxConfig { enabled: true, metrics: ApxMetricToggles::default() }
}

/// The choice of machine metrics that a dict makes.
pub open spec fn system_toggles_of(d: Entries) -> SystemGlobalToggles {
    SystemGlobalToggles {
        system_cpu: flag_or(d, "cpu"@, true),
        system_memory: flag_or(d, "memory"@, true),
        system_paging: flag_or(d, "paging"@, false),
        system_disk_io: flag_or(d, "disk_io"@, false),
        system_network_io: flag_or(d, "network_io"@, false),
    }
}

/// Reads the choice of machine metrics.
pub fn parse_system_global_toggles(dict: &[(String, PyValue)]) -> (out: SystemGlobalToggles)
    ensures
        out == system_toggles_of(dict_data(dict@)),
{
    let defaults = SystemGlobalToggles::default();
    SystemGlobalToggles {
        system_cpu: extract_bool_or(dict, "cpu", defaults.system_cpu),
        system_memory: extract_bool_or(dict, "memory", defaults.system_memory),
        system_paging: extract_bool_or(dict, "paging", defaults.system_paging),
        system_disk_io: extract_bool_or(dict, "disk_io", defaults.system_disk_io),
        system_network_io: extract_bool_or(dict, "network_io", defaults.system_network_io),
    }
}

/// Machine metrics that a dict configures; nothing when an entry has the wrong type.
pub open spec fn system_of(d: Entries) -> Option<SystemConfig> {
    match (flag_at(d, "enabled"@, true), lookup(d, "metrics"@)) {
        (Some(enabled), None) => Some(
            SystemConfig { enabled, metrics: default_system_toggles() },
        ),
        (Some(enabled), Some(PyData::Dict(m))) => Some(
            SystemConfig { enabled, metrics: system_toggles_of(m) },
        ),
        _ => None,
    }
}

/// Reads the configuration of machine metrics.
pub fn parse_system_config(dict: &[(String, PyValue)]) -> (out: Result<SystemConfig, ReadError>)
    ensures
        match out {
            Ok(c) => system_of(dict_data(dict@)) == Some(c),
            Err(e) => system_of(dict_data(dict@)) is None && e is WrongType,
        },
{
    let enabled = match extract_bool(dict, "enabled", true) {
        Ok(b) => b,
        Err(e) => return Err(e),
    };
    let metrics = match get(dict, "metrics") {
        None => SystemGlobalToggles::default(),
        Some(PyValue::Dict(m)) => {
            proof {
                dict_holds_entries(*m);
            }
            parse_system_global_toggles(m)
        },
        Some(_) => return Err(ReadError::WrongType),
    };
    Ok(SystemConfig { enabled, metrics })
}

/// The choice of process metrics that a dict makes.
pub open spec fn process_toggles_of(d: Entries) -> ProcessMetricToggles {
    ProcessMetricToggles {
        process_cpu: flag_or(d, "cpu"@, true),
        process_memory: flag_or(d, "memory"@, false),
        process_threads: flag_or(d, "threads"@, false),
    }
}

/// Reads the choice of process metrics.
pub fn parse_process_metric_toggles(dict: &[(String, PyValue)]) -> (out: ProcessMetricToggles)
    ensures
        out == process_toggles_of(dict_data(dict@)),
{
    let defaults = ProcessMetricToggles::default();
    ProcessMetricToggles {
        process_cpu: extract_bool_or(dict, "cpu", defaults.process_cpu),
        process_memory: extract_bool_or(dict, "memory", defaults.process_memory),
        process_threads: extract_bool_or(dict, "threads", defaults.process_threads),
    }
}

/// Process metrics that a dict configures; nothing when an entry has the wrong type.
pub open spec fn process_of(d: Entries) -> Option<ProcessConfig> {
    match (flag_at(d, "enabled"@, true), lookup(d, "metrics"@)) {
        (Some(enabled), None) => Some(
            ProcessConfig { enabled, metrics: default_process_toggles() },
        ),
        (Some(enabled), Some(PyData::Dict(m))) => Some(
            ProcessConfig { enabled, metrics: process_toggles_of(m) },
        ),
        _ => None,
    }
}

/// Reads the configuration of process metrics.
pub fn parse_process_config(dict: &[(String, PyValue)]) -> (out: Result<ProcessConfig, ReadError>)
    ensures
        match out {
            Ok(c) => process_of(dict_data(dict@)) == Some(c),
            Err(e) => process_of(dict_data(dict@)) is None && e is WrongType,
        },
{
    let enabled = match extract_bool(dict, "enabled", true) {
        Ok(b) => b,
        Err(e) => return Err(e),
    };
    let metrics = match get(dict, "metrics") {
        None => ProcessMetricToggles::default(),
        Some(PyValue::Dict(m)) => {
            proof {
                dict_holds_entries(*m);
            }
            parse_process_metric_toggles(m)
        },
        Some(_) => return Err(ReadError::WrongType),
    };
    Ok(ProcessConfig { enabled, metrics })
}

/// The choice of HTTP metrics that a dict makes.
pub open spec fn http_toggles_of(d: Entries) -> HttpMetricToggles {
    HttpMetricToggles {
        server_request_duration: flag_or(d, "server_request_duration"@, true),
        server_active_requests: flag_or(d, "server_active_requests"@, true),
    }
}

/// Reads the choice of HTTP metrics.
pub fn parse_http_metric_toggles(dict: &[(String, PyValue)]) -> (out: HttpMetricToggles)
    ensures
        out == http_toggles_of(dict_data(dict@)),
{
    let defaults = HttpMetricToggles::default();
    HttpMetricToggles {
        server_request_duration: extract_bool_or(
            dict,
            "server_request_duration",
            defaults.server_request_duration,
        ),
        server_active_requests: extract_bool_or(
            dict,
            "server_active_requests",
            defaults.server_active_requests,
        ),
    }
}

/// The header lists under `capture_headers`: request, response, sanitize.
pub open spec fn captures_of(d: Entries) -> Option<
    (Seq<Seq<char>>, Seq<Seq<char>>, Seq<Seq<char>>),
> {
    match lookup(d, "capture_headers"@) {
        None => Some((Seq::empty(), Seq::empty(), Seq::empty())),
        Some(PyData::Dict(c)) => match (
            texts_at(c, "request"@),
            texts_at(c, "response"@),
            texts_at(c, "sanitize"@),
        ) {
            (Some(a), Some(b), Some(s)) => Some((a, b, s)),
            _ => None,
        },
        Some(_) => None,
    }
}

/// HTTP instrumentation that a dict configures; nothing when an entry has the wrong type.
pub open spec fn http_of(d: Entries) -> Option<HttpData> {
    match (flag_at(d, "enabled"@, true), captures_of(d)) {
        (Some(enabled), Some((a, b, s))) => match lookup(d, "metrics"@) {
            None => Some(
                HttpData {
                    enabled,
                    capture_request_headers: a,
                    capture_response_headers: b,
                    sanitize_headers: s,
                    metrics: default_http_toggles(),
                },
            ),
            Some(PyData::Dict(m)) => Some(
                HttpData {
                    enabled,
                    capture_request_headers: a,
                    capture_response_headers: b,
                    sanitize_headers: s,
                    metrics: http_toggles_of(m),
                },
            ),
            Some(_) => None,
        },
        _ => None,
    }
}

/// Reads the configuration of HTTP instrumentation.
pub fn parse_http_config(dict: &[(String, PyValue)]) -> (out: Result<HttpConfig, ReadError>)
    ensures
        match out {
            Ok(c) => http_of(dict_data(dict@)) == Some(c.data()),
            Err(e) => http_of(dict_data(dict@)) is None && e is WrongType,
        },
{
    let enabled = match extract_bool(dict, "enabled", true) {
        Ok(b) => b,
        Err(e) => return Err(e),
    };
    let mut request: Vec<String> = Vec::new();
    let mut response: Vec<String> = Vec::new();
    let mut sanitize: Vec<String> = Vec::new();
    assert(views(request@) =~= Seq::<Seq<char>>::empty());
    match get(dict, "capture_headers") {
        None => {},
        Some(PyValue::Dict(c)) => {
            proof {
                dict_holds_entries(*c);
            }
            request = match extract_string_list(c, "request") {
                Ok(v) => v,
                Err(e) => return Err(e),
            };
            response = match extract_string_list(c, "response") {
                Ok(v) => v,
                Err(e) => return Err(e),
            };
            sanitize = match extract_string_list(c, "sanitize") {
                Ok(v) => v,
                Err(e) => return Err(e),
            };
        },
        Some(_) => return Err(ReadError::WrongType),
    }
    let metrics = match get(dict, "metrics") {
        None => HttpMetricToggles::default(),
        Some(PyValue::Dict(m)) => {
            proof {
                dict_holds_entries(*m);
            }
            parse_http_metric_toggles(m)
        },
        Some(_) => return Err(ReadError::WrongType),
    };
    Ok(
        HttpConfig {
            enabled,
            capture_request_headers: request,
            capture_response_headers: response,
            sanitize_headers: sanitize,
            metrics,
        },
    )
}

/// The choice of dispatch timings that a dict makes.
pub open spec fn apx_toggles_of(d: Entries) -> ApxMetricToggles {
    ApxMetricToggles {
        dispatch_body_collect: flag_or(d, "dispatch_body_collect"@, false),
        dispatch_crossbeam_send: flag_or(d, "dispatch_crossbeam_send"@, false),
        dispatch_response_wait: flag_or(d, "dispatch_response_wait"@, false),
        dispatch_total: flag_or(d, "dispatch_total"@, false),
        asgi_receive_build: flag_or(d, "asgi_receive_build"@, false),
        asgi_send_parse: flag_or(d, "asgi_send_parse"@, false),
        dispatch_pickup_delay: flag_or(d, "dispatch_pickup_delay"@, false),
        dispatch_materialize: flag_or(d, "dispatch_materialize"@, false),
        dispatch_queue_depth: flag_or(d, "dispatch_queue_depth"@, false),
    }
}

/// Reads the choice of dispatch timings.
pub fn parse_apx_metric_toggles(dict: &[(String, PyValue)]) -> (out: ApxMetricToggles)
    ensures
        out == apx_toggles_of(dict_data(dict@)),
{
    ApxMetricToggles {
        dispatch_body_collect: extract_bool_or(dict, "dispatch_body_collect", false),
        dispatch_crossbeam_send: extract_bool_or(dict, "dispatch_crossbeam_send", false),
        dispatch_response_wait: extract_bool_or(dict, "dispatch_response_wait", false),
        dispatch_total: extract_bool_or(dict, "dispatch_total", false),
        asgi_receive_build: extract_bool_or(dict, "asgi_receive_build", false),
        asgi_send_parse: extract_bool_or(dict, "asgi_send_parse", false),
        dispatch_pickup_delay: extract_bool_or(dict, "dispatch_pickup_delay", false),
        dispatch_materialize: extract_bool_or(dict, "dispatch_materialize", false),
        dispatch_queue_depth: extract_bool_or(dict, "dispatch_queue_depth", false),
    }
}

/// Dispatch timing that a dict configures; nothing when an entry has the wrong type.
pub open spec fn apx_of(d: Entries) -> Option<ApxConfig> {
    match (flag_at(d, "enabled"@, true), lookup(d, "metrics"@)) {
        (Some(enabled), None) => Some(ApxConfig { enabled, metrics: default_apx_toggles() }),
        (Some(enabled), Some(PyData::Dict(m))) => Some(
            ApxConfig { enabled, metrics: apx_toggles_of(m) },
        ),
        _ => None,
    }
}

/// Reads the configuration of dispatch timing.
pub fn parse_apx_config(dict: &[(String, PyValue)]) -> (out: Result<ApxConfig, ReadError>)
    ensures
        match out {
            Ok(c) => apx_of(dict_data(dict@)) == Some(c),
            Err(e) => apx_of(dict_data(dict@)) is None && e is WrongType,
        },
{
    let enabled = match extract_bool(dict, "enabled", true) {
        Ok(b) => b,
        Err(e) => return Err(e),
    };
    let metrics = match get(dict, "metrics") {
        None => ApxMetricToggles::default(),
        Some(PyValue::Dict(m)) => {
            proof {
                dict_holds_entries(*m);
            }
            parse_apx_metric_toggles(m)
        },
        Some(_) => return Err(ReadError::WrongType),
    };
    Ok(ApxConfig { enabled, metrics })
}

/// The key and value that an attribute item holds.
pub open spec fn attribute_of(item: PyData) -> Result<(Seq<char>, Seq<char>), ReadFault> {
    match item {
        PyData::Dict(d) => match text_at(d, "key"@) {
            Err(e) => Err(e),
            Ok(k) => match text_at(d, "value"@) {
                Err(e) => Err(e),
                Ok(v) => Ok((k, v)),
            },
        },
        _ => Err(ReadFault::WrongType),
    }
}

/// The attributes that a list of items holds; the first bad item decides the fault.
pub open spec fn attributes_of(items: Seq<PyData>) -> Result<
    Seq<(Seq<char>, Seq<char>)>,
    ReadFault,
>
    decreases items.len(),
{
    if items.len() == 0 {
        Ok(Seq::empty())
    } else {
        match attributes_of(items.drop_last()) {
            Err(e) => Err(e),
            Ok(before) => match attribute_of(items.last()) {
                Err(e) => Err(e),
                Ok(a) => Ok(before.push(a)),
            },
        }
    }
}

/// A fault in the front of a list is the fault of the list.
proof fn first_fault_decides(items: Seq<PyData>, n: int)
    requires
        0 <= n <= items.len(),
        attributes_of(items.take(n)) is Err,
    ensures
        attributes_of(items) == attributes_of(items.take(n)),
    decreases items.len() - n,
{
    if n < items.len() {
        assert(items.take(n + 1).drop_last() =~= items.take(n));
        first_fault_decides(items, n + 1);
    } else {
        assert(items.take(n) =~= items);
    }
}

/// The resource that a dict describes.
pub open spec fn resource_of(d: Entries) -> Result<ResourceData, ReadFault> {
    let attributes = match lookup(d, "attributes"@) {
        None => Ok(Seq::empty()),
        Some(PyData::List(items)) => attributes_of(items),
        Some(_) => Err(ReadFault::WrongType),
    };
    match attributes {
        Err(e) => Err(e),
        Ok(attributes) => match lookup(d, "schema_url"@) {
            None => Ok(ResourceData { attributes, schema_url: None }),
            Some(PyData::Str(s)) => Ok(ResourceData { attributes, schema_url: Some(s) }),
            Some(_) => Err(ReadFault::WrongType),
        },
    }
}

/// Reads a list of attribute items.
fn parse_attributes(items: &Vec<PyValue>) -> (out: Result<Vec<(String, String)>, ReadError>)
    ensures
        match out {
            Ok(v) => attributes_of(items_data(items@)) == Ok::<
                Seq<(Seq<char>, Seq<char>)>,
                ReadFault,
            >(pair_views(v@)),
            Err(e) => attributes_of(items_data(items@)) == Err::<
                Seq<(Seq<char>, Seq<char>)>,
                ReadFault,
            >(e.fault()),
        },
{
    let ghost data = items_data(items@);
    let mut out: Vec<(String, String)> = Vec::new();
    assert(pair_views(out@) =~= Seq::<(Seq<char>, Seq<char>)>::empty());
    for i in 0..items.len()
        invariant
            data == items_data(items@),
            attributes_of(data.take(i as int)) == Ok::<Seq<(Seq<char>, Seq<char>)>, ReadFault>(
                pair_views(out@),
            ),
    {
        let ghost next = data.take(i + 1);
        assert(next.drop_last() =~= data.take(i as int));
        assert(next.last() == items@[i as int].data());
        match &items[i] {
            PyValue::Dict(d) => {
                proof {
                    dict_holds_entries(*d);
                }
                let key = match extract_string(d, "key") {
                    Ok(k) => k,
                    Err(e) => {
                        proof {
                            first_fault_decides(data, i + 1);
                        }
                        return Err(e);
                    },
                };
                let value = match extract_string(d, "value") {
                    Ok(v) => v,
                    Err(e) => {
                        proof {
                            first_fault_decides(data, i + 1);
                        }
                        return Err(e);
                    },
                };
                let ghost before = out@;
                let ghost pair = (key@, value@);
                out.push((key, value));
                assert(pair_views(out@) =~= pair_views(before).push(pair));
            },
            _ => {
                proof {
                    first_fault_decides(data, i + 1);
                }
                return Err(ReadError::WrongType);
            },
        }
    }
    assert(data.take(data.len() as int) =~= data);
    Ok(out)
}

/// Reads the description of the resource.
pub fn parse_resource_config(dict: &[(String, PyValue)]) -> (out: Result<ResourceConfig, ReadError>)
    ensures
        match out {
            Ok(c) => resource_of(dict_data(dict@)) == Ok::<ResourceData, ReadFault>(c.data()),
            Err(e) => resource_of(dict_data(dict@)) == Err::<ResourceData, ReadFault>(e.fault()),
        },
{
    let attributes = match get(dict, "attributes") {
        None => {
            let v: Vec<(String, String)> = Vec::new();
            assert(pair_views(v@) =~= Seq::<(Seq<char>, Seq<char>)>::empty());
            v
        },
        Some(PyValue::List(items)) => {
            proof {
                list_holds_items(*items);
            }
            match parse_attributes(items) {
                Ok(v) => v,
                Err(e) => return Err(e),
            }
        },
        Some(_) => return Err(ReadError::WrongType),
    };
    let schema_url = match get(dict, "schema_url") {
        None => None,
        Some(PyValue::Str(s)) => Some(s.clone()),
        Some(_) => return Err(ReadError::WrongType),
    };
    Ok(ResourceConfig { attributes, schema_url })
}

/// The groups of instrumentation that a configuration sets.
pub struct Groups {
    /// Metrics of the machine.
    pub system: SystemConfig,
    /// Metrics of a process.
    pub process: ProcessConfig,
    /// HTTP instrumentation.
    pub http: HttpData,
    /// Dispatch timing of the framework.
    pub apx: ApxConfig,
}

/// The groups before any instrumentation is read.
pub open spec fn default_groups() -> Groups {
    Groups {
        system: default_system(),
        process: default_process(),
        http: default_http(),
        apx: default_apx(),
    }
}

/// The groups after one more instrumentation. An item of a known type replaces its group;
/// an item of an unknown type changes nothing.
pub open spec fn with_item(g: Groups, item: PyData) -> Result<Groups, ReadFault> {
    match item {
        PyData::Dict(d) => match text_at(d, "type"@) {
            Err(e) => Err(e),
            Ok(kind) => if kind == "system"@ {
                match system_of(d) {
                    Some(system) => Ok(Groups { system, ..g }),
                    None => Err(ReadFault::WrongType),
                }
            } else if kind == "process"@ {
                match process_of(d) {
                    Some(process) => Ok(Groups { process, ..g }),
                    None => Err(ReadFault::WrongType),
                }
            } else if kind == "http"@ {
                match http_of(d) {
                    Some(http) => Ok(Groups { http, ..g }),
                    None => Err(ReadFault::WrongType),
                }
            } else if kind == "apx"@ {
                match apx_of(d) {
                    Some(apx) => Ok(Groups { apx, ..g }),
                    None => Err(ReadFault::WrongType),
                }
            } else {
                Ok(g)
            },
        },
        _ => Err(ReadFault::WrongType),
    }
}

/// The groups after a list of instrumentations; the first bad item decides the fault.
pub open spec fn groups_of(items: Seq<PyData>) -> Result<Groups, ReadFault>
    decreases items.len(),
{
    if items.len() == 0 {
        Ok(default_groups())
    } else {
        match groups_of(items.drop_last()) {
            Err(e) => Err(e),
            Ok(g) => with_item(g, items.last()),
        }
    }
}

/// A fault in the front of the instrumentations is the fault of them all.
proof fn first_group_fault_decides(items: Seq<PyData>, n: int)
    requires
        0 <= n <= items.len(),
        groups_of(items.take(n)) is Err,
    ensures
        groups_of(items) == groups_of(items.take(n)),
    decreases items.len() - n,
{
    if n < items.len() {
        assert(items.take(n + 1).drop_last() =~= items.take(n));
        first_group_fault_decides(items, n + 1);
    } else {
        assert(items.take(n) =~= items);
    }
}

/// The configuration that a Python object describes.
pub open spec fn config_of(config: PyData) -> Result<TelemetryData, ReadFault> {
    match config {
        PyData::Dict(d) => match lookup(d, "instrumentations"@) {
            None => Err(ReadFault::MissingKey("instrumentations"@)),
            Some(PyData::List(items)) => {
                let resource = match lookup(d, "resource"@) {
                    None => Ok(ResourceData { attributes: Seq::empty(), schema_url: None }),
                    Some(PyData::Dict(r)) => resource_of(r),
                    Some(_) => Err(ReadFault::WrongType),
                };
                match resource {
                    Err(e) => Err(e),
                    Ok(resource) => match groups_of(items) {
                        Err(e) => Err(e),
                        Ok(g) => Ok(
                            TelemetryData {
                                resource,
                                system: g.system,
                                process: g.process,
                                http: g.http,
                                apx: g.apx,
                            },
                        ),
                    },
                }
            },
            Some(_) => Err(ReadFault::WrongType),
        },
        _ => Err(ReadFault::WrongType),
    }
}

/// The groups of instrumentation while they are read.
struct Parsed {
    system: SystemConfig,
    process: ProcessConfig,
    http: HttpConfig,
    apx: ApxConfig,
}

impl Parsed {
    /// The mathematical value.
    spec fn data(self) -> Groups {
        Groups {
            system: self.system,
            process: self.process,
            http: self.http.data(),
            apx: self.apx,
        }
    }
}

/// Reads one instrumentation over the groups read so far.
fn parse_item(item: &PyValue, g: Parsed) -> (out: Result<Parsed, ReadError>)
    ensures
        match out {
            Ok(n) => with_item(g.data(), item.data()) == Ok::<Groups, ReadFault>(n.data()),
            Err(e) => with_item(g.data(), item.data()) == Err::<Groups, ReadFault>(e.fault()),
        },
{
    let d = match item {
        PyValue::Dict(d) => d,
        _ => return Err(ReadError::WrongType),
    };
    proof {
        dict_holds_entries(*d);
    }
    let kind = match extract_string(d, "type") {
        Ok(k) => k,
        Err(e) => return Err(e),
    };
    let mut g = g;
    if same(&kind, "system") {
        match parse_system_config(d) {
            Ok(c) => {
                g.system = c;
            },
            Err(e) => return Err(e),
        }
    } else if same(&kind, "process") {
        match parse_process_config(d) {
            Ok(c) => {
                g.process = c;
            },
            Err(e) => return Err(e),
        }
    } else if same(&kind, "http") {
        match parse_http_config(d) {
            Ok(c) => {
                g.http = c;
            },
            Err(e) => return Err(e),
        }
    } else if same(&kind, "apx") {
        match parse_apx_config(d) {
            Ok(c) => {
                g.apx = c;
            },
            Err(e) => return Err(e),
        }
    }
    Ok(g)
}

/// Reads a list of instrumentations over the defaults.
fn parse_instrumentations(items: &Vec<PyValue>) -> (out: Result<Parsed, ReadError>)
    ensures
        match out {
            Ok(g) => groups_of(items_data(items@)) == Ok::<Groups, ReadFault>(g.data()),
            Err(e) => groups_of(items_data(items@)) == Err::<Groups, ReadFault>(e.fault()),
        },
{
    let ghost data = items_data(items@);
    let mut parsed = Parsed {
        system: default_system_config(),
        process: default_process_config(),
        http: default_http_config(),
        apx: default_apx_config(),
    };
    for i in 0..items.len()
        invariant
            data == items_data(items@),
            groups_of(data.take(i as int)) == Ok::<Groups, ReadFault>(parsed.data()),
    {
        let ghost next = data.take(i + 1);
        assert(next.drop_last() =~= data.take(i as int));
        assert(next.last() == items@[i as int].data());
        match parse_item(&items[i], parsed) {
            Ok(g) => {
                parsed = g;
            },
            Err(e) => {
                proof {
                    first_group_fault_decides(data, i + 1);
                }
                return Err(e);
            },
        }
    }
    assert(data.take(data.len() as int) =~= data);
    Ok(parsed)
}

/// Reads the telemetry configuration out of the object that the Python side returned.
pub fn read_python_config(config: &PyValue) -> (out: Result<TelemetryConfig, ReadError>)
    ensures
        match out {
            Ok(c) => config_of(config.data()) == Ok::<TelemetryData, ReadFault>(c.data()),
            Err(e) => config_of(config.data()) == Err::<TelemetryData, ReadFault>(e.fault()),
        },
{
    let dict = match config {
        PyValue::Dict(d) => d,
        _ => return Err(ReadError::WrongType),
    };
    proof {
        dict_holds_entries(*dict);
    }
    let instrumentations = match get(dict, "instrumentations") {
        None => return Err(ReadError::MissingKey(String::from_str("instrumentations"))),
        Some(PyValue::List(items)) => items,
        Some(_) => return Err(ReadError::WrongType),
    };
    proof {
        list_holds_items(*instrumentations);
    }
    let resource = match get(dict, "resource") {
        None => {
            let v: Vec<(String, String)> = Vec::new();
            assert(pair_views(v@) =~= Seq::<(Seq<char>, Seq<char>)>::empty());
            ResourceConfig { attributes: v, schema_url: None }
        },
        Some(PyValue::Dict(r)) => {
            proof {
                dict_holds_entries(*r);
            }
            match parse_resource_config(r) {
                Ok(c) => c,
                Err(e) => return Err(e),
            }
        },
        Some(_) => return Err(ReadError::WrongType),
    };
    match parse_instrumentations(instrumentations) {
        Ok(g) => Ok(
            TelemetryConfig {
                resource,
                system: g.system,
                process: g.process,
                http: g.http,
                apx: g.apx,
            },
        ),
        Err(e) => Err(e),
    }
}

/// An instrumentation of an unknown type at the end has no effect.
pub proof fn unknown_instrumentation_is_skipped(items: Seq<PyData>, d: Entries, kind: Seq<char>)
    requires
        text_at(d, "type"@) == Ok::<Seq<char>, ReadFault>(kind),
        kind != "system"@,
        kind != "process"@,
        kind != "http"@,
        kind != "apx"@,
    ensures
        groups_of(items.push(PyData::Dict(d))) == groups_of(items),
{
    assert(items.push(PyData::Dict(d)).drop_last() =~= items);
}

/// Without instrumentations every group has its default.
pub proof fn no_instrumentation_gives_defaults()
    ensures
        groups_of(Seq::empty()) == Ok::<Groups, ReadFault>(default_groups()),
{
}

/// Of two instrumentations of one type in a row the later one decides its group, and the
/// groups of other types stay as they were before both.
pub proof fn last_instrumentation_wins(g: Groups, a: Entries, b: Entries)
    requires
        text_at(a, "type"@) == Ok::<Seq<char>, ReadFault>("http"@) || text_at(a, "type"@) == Ok::<
            Seq<char>,
            ReadFault,
        >("system"@) || text_at(a, "type"@) == Ok::<Seq<char>, ReadFault>("process"@) || text_at(
            a,
            "type"@,
        ) == Ok::<Seq<char>, ReadFault>("apx"@),
        text_at(b, "type"@) == text_at(a, "type"@),
        with_item(g, PyData::Dict(a)) is Ok,
    ensures
        with_item(with_item(g, PyData::Dict(a))->Ok_0, PyData::Dict(b)) == with_item(
            g,
            PyData::Dict(b),
        ),
{
}

/// What a dict says of captured headers is what is read: the lists under `request`, `response` and
/// `sanitize` go to the request headers, the response headers and the hidden ones, and a list that
/// is not there is empty.
pub proof fn captured_headers_are_read(
    d: Entries,
    c: Entries,
    request: Seq<Seq<char>>,
    response: Seq<Seq<char>>,
    sanitize: Seq<Seq<char>>,
)
    requires
        lookup(d, "capture_headers"@) == Some(PyData::Dict(c)),
        lists_texts(lookup(c, "request"@), request),
        lists_texts(lookup(c, "response"@), response),
        lists_texts(lookup(c, "sanitize"@), sanitize),
    ensures
        http_of(d) matches Some(h) ==> h.capture_request_headers == request
            && h.capture_response_headers == response && h.sanitize_headers == sanitize,
        lookup(d, "enabled"@) is None && lookup(d, "metrics"@) is None ==> http_of(d) is Some,
{
    listed_texts_are_read(c, "request"@, request);
    listed_texts_are_read(c, "response"@, response);
    listed_texts_are_read(c, "sanitize"@, sanitize);
}

/// The value is a list of these texts, or there is none and no text.
pub open spec fn lists_texts(v: Option<PyData>, texts: Seq<Seq<char>>) -> bool {
    match v {
        None => texts.len() == 0,
        Some(PyData::List(items)) => items.len() == texts.len() && forall|i: int|
            0 <= i < items.len() ==> #[trigger] items[i] == PyData::Str(texts[i]),
        Some(_) => false,
    }
}

/// Texts that are listed are read.
proof fn listed_texts_are_read(c: Entries, key: Seq<char>, texts: Seq<Seq<char>>)
    requires
        lists_texts(lookup(c, key), texts),
    ensures
        texts_at(c, key) == Some(texts),
{
    match lookup(c, key) {
        None => {
            assert(texts =~= Seq::empty());
        },
        Some(PyData::List(items)) => {
            crate::python_value::text_lists_are_read(c, key, texts, items);
        },
        Some(_) => {},
    }
}

/// Without `capture_headers` no header is captured and none is hidden.
pub proof fn nothing_is_captured_unasked(d: Entries)
    requires
        lookup(d, "capture_headers"@) is None,
    ensures
        http_of(d) matches Some(h) ==> h.capture_request_headers.len() == 0
            && h.capture_response_headers.len() == 0 && h.sanitize_headers.len() == 0,
{
}

/// The switch of a metric under `key` decides it, if it is there and a flag; else the default does.
pub open spec fn switched(v: Option<PyData>, default: bool) -> bool {
    match v {
        Some(PyData::Bool(b)) => b,
        _ => default,
    }
}

/// Each switch under `metrics` decides the metric of its name and no other; a group without
/// `metrics` has the defaults, and `enabled` decides whether the group is on, which it is unless
/// said otherwise.
pub proof fn switches_decide_their_metrics(d: Entries, m: Entries)
    requires
        lookup(d, "metrics"@) == Some(PyData::Dict(m)),
        !(lookup(d, "enabled"@) matches Some(v) && !(v is Bool)),
        lookup(d, "capture_headers"@) is None,
    ensures
        system_of(d) == Some(
            SystemConfig {
                enabled: switched(lookup(d, "enabled"@), true),
                metrics: SystemGlobalToggles {
                    system_cpu: switched(lookup(m, "cpu"@), true),
                    system_memory: switched(lookup(m, "memory"@), true),
                    system_paging: switched(lookup(m, "paging"@), false),
                    system_disk_io: switched(lookup(m, "disk_io"@), false),
                    system_network_io: switched(lookup(m, "network_io"@), false),
                },
            },
        ),
        process_of(d) == Some(
            ProcessConfig {
                enabled: switched(lookup(d, "enabled"@), true),
                metrics: ProcessMetricToggles {
                    process_cpu: switched(lookup(m, "cpu"@), true),
                    process_memory: switched(lookup(m, "memory"@), false),
                    process_threads: switched(lookup(m, "threads"@), false),
                },
            },
        ),
        http_of(d) matches Some(h) && h.enabled == switched(lookup(d, "enabled"@), true)
            && h.metrics.server_request_duration == switched(
            lookup(m, "server_request_duration"@),
            true,
        ) && h.metrics.server_active_requests == switched(
            lookup(m, "server_active_requests"@),
            true,
        ),
        apx_of(d) == Some(
            ApxConfig {
                enabled: switched(lookup(d, "enabled"@), true),
                metrics: ApxMetricToggles {
                    dispatch_body_collect: switched(lookup(m, "dispatch_body_collect"@), false),
                    dispatch_crossbeam_send: switched(lookup(m, "dispatch_crossbeam_send"@), false),
                    dispatch_response_wait: switched(lookup(m, "dispatch_response_wait"@), false),
                    dispatch_total: switched(lookup(m, "dispatch_total"@), false),
                    asgi_receive_build: switched(lookup(m, "asgi_receive_build"@), false),
                    asgi_send_parse: switched(lookup(m, "asgi_send_parse"@), false),
                    dispatch_pickup_delay: switched(lookup(m, "dispatch_pickup_delay"@), false),
                    dispatch_materialize: switched(lookup(m, "dispatch_materialize"@), false),
                    dispatch_queue_depth: switched(lookup(m, "dispatch_queue_depth"@), false),
                },
            },
        ),
{
}

/// A group that is configured without switches has the choice of metrics that it would have if
/// every switch were left out.
pub proof fn no_switches_are_the_defaults(d: Entries, m: Entries, bare: Entries)
    requires
        lookup(bare, "metrics"@) is None,
        lookup(d, "metrics"@) == Some(PyData::Dict(m)),
        m.len() == 0,
        lookup(bare, "enabled"@) == lookup(d, "enabled"@),
        lookup(bare, "capture_headers"@) == lookup(d, "capture_headers"@),
    ensures
        system_of(bare) == system_of(d),
        process_of(bare) == process_of(d),
        http_of(bare) == http_of(d),
        apx_of(bare) == apx_of(d),
{
}

/// A group whose `enabled`, `metrics` or captured headers have the wrong type is refused.
pub proof fn wrong_types_are_refused(d: Entries)
    ensures
        (lookup(d, "enabled"@) matches Some(v) && !(v is Bool)) || (lookup(d, "metrics"@) matches Some(
            v,
        ) && !(v is Dict)) ==> system_of(d) is None && process_of(d) is None && http_of(d) is None
            && apx_of(d) is None,
        (lookup(d, "capture_headers"@) matches Some(v) && !(v is Dict)) ==> http_of(d) is None,
{
}

/// The groups before anything is read: all are on, with the metrics that cost little.
pub proof fn defaults_are_frugal()
    ensures
        groups_of(Seq::empty()) matches Ok(g) && g.system.enabled && g.system.metrics.system_cpu
            && g.system.metrics.system_memory && !g.system.metrics.system_paging
            && !g.system.metrics.system_disk_io && !g.system.metrics.system_network_io
            && g.process.enabled && g.process.metrics.process_cpu
            && !g.process.metrics.process_memory && !g.process.metrics.process_threads
            && g.http.enabled && g.http.metrics.server_request_duration
            && g.http.metrics.server_active_requests && g.http.capture_request_headers.len() == 0
            && g.http.capture_response_headers.len() == 0 && g.http.sanitize_headers.len() == 0
            && g.apx.enabled && g.apx.metrics == default_apx_toggles(),
        default_apx_toggles() == (ApxMetricToggles {
            dispatch_body_collect: false,
            dispatch_crossbeam_send: false,
            dispatch_response_wait: false,
            dispatch_total: false,
            asgi_receive_build: false,
            asgi_send_parse: false,
            dispatch_pickup_delay: false,
            dispatch_materialize: false,
            dispatch_queue_depth: false,
        }),
{
}

/// An instrumentation sets the group of its type to what its dict says, and no other group.
pub proof fn an_instrumentation_sets_its_group(items: Seq<PyData>, d: Entries, g: Groups)
    requires
        groups_of(items) == Ok::<Groups, ReadFault>(g),
    ensures
        ({
            let r = groups_of(items.push(PyData::Dict(d)));
            match lookup(d, "type"@) {
                Some(PyData::Str(kind)) => if kind == "system"@ {
                    match system_of(d) {
                        Some(c) => r matches Ok(n) && n.system == c && n.process == g.process
                            && n.http == g.http && n.apx == g.apx,
                        None => r is Err,
                    }
                } else if kind == "process"@ {
                    match process_of(d) {
                        Some(c) => r matches Ok(n) && n.process == c && n.system == g.system
                            && n.http == g.http && n.apx == g.apx,
                        None => r is Err,
                    }
                } else if kind == "http"@ {
                    match http_of(d) {
                        Some(c) => r matches Ok(n) && n.http == c && n.system == g.system
                            && n.process == g.process && n.apx == g.apx,
                        None => r is Err,
                    }
                } else if kind == "apx"@ {
                    match apx_of(d) {
                        Some(c) => r matches Ok(n) && n.apx == c && n.system == g.system
                            && n.process == g.process && n.http == g.http,
                        None => r is Err,
                    }
                } else {
                    r == Ok::<Groups, ReadFault>(g)
                },
                _ => r is Err,
            }
        }),
{
    assert(items.push(PyData::Dict(d)).drop_last() =~= items);
    reveal_strlit("system");
    reveal_strlit("process");
    reveal_strlit("http");
    reveal_strlit("apx");
    assert("system"@.len() == 6 && "process"@.len() == 7 && "http"@.len() == 4 && "apx"@.len()
        == 3);
}

/// A configuration that is read holds the groups of its instrumentations and its resource; without
/// a list of instrumentations there is no configuration.
pub proof fn configurations_are_put_together(d: Entries, items: Seq<PyData>)
    ensures
        lookup(d, "instrumentations"@) is None ==> config_of(PyData::Dict(d)) == Err::<
            TelemetryData,
            ReadFault,
        >(ReadFault::MissingKey("instrumentations"@)),
        lookup(d, "instrumentations"@) == Some(PyData::List(items)) ==> match config_of(
            PyData::Dict(d),
        ) {
            Ok(c) => groups_of(items) matches Ok(g) && c.system == g.system && c.process == g.process
                && c.http == g.http && c.apx == g.apx && (match lookup(d, "resource"@) {
                None => c.resource.attributes.len() == 0 && c.resource.schema_url is None,
                Some(PyData::Dict(r)) => resource_of(r) == Ok::<ResourceData, ReadFault>(c.resource),
                Some(_) => false,
            }),
            Err(_) => groups_of(items) is Err || (lookup(d, "resource"@) matches Some(r) && !(r
                matches PyData::Dict(e) && resource_of(e) is Ok)),
        },
{
}

/// The attributes of a resource are the pairs of key and value in its list, in order, and its
/// schema is the one given.
pub proof fn resources_are_read(
    r: Entries,
    items: Seq<PyData>,
    attributes: Seq<(Seq<char>, Seq<char>)>,
)
    requires
        lookup(r, "attributes"@) == Some(PyData::List(items)),
        items.len() == attributes.len(),
        forall|i: int|
            0 <= i < items.len() ==> (#[trigger] items[i] matches PyData::Dict(a) && lookup(
                a,
                "key"@,
            ) == Some(PyData::Str(attributes[i].0)) && lookup(a, "value"@) == Some(
                PyData::Str(attributes[i].1),
            )),
    ensures
        match lookup(r, "schema_url"@) {
            None => resource_of(r) matches Ok(c) && c.attributes == attributes && c.schema_url is None,
            Some(PyData::Str(url)) => resource_of(r) matches Ok(c) && c.attributes == attributes
                && c.schema_url == Some(url),
            Some(_) => resource_of(r) is Err,
        },
{
    attribute_pairs_are_read(items, attributes);
}

/// Attribute items are read one by one.
proof fn attribute_pairs_are_read(items: Seq<PyData>, attributes: Seq<(Seq<char>, Seq<char>)>)
    requires
        items.len() == attributes.len(),
        forall|i: int|
            0 <= i < items.len() ==> (#[trigger] items[i] matches PyData::Dict(a) && lookup(
                a,
                "key"@,
            ) == Some(PyData::Str(attributes[i].0)) && lookup(a, "value"@) == Some(
                PyData::Str(attributes[i].1),
            )),
    ensures
        attributes_of(items) == Ok::<Seq<(Seq<char>, Seq<char>)>, ReadFault>(attributes),
    decreases items.len(),
{
    if items.len() > 0 {
        let n = items.len() - 1;
        assert forall|i: int| 0 <= i < items.drop_last().len() implies (
        #[trigger] items.drop_last()[i] matches PyData::Dict(a) && lookup(a, "key"@) == Some(
            PyData::Str(attributes.drop_last()[i].0),
        ) && lookup(a, "value"@) == Some(PyData::Str(attributes.drop_last()[i].1))) by {
            assert(items[i] == items.drop_last()[i]);
        }
        attribute_pairs_are_read(items.drop_last(), attributes.drop_last());
        assert(items[n] == items.last());
        assert(attributes.drop_last().push(attributes.last()) =~= attributes);
    } else {
        assert(attributes =~= Seq::empty());
    }
}

/// Configurations are shown as what their fields hold.
pub proof fn configurations_are_shown(h: HttpConfig, r: ResourceConfig, c: TelemetryConfig)
    ensures
        h.data().enabled == h.enabled,
        h.data().capture_request_headers == views(h.capture_request_headers@),
        h.data().capture_response_headers == views(h.capture_response_headers@),
        h.data().sanitize_headers == views(h.sanitize_headers@),
        h.data().metrics == h.metrics,
        r.data().attributes == pair_views(r.attributes@),
        r.data().schema_url is Some <==> r.schema_url is Some,
        r.schema_url matches Some(s) ==> r.data().schema_url == Some(s@),
        c.data().resource == c.resource.data(),
        c.data().system == c.system,
        c.data().process == c.process,
        c.data().http == c.http.data(),
        c.data().apx == c.apx,
{
}

} // verus!

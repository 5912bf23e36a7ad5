//! The HTTP service: limits, probes, and the order in which a request is handled.

use hyper::header::{HeaderMap, HeaderValue};
use vstd::prelude::*;

use crate::headers::{
    check_value, contains, empty, fields, first, has_room, insert, name_char, no_fields, to_str,
    valid_name, valid_value, values_of, visible_text,
};
use crate::transport::{
    protocol_of, told_version, Addr, HttpResponse, HttpVersion, InboundRequest, OutboundResponse,
    ResponseBody,
};
use crate::protocol::ws::session::{is_websocket_upgrade, upgrade_requested};
use crate::text::{
    bytes_of, cut, decimal, decimal_text, same, split, split_on, split_once, trim, trimmed, utf8,
    views,
};

verus! {

/// Limits of the HTTP service.
#[derive(Clone, Copy, PartialEq, Eq, Structural, Debug)]
pub struct ServiceConfig {
    /// Time limit of a request in seconds; zero for none.
    pub timeout_secs: u64,
    /// Most requests handled at once.
    pub max_concurrent: usize,
}

impl ServiceConfig {
    /// The seconds that a request may take, if they are limited.
    pub fn time_limit(&self) -> (out: Option<u64>)
        ensures
            out == (if self.timeout_secs == 0 {
                None
            } else {
                Some(self.timeout_secs)
            }),
    {
        if self.timeout_secs == 0 {
            None
        } else {
            Some(self.timeout_secs)
        }
    }
}

impl Default for ServiceConfig {
    fn default() -> (out: Self)
        ensures
            out == (ServiceConfig { timeout_secs: 30, max_concurrent: 256 }),
    {
        ServiceConfig { timeout_secs: 30, max_concurrent: 256 }
    }
}

/// Name of the header that identifies a request.
pub const REQUEST_ID_HEADER: &'static str = "x-request-id";

/// A header map holds too many names to take another one.
#[derive(Clone, Copy, PartialEq, Eq, Structural, Debug)]
pub struct TooManyHeaders;

/// The name of the request id header is a valid name.
pub proof fn request_id_is_a_name()
    ensures
        valid_name("x-request-id"@),
{
    reveal_strlit("x-request-id");
    assert forall|i: int| 0 <= i < "x-request-id"@.len() implies name_char(
        #[trigger] "x-request-id"@[i],
    ) by {}
}

/// A hyphen stands at this place of a UUID.
pub open spec fn hyphen_at(i: int) -> bool {
    i == 8 || i == 13 || i == 18 || i == 23
}

/// The text of a UUID: thirty-two lower-case hexadecimal digits with four hyphens.
pub open spec fn uuid_text(s: Seq<char>) -> bool {
    &&& s.len() == 36
    &&& forall|i: int|
        0 <= i < 36 ==> if hyphen_at(i) {
            #[trigger] s[i] == '-'
        } else {
            crate::hex_text::is_hex_digit(s[i])
        }
}

/// `Uuid::new_v4().to_string()`: the text of a random UUID. Nothing is claimed of its digits.
#[verifier::external_body]
fn random_uuid() -> (out: String)
    ensures
        uuid_text(out@),
{
    uuid::Uuid::new_v4().to_string()
}

/// The text of a UUID is a header value.
proof fn uuid_is_a_value(s: Seq<char>)
    requires
        uuid_text(s),
    ensures
        valid_value(utf8(s)),
{
    assert(vstd::utf8::is_ascii_chars(s)) by {
        assert forall|i: int| 0 <= i < s.len() implies 0 <= #[trigger] s[i] < 128 by {
            assert(hyphen_at(i) || !hyphen_at(i));
        }
    }
    vstd::utf8::is_ascii_chars_encode_utf8(s);
    assert forall|i: int| 0 <= i < utf8(s).len() implies crate::headers::value_byte(
        #[trigger] utf8(s)[i],
    ) by {
        assert(utf8(s)[i] == s[i] as u8);
        assert(hyphen_at(i) || !hyphen_at(i));
    }
}

/// The headers of a request once it has an id: those it had if they hold one, else with `id`.
pub open spec fn with_id(f: Map<Seq<char>, Seq<Seq<u8>>>, id: Seq<char>) -> Map<
    Seq<char>,
    Seq<Seq<u8>>,
> {
    if f.dom().contains("x-request-id"@) || !valid_value(utf8(id)) {
        f
    } else {
        f.insert("x-request-id"@, seq![utf8(id)])
    }
}

/// Gives a request the id `id` unless it has one. An id that is no header value is left out.
pub fn set_request_id(headers: &mut HeaderMap<HeaderValue>, id: &str) -> (out: Result<
    (),
    TooManyHeaders,
>)
    ensures
        match out {
            Ok(_) => fields(*final(headers)) == with_id(fields(*old(headers)), id@),
            Err(_) => {
                &&& fields(*final(headers)) == fields(*old(headers))
                &&& !has_room(fields(*old(headers)))
                &&& with_id(fields(*old(headers)), id@) != fields(*old(headers))
            },
        },
{
    proof {
        request_id_is_a_name();
    }
    if contains(headers, "x-request-id") {
        return Ok(());
    }
    let bytes = bytes_of(id);
    if check_value(&bytes).is_err() {
        return Ok(());
    }
    assert(crate::headers::held_name("x-request-id"@));
    if insert(headers, "x-request-id", &bytes) {
        Ok(())
    } else {
        assert(with_id(fields(*headers), id@).dom().contains("x-request-id"@));
        Err(TooManyHeaders)
    }
}

/// Makes sure that a request has an id: a random UUID if it came without one.
pub fn ensure_request_id(headers: &mut HeaderMap<HeaderValue>) -> (out: Result<(), TooManyHeaders>)
    ensures
        fields(*old(headers)).dom().contains("x-request-id"@) ==> out is Ok && fields(
            *final(headers),
        ) == fields(*old(headers)),
        has_room(fields(*old(headers))) ==> out is Ok,
        match out {
            Ok(_) => fields(*old(headers)).dom().contains("x-request-id"@) || exists|id: Seq<char>|
                uuid_text(id) && fields(*final(headers)) == #[trigger] fields(*old(headers)).insert(
                    "x-request-id"@,
                    seq![utf8(id)],
                ),
            Err(_) => fields(*final(headers)) == fields(*old(headers)),
        },
{
    let id = random_uuid();
    proof {
        uuid_is_a_value(id@);
    }
    set_request_id(headers, &id)
}

/// A lower case ASCII letter or an ASCII digit.
pub open spec fn lower_or_digit(c: char) -> bool {
    ('a' <= c && c <= 'z') || ('0' <= c && c <= '9')
}

/// A character that a key of a trace state may hold.
pub open spec fn state_key_char(c: char) -> bool {
    lower_or_digit(c) || c == '_' || c == '-' || c == '*' || c == '/' || c == '@'
}

/// A key of a trace state: at most 256 characters, the first a letter or digit. At most one at
/// sign parts off a vendor of at most thirteen characters that begins with a letter or digit.
pub open spec fn state_key(k: Seq<char>) -> bool {
    &&& k.len() <= 256
    &&& k.len() > 0 ==> lower_or_digit(k[0])
    &&& forall|i: int| 0 <= i < k.len() ==> state_key_char(#[trigger] k[i])
    &&& forall|i: int, j: int|
        0 <= i < j < k.len() && #[trigger] k[i] == '@' ==> #[trigger] k[j] != '@' && (j == i + 1
            ==> lower_or_digit(k[j]))
    &&& forall|i: int| 0 <= i < k.len() && #[trigger] k[i] == '@' ==> k.len() <= i + 14
}

/// A value of a trace state: at most 256 bytes without commas and equals signs.
pub open spec fn state_value(v: Seq<char>) -> bool {
    utf8(v).len() <= 256 && !v.contains(',') && !v.contains('=')
}

/// Every pair has a key and a value that a trace state may hold.
pub open spec fn state_pairs(pairs: Seq<(Seq<char>, Seq<char>)>) -> bool {
    forall|i: int|
        0 <= i < pairs.len() ==> state_key((#[trigger] pairs[i]).0) && state_value(pairs[i].1)
}

/// `TraceState::from_key_value`: it accepts the pairs exactly if every key and every value is
/// one that a trace state may hold.
#[verifier::external_body]
fn check_trace_state(pairs: &Vec<(String, String)>) -> (out: bool)
    ensures
        out == state_pairs(crate::text::pair_views(pairs@)),
{
    let items = pairs.iter().map(|p| (p.0.as_str(), p.1.as_str()));
    opentelemetry::trace::TraceState::from_key_value(items).is_ok()
}

/// The pairs in a list of pieces: pieces with an equals sign, trimmed on both sides of the
/// first one; other pieces are passed over.
pub open spec fn pairs_in(pieces: Seq<Seq<char>>) -> Seq<(Seq<char>, Seq<char>)>
    decreases pieces.len(),
{
    if pieces.len() == 0 {
        Seq::empty()
    } else {
        let before = pairs_in(pieces.drop_last());
        match cut(pieces.last(), '=') {
            Some((k, v)) => before.push((trimmed(k), trimmed(v))),
            None => before,
        }
    }
}

/// Reads the pairs out of the text of a `tracestate` header.
pub fn trace_state_pairs(raw: &str) -> (out: Vec<(String, String)>)
    ensures
        crate::text::pair_views(out@) == pairs_in(split_on(raw@, ',')),
{
    let pieces = split(raw, ',');
    let ghost all = views(pieces@);
    let mut out: Vec<(String, String)> = Vec::new();
    assert(crate::text::pair_views(out@) =~= Seq::<(Seq<char>, Seq<char>)>::empty());
    for i in 0..pieces.len()
        invariant
            all == views(pieces@),
            crate::text::pair_views(out@) == pairs_in(all.take(i as int)),
    {
        assert(all.take(i + 1).drop_last() =~= all.take(i as int));
        assert(all.take(i + 1).last() == pieces@[i as int]@);
        match split_once(&pieces[i], '=') {
            Some((k, v)) => {
                let ghost before = out@;
                let ghost pair = (trimmed(k@), trimmed(v@));
                out.push((trim(&k), trim(&v)));
                assert(crate::text::pair_views(out@)
                    =~= crate::text::pair_views(before).push(pair));
            },
            None => {},
        }
    }
    assert(all.take(all.len() as int) =~= all);
    out
}

/// The pairs of a `tracestate` header, or none when it is absent, no visible text, or not
/// accepted.
pub open spec fn trace_state_of(f: Map<Seq<char>, Seq<Seq<u8>>>) -> Seq<(Seq<char>, Seq<char>)> {
    let values = values_of(f, "tracestate"@);
    if values.len() == 0 {
        Seq::empty()
    } else {
        match visible_text(values[0]) {
            None => Seq::empty(),
            Some(raw) => {
                let pairs = pairs_in(split_on(raw, ','));
                if state_pairs(pairs) {
                    pairs
                } else {
                    Seq::empty()
                }
            },
        }
    }
}

/// Reads the `tracestate` header.
pub fn parse_tracestate_header(headers: &HeaderMap<HeaderValue>) -> (out: Vec<(String, String)>)
    ensures
        crate::text::pair_views(out@) == trace_state_of(fields(*headers)),
{
    proof {
        reveal_strlit("tracestate");
        assert(valid_name("tracestate"@));
    }
    let none: Vec<(String, String)> = Vec::new();
    assert(crate::text::pair_views(none@) =~= Seq::<(Seq<char>, Seq<char>)>::empty());
    let raw = match first(headers, "tracestate") {
        Some(v) => match to_str(&v) {
            Some(s) => s,
            None => return none,
        },
        None => return none,
    };
    let pairs = trace_state_pairs(&raw);
    if check_trace_state(&pairs) {
        pairs
    } else {
        none
    }
}

/// The sixteen bytes of the UUID that a text spells, if it spells one.
pub uninterp spec fn uuid_bytes(s: Seq<char>) -> Option<Seq<u8>>;

/// The bytes of an optional UUID.
pub open spec fn id_view(id: Option<[u8; 16]>) -> Option<Seq<u8>> {
    match id {
        Some(b) => Some(b@),
        None => None,
    }
}

/// `Uuid::parse_str`: the bytes of the UUID that the text spells. The result depends on the
/// text alone; which spellings are accepted only has a name here.
#[verifier::external_body]
fn parse_uuid(s: &str) -> (out: Option<[u8; 16]>)
    ensures
        id_view(out) == uuid_bytes(s@),
{
    uuid::Uuid::parse_str(s).ok().map(|u| *u.as_bytes())
}

/// The id of a request as text, if the header is there and visible.
pub open spec fn request_id_of(f: Map<Seq<char>, Seq<Seq<u8>>>) -> Option<Seq<char>> {
    let values = values_of(f, "x-request-id"@);
    if values.len() == 0 {
        None
    } else {
        visible_text(values[0])
    }
}

/// Reads the id of a request.
pub fn request_id(headers: &HeaderMap<HeaderValue>) -> (out: Option<String>)
    ensures
        match out {
            Some(s) => request_id_of(fields(*headers)) == Some(s@),
            None => request_id_of(fields(*headers)) is None,
        },
{
    proof {
        request_id_is_a_name();
    }
    match first(headers, "x-request-id") {
        Some(v) => to_str(&v),
        None => None,
    }
}

/// The trace id that a request id gives: the bytes of the UUID that it spells.
pub open spec fn trace_id_of(f: Map<Seq<char>, Seq<Seq<u8>>>) -> Option<Seq<u8>> {
    match request_id_of(f) {
        Some(s) => uuid_bytes(s),
        None => None,
    }
}

/// Reads the request id as a trace id.
pub fn parse_request_id_as_trace_id(headers: &HeaderMap<HeaderValue>) -> (out: Option<[u8; 16]>)
    ensures
        id_view(out) == trace_id_of(fields(*headers)),
{
    match request_id(headers) {
        Some(s) => parse_uuid(&s),
        None => None,
    }
}

/// The span of a request: its attributes, and the remote parent that its id gives.
#[derive(Debug)]
pub struct RequestSpan {
    /// Method of the request.
    pub method: String,
    /// Scheme of the request.
    pub scheme: String,
    /// Path of the request.
    pub path: String,
    /// Id of the request, empty when it has none.
    pub request_id: String,
    /// Trace id of the remote parent, if there is one.
    pub trace_id: Option<[u8; 16]>,
    /// Trace state of the remote parent.
    pub trace_state: Vec<(String, String)>,
}

/// Describes the span of a request, given the id that it has and the trace id read from it.
pub fn request_span(
    method: &str,
    scheme: &str,
    path: &str,
    id: Option<String>,
    trace_id: Option<[u8; 16]>,
    trace_state: Vec<(String, String)>,
) -> (out: RequestSpan)
    ensures
        out.method@ == method@,
        out.scheme@ == scheme@,
        out.path@ == path@,
        out.request_id@ == (match id {
            Some(s) => s@,
            None => Seq::<char>::empty(),
        }),
        out.trace_id == trace_id,
        out.trace_state@ == (if trace_id is Some {
            trace_state@
        } else {
            Seq::<(String, String)>::empty()
        }),
{
    RequestSpan {
        method: method.to_owned(),
        scheme: scheme.to_owned(),
        path: path.to_owned(),
        request_id: match id {
            Some(s) => s,
            None => String::new(),
        },
        trace_id,
        trace_state: if trace_id.is_some() {
            trace_state
        } else {
            Vec::new()
        },
    }
}

/// Describes the span of a request. With a request id that spells a UUID the span joins the
/// trace of that id, with the trace state of the request.
pub fn build_request_span(
    headers: &HeaderMap<HeaderValue>,
    method: &str,
    scheme: &str,
    path: &str,
) -> (out: RequestSpan)
    ensures
        out.method@ == method@,
        out.scheme@ == scheme@,
        out.path@ == path@,
        out.request_id@ == (match request_id_of(fields(*headers)) {
            Some(s) => s,
            None => Seq::<char>::empty(),
        }),
        id_view(out.trace_id) == trace_id_of(fields(*headers)),
        crate::text::pair_views(out.trace_state@) == (if trace_id_of(
            fields(*headers),
        ) is Some {
            trace_state_of(fields(*headers))
        } else {
            Seq::<(Seq<char>, Seq<char>)>::empty()
        }),
{
    let id = request_id(headers);
    let trace_id = parse_request_id_as_trace_id(headers);
    let trace_state = parse_tracestate_header(headers);
    let out = request_span(method, scheme, path, id, trace_id, trace_state);
    assert(out.trace_id is None ==> crate::text::pair_views(out.trace_state@)
        =~= Seq::<(Seq<char>, Seq<char>)>::empty());
    out
}

/// A response with one content type and a known body.
pub open spec fn plain_response(r: HttpResponse, status: u16, kind: Seq<char>, body: Seq<char>) -> bool {
    &&& r.status == status
    &&& fields(r.headers) == no_fields().insert("content-type"@, seq![utf8(kind)])
    &&& r.body matches ResponseBody::Fixed(b) && b@ == utf8(body)
}

/// The name of the content type header is a valid name.
pub proof fn content_type_is_a_name()
    ensures
        valid_name("content-type"@),
        crate::headers::held_name("content-type"@),
{
    reveal_strlit("content-type");
}

/// Headers that hold one content type.
pub fn content_type(kind: &str) -> (out: HeaderMap<HeaderValue>)
    requires
        valid_value(utf8(kind@)),
    ensures
        fields(out) == no_fields().insert("content-type"@, seq![utf8(kind@)]),
{
    proof {
        content_type_is_a_name();
    }
    let mut headers = empty();
    let bytes = bytes_of(kind);
    assert(has_room(no_fields()));
    insert(&mut headers, "content-type", &bytes);
    headers
}

/// A text of visible ASCII characters is a header value.
pub proof fn ascii_is_a_value(s: Seq<char>)
    requires
        forall|i: int| 0 <= i < s.len() ==> ' ' <= #[trigger] s[i] && s[i] <= '~',
    ensures
        valid_value(utf8(s)),
        utf8(s).len() == s.len(),
        forall|i: int| 0 <= i < s.len() ==> #[trigger] utf8(s)[i] == s[i] as u8,
{
    assert(vstd::utf8::is_ascii_chars(s));
    vstd::utf8::is_ascii_chars_encode_utf8(s);
    assert forall|i: int| 0 <= i < utf8(s).len() implies crate::headers::value_byte(
        #[trigger] utf8(s)[i],
    ) by {
        assert(utf8(s)[i] == s[i] as u8);
    }
}

/// Content type of plain text.
proof fn text_plain_is_a_value()
    ensures
        valid_value(utf8("text/plain"@)),
{
    reveal_strlit("text/plain");
    ascii_is_a_value("text/plain"@);
}

/// A plain text response.
pub fn error_response(status: u16, body: &str) -> (out: HttpResponse)
    ensures
        plain_response(out, status, "text/plain"@, body@),
{
    proof {
        text_plain_is_a_value();
    }
    HttpResponse {
        status,
        headers: content_type("text/plain"),
        body: ResponseBody::Fixed(bytes_of(body)),
    }
}

/// What a probe of this path answers, if it is one.
pub open spec fn probe_body(path: Seq<char>) -> Option<Seq<char>> {
    if path == "/healthz"@ {
        Some("{\"status\":\"alive\"}"@)
    } else if path == "/readyz"@ {
        Some("{\"status\":\"ready\"}"@)
    } else {
        None
    }
}

/// Answers a health probe; other paths are no probes.
pub fn probe_response(path: &str) -> (out: Option<HttpResponse>)
    ensures
        match out {
            Some(r) => probe_body(path@) is Some && plain_response(
                r,
                200,
                "application/json"@,
                probe_body(path@)->0,
            ),
            None => probe_body(path@) is None,
        },
{
    proof {
        reveal_strlit("application/json");
        ascii_is_a_value("application/json"@);
    }
    let body = if same(path, "/healthz") {
        "{\"status\":\"alive\"}"
    } else if same(path, "/readyz") {
        "{\"status\":\"ready\"}"
    } else {
        return None;
    };
    Some(
        HttpResponse {
            status: 200,
            headers: content_type("application/json"),
            body: ResponseBody::Fixed(bytes_of(body)),
        },
    )
}

/// Turns a response of the application into the one that is sent.
pub fn outbound_to_hyper(resp: OutboundResponse) -> (out: HttpResponse)
    ensures
        out == (HttpResponse { status: resp.status, headers: resp.headers, body: resp.body }),
{
    HttpResponse { status: resp.status, headers: resp.headers, body: resp.body }
}

/// How a request is handled.
pub enum Route {
    /// It is a health probe with this answer.
    Probe(HttpResponse),
    /// It asks for a WebSocket.
    WebSocket,
    /// It goes to the application.
    Http,
}

/// How a request with this path and these headers is handled: probes first, then WebSockets.
pub open spec fn routed(path: Seq<char>, f: Map<Seq<char>, Seq<Seq<u8>>>, out: Route) -> bool {
    match out {
        Route::Probe(r) => probe_body(path) is Some && plain_response(
            r,
            200,
            "application/json"@,
            probe_body(path)->0,
        ),
        Route::WebSocket => probe_body(path) is None && upgrade_requested(f),
        Route::Http => probe_body(path) is None && !upgrade_requested(f),
    }
}

/// Chooses how a request is handled.
pub fn handle(path: &str, headers: &HeaderMap<HeaderValue>) -> (out: Route)
    ensures
        routed(path@, fields(*headers), out),
{
    match probe_response(path) {
        Some(r) => Route::Probe(r),
        None => if is_websocket_upgrade(headers) {
            Route::WebSocket
        } else {
            Route::Http
        },
    }
}

/// How the dispatch of a request went.
pub enum DispatchOutcome {
    /// Too many requests were in flight; it was not dispatched.
    NoPermit,
    /// It took too long.
    TimedOut,
    /// The application answered.
    Answered(OutboundResponse),
}

/// What follows from the dispatch of a request.
pub struct Handled {
    /// The response.
    pub response: HttpResponse,
    /// Whether the permit is kept until the body has been sent.
    pub keeps_permit: bool,
    /// The route recorded in metrics.
    pub route: String,
    /// The kind of error recorded in metrics, if it is one.
    pub error_type: Option<String>,
}

/// The kind of error that a status is: its number from 400 on.
pub open spec fn error_kind(status: u16) -> Option<Seq<char>> {
    if status >= 400 {
        Some(decimal(status as nat))
    } else {
        None
    }
}

/// An optional text.
pub open spec fn opt_view(s: Option<String>) -> Option<Seq<char>> {
    match s {
        Some(t) => Some(t@),
        None => None,
    }
}

/// Finishes a request: overload is 503 and a timeout 408, both with plain text; an answer is
/// passed on, and only a streamed one keeps its permit.
pub fn handle_http(outcome: DispatchOutcome, path: &str) -> (out: Handled)
    ensures
        opt_view(out.error_type) == error_kind(out.response.status),
        match outcome {
            DispatchOutcome::NoPermit => {
                &&& plain_response(out.response, 503, "text/plain"@, "service overloaded"@)
                &&& !out.keeps_permit
                &&& out.route@ == Seq::<char>::empty()
            },
            DispatchOutcome::TimedOut => {
                &&& plain_response(out.response, 408, "text/plain"@, "request timeout"@)
                &&& !out.keeps_permit
                &&& out.route@ == path@
            },
            DispatchOutcome::Answered(o) => {
                &&& out.response == (HttpResponse {
                    status: o.status,
                    headers: o.headers,
                    body: o.body,
                })
                &&& out.keeps_permit == (o.body is Stream)
                &&& out.route@ == (match o.server_route {
                    Some(r) => r@,
                    None => path@,
                })
            },
        },
{
    match outcome {
        DispatchOutcome::NoPermit => {
            let response = error_response(503, "service overloaded");
            let error_type = Some(decimal_text(503));
            Handled { response, keeps_permit: false, route: String::new(), error_type }
        },
        DispatchOutcome::TimedOut => {
            let response = error_response(408, "request timeout");
            let error_type = Some(decimal_text(408));
            Handled { response, keeps_permit: false, route: path.to_owned(), error_type }
        },
        DispatchOutcome::Answered(o) => {
            let keeps_permit = match &o.body {
                ResponseBody::Stream => true,
                ResponseBody::Fixed(_) => false,
            };
            let route = match &o.server_route {
                Some(r) => r.clone(),
                None => path.to_owned(),
            };
            let error_type = if o.status >= 400 {
                Some(decimal_text(o.status as u64))
            } else {
                None
            };
            Handled { response: outbound_to_hyper(o), keeps_permit, route, error_type }
        },
    }
}

/// The requests that a worker has in flight. A request counts from its admission until it is
/// answered, and one whose answer is streamed until its body has ended.
#[derive(Clone, Copy, PartialEq, Eq, Structural, Debug)]
pub struct Admission {
    /// Most requests in flight.
    pub limit: usize,
    /// Requests in flight.
    pub taken: usize,
}

/// What happened to a request.
#[derive(Clone, Copy, PartialEq, Eq, Structural, Debug)]
pub enum AdmissionEvent {
    /// It arrived.
    Arrived,
    /// It was admitted, and it was answered or timed out; the flag says whether its answer is
    /// streamed.
    Settled(bool),
    /// The body of its answer has ended, or the client went away.
    StreamEnded,
}

/// The requests in flight after an event.
pub open spec fn admitted(a: Admission, e: AdmissionEvent) -> Admission {
    match e {
        AdmissionEvent::Arrived => if a.taken < a.limit {
            Admission { taken: (a.taken + 1) as usize, ..a }
        } else {
            a
        },
        AdmissionEvent::Settled(streams) => if streams || a.taken == 0 {
            a
        } else {
            Admission { taken: (a.taken - 1) as usize, ..a }
        },
        AdmissionEvent::StreamEnded => if a.taken == 0 {
            a
        } else {
            Admission { taken: (a.taken - 1) as usize, ..a }
        },
    }
}

impl Admission {
    /// No more requests are in flight than there may be.
    pub open spec fn well_formed(&self) -> bool {
        self.taken <= self.limit
    }

    /// Nothing is in flight.
    pub fn new(config: &ServiceConfig) -> (out: Admission)
        ensures
            out.well_formed(),
            out == (Admission { limit: config.max_concurrent, taken: 0 }),
    {
        Admission { limit: config.max_concurrent, taken: 0 }
    }

    /// Takes an event; the result says whether a request that arrived is admitted.
    pub fn step(&mut self, event: AdmissionEvent) -> (out: bool)
        requires
            old(self).well_formed(),
        ensures
            final(self).well_formed(),
            *final(self) == admitted(*old(self), event),
            out == (event == AdmissionEvent::Arrived && old(self).taken < old(self).limit),
    {
        match event {
            AdmissionEvent::Arrived => {
                if self.taken < self.limit {
                    self.taken = self.taken + 1;
                    return true;
                }
            },
            AdmissionEvent::Settled(streams) => {
                if !streams && self.taken > 0 {
                    self.taken = self.taken - 1;
                }
            },
            AdmissionEvent::StreamEnded => {
                if self.taken > 0 {
                    self.taken = self.taken - 1;
                }
            },
        }
        false
    }
}

/// The requests in flight after a series of events.
pub open spec fn admission_run(limit: usize, events: Seq<AdmissionEvent>) -> Admission
    decreases events.len(),
{
    if events.len() == 0 {
        Admission { limit, taken: 0 }
    } else {
        admitted(admission_run(limit, events.drop_last()), events.last())
    }
}

/// Whatever happens, there are never more requests in flight than the limit.
pub proof fn the_limit_holds(limit: usize, events: Seq<AdmissionEvent>)
    ensures
        admission_run(limit, events).well_formed(),
        admission_run(limit, events).limit == limit,
    decreases events.len(),
{
    if events.len() > 0 {
        the_limit_holds(limit, events.drop_last());
    }
}

/// A request with a streamed answer stays in flight until its body has ended: only then is there
/// room for another one.
pub proof fn streams_count_until_they_end(a: Admission)
    requires
        a.well_formed(),
        a.taken < a.limit,
    ensures
        ({
            let arrived = admitted(a, AdmissionEvent::Arrived);
            let streaming = admitted(arrived, AdmissionEvent::Settled(true));
            &&& streaming.taken == a.taken + 1
            &&& admitted(streaming, AdmissionEvent::StreamEnded) == a
            &&& admitted(arrived, AdmissionEvent::Settled(false)) == a
        }),
{
}

/// What is known of a request when it arrives.
pub struct RequestHead {
    /// Method.
    pub method: String,
    /// Path.
    pub path: String,
    /// Query string, if there is one.
    pub query: Option<String>,
    /// Headers.
    pub headers: HeaderMap<HeaderValue>,
    /// HTTP version.
    pub version: HttpVersion,
    /// Whether a body follows.
    pub has_body: bool,
}

/// Builds the request that the application gets: the head with an id, an empty query when
/// there is none, and the version it is told.
pub fn inbound_from_hyper(head: RequestHead, server_addr: Addr, client_addr: Option<Addr>) -> (out:
    Result<InboundRequest, TooManyHeaders>)
    ensures
        has_room(fields(head.headers)) ==> out is Ok,
        match out {
            Ok(r) => {
                &&& r.method == head.method
                &&& r.path == head.path
                &&& r.query_string@ == (match head.query {
                    Some(q) => utf8(q@),
                    None => Seq::<u8>::empty(),
                })
                &&& if fields(head.headers).dom().contains("x-request-id"@) {
                    fields(r.headers) == fields(head.headers)
                } else {
                    exists|id: Seq<char>|
                        uuid_text(id) && fields(r.headers) == #[trigger] fields(
                            head.headers,
                        ).insert("x-request-id"@, seq![utf8(id)])
                }
                &&& r.protocol == told_version(head.version)
                &&& r.has_body == head.has_body
                &&& r.client_addr == client_addr
                &&& r.server_addr == server_addr
                &&& r.path_params@.len() == 0
            },
            Err(_) => !has_room(fields(head.headers)) && !fields(head.headers).dom().contains(
                "x-request-id"@,
            ),
        },
{
    let mut headers = head.headers;
    match ensure_request_id(&mut headers) {
        Ok(_) => {},
        Err(e) => return Err(e),
    }
    let query_string = match &head.query {
        Some(q) => bytes_of(q),
        None => Vec::new(),
    };
    Ok(
        InboundRequest {
            method: head.method,
            path: head.path,
            query_string,
            headers,
            protocol: protocol_of(head.version),
            has_body: head.has_body,
            client_addr,
            server_addr,
            path_params: Vec::new(),
        },
    )
}

/// A request reaches the application exactly if it is no health probe, whatever its headers ask for;
/// it is upgraded then exactly if they ask for it.
pub proof fn probes_bypass_the_application(
    path: Seq<char>,
    f: Map<Seq<char>, Seq<Seq<u8>>>,
    out: Route,
)
    requires
        routed(path, f, out),
    ensures
        out is Probe <==> (path == "/healthz"@ || path == "/readyz"@),
        out is WebSocket <==> !(out is Probe) && upgrade_requested(f),
{
}

/// Giving a request an id a second time changes nothing: the first id stays.
pub proof fn request_id_is_stable(
    f: Map<Seq<char>, Seq<Seq<u8>>>,
    first: Seq<char>,
    second: Seq<char>,
)
    requires
        valid_value(utf8(first)),
    ensures
        with_id(with_id(f, first), second) == with_id(f, first),
        with_id(f, first).dom().contains("x-request-id"@),
        forall|name: Seq<char>|
            name != "x-request-id"@ ==> #[trigger] values_of(with_id(f, first), name) == values_of(
                f,
                name,
            ),
{
}

/// A probe is answered with status 200 and a JSON text that says alive or ready.
pub proof fn probes_are_answered(path: Seq<char>, f: Map<Seq<char>, Seq<Seq<u8>>>, out: Route)
    requires
        routed(path, f, out),
        path == "/healthz"@ || path == "/readyz"@,
    ensures
        out matches Route::Probe(r) && r.status == 200 && values_of(
            fields(r.headers),
            "content-type"@,
        ) == seq![utf8("application/json"@)] && (r.body matches ResponseBody::Fixed(b) && b@ == (
        if path == "/healthz"@ {
            utf8("{\"status\":\"alive\"}"@)
        } else {
            utf8("{\"status\":\"ready\"}"@)
        })),
{
}

/// A plain response has the status, the kind and the text that it was made with, and no other
/// header.
pub proof fn plain_responses_carry_their_text(
    r: HttpResponse,
    status: u16,
    kind: Seq<char>,
    body: Seq<char>,
    name: Seq<char>,
)
    requires
        plain_response(r, status, kind, body),
    ensures
        r.status == status,
        values_of(fields(r.headers), "content-type"@) == seq![utf8(kind)],
        name != "content-type"@ ==> values_of(fields(r.headers), name).len() == 0,
        r.body matches ResponseBody::Fixed(b) && b@ == utf8(body),
{
}

/// Answers from 400 on are errors, and their kind is the status in digits.
pub proof fn error_kinds_are_the_status(status: u16)
    ensures
        status >= 400 ==> error_kind(status) == Some(decimal(status as nat)),
        status < 400 ==> error_kind(status) is None,
{
}

/// A request id is the text of the first header of that name, if it is text; the trace id is read
/// from it.
pub proof fn the_first_request_id_counts(
    f: Map<Seq<char>, Seq<Seq<u8>>>,
    value: Seq<u8>,
    more: Seq<Seq<u8>>,
)
    ensures
        ({
            let g = f.insert("x-request-id"@, seq![value] + more);
            &&& request_id_of(g) == visible_text(value)
            &&& visible_text(value) matches Some(s) ==> trace_id_of(g) == uuid_bytes(s)
            &&& visible_text(value) is None ==> trace_id_of(g) is None
        }),
        !f.dom().contains("x-request-id"@) ==> request_id_of(f) is None && trace_id_of(f) is None,
{
    assert((seq![value] + more)[0] == value);
}

/// An id is set only where there is none, and then it is the id that was given.
pub proof fn missing_request_ids_are_set(f: Map<Seq<char>, Seq<Seq<u8>>>, id: Seq<char>)
    requires
        valid_value(utf8(id)),
    ensures
        f.dom().contains("x-request-id"@) ==> with_id(f, id) == f,
        !f.dom().contains("x-request-id"@) ==> values_of(with_id(f, id), "x-request-id"@) == seq![
            utf8(id),
        ],
{
}

/// Each piece with an equals sign is a pair, cut at the first one and trimmed; other pieces are
/// passed over; the order is kept.
pub proof fn trace_pairs_are_read(
    pieces: Seq<Seq<char>>,
    key: Seq<char>,
    value: Seq<char>,
    other: Seq<char>,
)
    requires
        !key.contains('='),
        !other.contains('='),
    ensures
        pairs_in(Seq::empty()).len() == 0,
        pairs_in(pieces.push(key + seq!['='] + value)) == pairs_in(pieces).push(
            (trimmed(key), trimmed(value)),
        ),
        pairs_in(pieces.push(other)) == pairs_in(pieces),
{
    assert(pieces.push(key + seq!['='] + value).drop_last() =~= pieces);
    assert(pieces.push(other).drop_last() =~= pieces);
    crate::text::cuts_are_at_the_first(key, '=', value);
    crate::text::cuts_are_at_the_first(other, '=', Seq::empty());
}

/// The state of a trace is read from the first header of that name, whole or not at all.
pub proof fn the_first_trace_state_counts(
    f: Map<Seq<char>, Seq<Seq<u8>>>,
    value: Seq<u8>,
    raw: Seq<char>,
    more: Seq<Seq<u8>>,
)
    requires
        visible_text(value) == Some(raw),
    ensures
        ({
            let g = f.insert("tracestate"@, seq![value] + more);
            let pairs = pairs_in(split_on(raw, ','));
            &&& state_pairs(pairs) ==> trace_state_of(g) == pairs
            &&& !state_pairs(pairs) ==> trace_state_of(g).len() == 0
        }),
        !f.dom().contains("tracestate"@) ==> trace_state_of(f).len() == 0,
{
    assert((seq![value] + more)[0] == value);
}

/// A request that arrives takes a place if one is free; it is given back when the request has
/// settled, or for a stream when the stream has ended.
pub proof fn places_are_taken_and_given_back(a: Admission)
    ensures
        a.taken < a.limit ==> admitted(a, AdmissionEvent::Arrived).taken == a.taken + 1,
        a.taken >= a.limit ==> admitted(a, AdmissionEvent::Arrived) == a,
        a.taken > 0 ==> admitted(a, AdmissionEvent::Settled(false)).taken == a.taken - 1,
        a.taken > 0 ==> admitted(a, AdmissionEvent::StreamEnded).taken == a.taken - 1,
        admitted(a, AdmissionEvent::Settled(true)) == a,
        forall|e: AdmissionEvent| (#[trigger] admitted(a, e)).limit == a.limit,
{
}

/// Views keep the text and the bytes.
pub proof fn optional_views_are_kept(s: String, id: [u8; 16])
    ensures
        opt_view(Some(s)) == Some(s@),
        opt_view(None) is None,
        id_view(Some(id)) == Some(id@),
        id_view(None) is None,
{
}

} // verus!

//! From the dispatch pipeline back to a response, and errors on the way.

use hyper::header::{HeaderMap, HeaderValue};
use vstd::prelude::*;

use crate::asgi::event::Fields;
use crate::asgi::receive::{AsgiReceive, ReceiveData};
use crate::asgi::scope::{app_entries, http_scope, listing, scope_from_template, ScopeInterns};
use crate::asgi::send::{status_or_500, usable_status};
use crate::asgi::slot_send::{unused_send, ResponseData, SlotSend};
use crate::headers::{
    append, check_value, empty, fields, has_room, name_of, no_fields, parse_name,
    parsed_name_is_held, valid_value, values_of,
};
use crate::protocol::http::error::AppError;
use crate::protocol::http::service::{ascii_is_a_value, content_type};
use crate::python_value::{dict_data, PyData, PyValue};
use crate::text::{bytes_of, utf8};
use crate::transport::{Addr, InboundRequest, OutboundResponse, ProtocolVersion, ResponseBody};

verus! {

/// Why raw header lines make no headers.
pub enum LineFault {
    /// A name is no header name.
    Name,
    /// A value is no header value.
    Value,
}

/// The headers that raw lines make: values of one name in order; the first bad line decides
/// the fault, and in a line the name is looked at first.
pub open spec fn fields_of(l: Seq<(Vec<u8>, Vec<u8>)>) -> Result<Fields, LineFault>
    decreases l.len(),
{
    if l.len() == 0 {
        Ok(no_fields())
    } else {
        match fields_of(l.drop_last()) {
            Err(e) => Err(e),
            Ok(f) => match name_of(l.last().0@) {
                None => Err(LineFault::Name),
                Some(n) => if valid_value(l.last().1@) {
                    Ok(f.insert(n, values_of(f, n).push(l.last().1@)))
                } else {
                    Err(LineFault::Value)
                },
            },
        }
    }
}

/// A fault in the front of the lines is the fault of them all.
proof fn first_line_fault(l: Seq<(Vec<u8>, Vec<u8>)>, n: int)
    requires
        0 <= n <= l.len(),
        fields_of(l.take(n)) is Err,
    ensures
        fields_of(l) == fields_of(l.take(n)),
    decreases l.len() - n,
{
    if n < l.len() {
        assert(l.take(n + 1).drop_last() =~= l.take(n));
        first_line_fault(l, n + 1);
    } else {
        assert(l.take(n) =~= l);
    }
}

/// The headers have more names than a header map is sure to take one more value to.
pub open spec fn is_full(f: Result<Fields, LineFault>) -> bool {
    match f {
        Ok(f) => !has_room(f),
        Err(_) => false,
    }
}

/// There is a line before which the headers are full already.
pub open spec fn fills_up(l: Seq<(Vec<u8>, Vec<u8>)>) -> bool {
    exists|n: int| 0 <= n < l.len() && is_full(#[trigger] fields_of(l.take(n)))
}

/// Names only grow along the lines.
proof fn names_grow(l: Seq<(Vec<u8>, Vec<u8>)>, n: int)
    requires
        0 <= n <= l.len(),
        fields_of(l) is Ok,
    ensures
        fields_of(l.take(n)) is Ok,
        fields_of(l)->Ok_0.dom().finite(),
        fields_of(l.take(n))->Ok_0.dom().subset_of(fields_of(l)->Ok_0.dom()),
    decreases l.len(),
{
    if n == l.len() {
        assert(l.take(n) =~= l);
        if l.len() > 0 {
            names_grow(l.drop_last(), n - 1);
        }
    } else {
        assert(l.drop_last().take(n) =~= l.take(n));
        names_grow(l.drop_last(), n);
    }
}

/// Lines whose names all find room never fill the headers up, however many values the names have.
pub proof fn room_for_all_is_room_on_the_way(l: Seq<(Vec<u8>, Vec<u8>)>)
    requires
        fields_of(l) matches Ok(f) && has_room(f),
    ensures
        !fills_up(l),
{
    assert forall|n: int| 0 <= n < l.len() implies !is_full(#[trigger] fields_of(l.take(n))) by {
        names_grow(l, n);
        let few = fields_of(l.take(n))->Ok_0.dom();
        let all = fields_of(l)->Ok_0.dom();
        vstd::set_lib::lemma_len_subset(few, all);
    }
}

/// The texts with which bad header lines are logged.
pub open spec fn fault_text(f: LineFault) -> Seq<char> {
    match f {
        LineFault::Name => "invalid header name: "@ + "invalid HTTP header name"@,
        LineFault::Value => "invalid header value: "@ + "failed to parse header value"@,
    }
}

/// Turns the beginning of a response into one whose body is streamed. A status that no
/// response can have becomes 500; a bad header line is an internal error, and so are more
/// names than a header map takes.
pub fn response_data_to_outbound(data: &ResponseData) -> (out: Result<OutboundResponse, AppError>)
    ensures
        match out {
            Ok(r) => {
                &&& r.status == usable_status(data.status)
                &&& fields_of(data.headers@) == Ok::<Fields, LineFault>(fields(r.headers))
                &&& r.body is Stream
                &&& r.server_route is None
            },
            Err(AppError::Internal(text)) => {
                ||| fields_of(data.headers@) matches Err(f) && text@ == fault_text(f)
                ||| fills_up(data.headers@) && text@ == "too many headers"@
            },
            Err(AppError::Timeout) => false,
        },
        fields_of(data.headers@) matches Ok(f) ==> has_room(f) ==> out is Ok,
{
    let l = &data.headers;
    let mut headers = empty();
    for i in 0..l.len()
        invariant
            l@ == data.headers@,
            fields_of(l@.take(i as int)) == Ok::<Fields, LineFault>(fields(headers)),
    {
        assert(l@.take(i + 1).drop_last() =~= l@.take(i as int));
        let name = match parse_name(&l[i].0) {
            Ok(n) => n,
            Err(e) => {
                proof {
                    first_line_fault(l@, i + 1);
                }
                return Err(
                    AppError::Internal(String::from_str("invalid header name: ").concat(&e)),
                );
            },
        };
        proof {
            parsed_name_is_held(l@[i as int].0@);
        }
        match check_value(&l[i].1) {
            Ok(_) => {},
            Err(e) => {
                proof {
                    first_line_fault(l@, i + 1);
                }
                return Err(
                    AppError::Internal(String::from_str("invalid header value: ").concat(&e)),
                );
            },
        }
        if !append(&mut headers, &name, &l[i].1) {
            assert(is_full(fields_of(l@.take(i as int))));
            proof {
                if fields_of(l@) matches Ok(f) && has_room(f) {
                    room_for_all_is_room_on_the_way(l@);
                }
            }
            return Err(AppError::Internal(String::from_str("too many headers")));
        }
    }
    assert(l@.take(l@.len() as int) =~= l@);
    Ok(
        OutboundResponse {
            status: status_or_500(data.status),
            headers,
            body: ResponseBody::Stream,
            server_route: None,
        },
    )
}

/// What a client is told of an error.
pub open spec fn client_text(e: AppError) -> Seq<char> {
    match e {
        AppError::Timeout => "request timeout"@,
        AppError::Internal(_) => "Internal Server Error"@,
    }
}

/// The response to an error: its status and a fixed plain text.
pub fn error_response(err: &AppError) -> (out: OutboundResponse)
    ensures
        out.status == err.status(),
        fields(out.headers) == no_fields().insert("content-type"@, seq![utf8("text/plain"@)]),
        out.body matches ResponseBody::Fixed(b) && b@ == utf8(client_text(*err)),
        out.server_route is None,
{
    proof {
        reveal_strlit("text/plain");
        ascii_is_a_value("text/plain"@);
    }
    let status = err.status_code();
    let body = match err {
        AppError::Timeout => bytes_of("request timeout"),
        AppError::Internal(_) => bytes_of("Internal Server Error"),
    };
    OutboundResponse {
        status,
        headers: content_type("text/plain"),
        body: ResponseBody::Fixed(body),
        server_route: None,
    }
}

/// What a client is told of an internal error does not depend on the error.
pub proof fn internal_errors_do_not_leak(a: String, b: String)
    ensures
        client_text(AppError::Internal(a)) == client_text(AppError::Internal(b)),
        AppError::Internal(a).status() == AppError::Internal(b).status(),
{
}

/// Where the pipeline failed.
pub enum PipelineFault {
    /// The body could not be collected; why.
    Body(String),
    /// The application side takes no more requests.
    InboundClosed,
    /// The application side went away before it answered.
    ResponseClosed,
}

/// The text with which a failed pipeline is logged.
pub open spec fn pipeline_text(f: PipelineFault) -> Seq<char> {
    match f {
        PipelineFault::Body(e) => "body collect: "@ + e@,
        PipelineFault::InboundClosed => "inbound channel closed"@,
        PipelineFault::ResponseClosed => "response channel closed"@,
    }
}

/// The error that a failed pipeline is.
pub fn pipeline_error(fault: PipelineFault) -> (out: AppError)
    ensures
        out matches AppError::Internal(t) && t@ == pipeline_text(fault),
{
    AppError::Internal(
        match fault {
            PipelineFault::Body(e) => String::from_str("body collect: ").concat(&e),
            PipelineFault::InboundClosed => String::from_str("inbound channel closed"),
            PipelineFault::ResponseClosed => String::from_str("response channel closed"),
        },
    )
}

/// The response to an internal error.
pub open spec fn is_internal_error(r: OutboundResponse) -> bool {
    &&& r.status == 500
    &&& fields(r.headers) == no_fields().insert("content-type"@, seq![utf8("text/plain"@)])
    &&& r.server_route is None
    &&& r.body matches ResponseBody::Fixed(b) && b@ == utf8("Internal Server Error"@)
}

/// Finishes a dispatch: the response, or the error response of what went wrong.
pub fn dispatch_pipeline(result: Result<ResponseData, PipelineFault>) -> (out: OutboundResponse)
    ensures
        match result {
            Ok(d) => match fields_of(d.headers@) {
                Ok(f) => {
                    ||| out.status == usable_status(d.status) && fields(out.headers) == f
                        && out.body is Stream && out.server_route is None
                    ||| fills_up(d.headers@) && is_internal_error(out)
                },
                Err(_) => is_internal_error(out),
            },
            Err(_) => is_internal_error(out),
        },
        match result {
            Ok(d) => match fields_of(d.headers@) {
                Ok(f) => has_room(f) ==> out.body is Stream,
                Err(_) => true,
            },
            Err(_) => true,
        },
{
    match result {
        Ok(d) => match response_data_to_outbound(&d) {
            Ok(r) => r,
            Err(e) => error_response(&e),
        },
        Err(f) => error_response(&pipeline_error(f)),
    }
}

/// A request on its way to the Python side, with its whole body.
#[derive(Debug)]
pub struct RequestSlot {
    /// Method.
    pub method: String,
    /// Path, not decoded.
    pub path: String,
    /// The bytes of the path.
    pub raw_path: Vec<u8>,
    /// Query string.
    pub query_string: Vec<u8>,
    /// Headers.
    pub headers: HeaderMap<HeaderValue>,
    /// Body.
    pub body: Vec<u8>,
    /// HTTP version.
    pub protocol: ProtocolVersion,
    /// Address of the client, if known.
    pub client_addr: Option<Addr>,
    /// Address of the server.
    pub server_addr: Addr,
}

/// The slot carries the request with this body.
pub open spec fn carries(slot: RequestSlot, request: InboundRequest, body: Seq<u8>) -> bool {
    &&& slot.method == request.method
    &&& slot.path == request.path
    &&& slot.raw_path@ == utf8(request.path@)
    &&& slot.query_string == request.query_string
    &&& slot.headers == request.headers
    &&& slot.body@ == body
    &&& slot.protocol == request.protocol
    &&& slot.client_addr == request.client_addr
    &&& slot.server_addr == request.server_addr
}

/// Sends a request with its body on its way.
pub fn request_slot(request: InboundRequest, body: Vec<u8>) -> (out: RequestSlot)
    ensures
        carries(out, request, body@),
{
    let raw_path = bytes_of(&request.path);
    RequestSlot {
        method: request.method,
        path: request.path,
        raw_path,
        query_string: request.query_string,
        headers: request.headers,
        body,
        protocol: request.protocol,
        client_addr: request.client_addr,
        server_addr: request.server_addr,
    }
}

/// The request was taken out of the slot: its body was collected, and it has no path parameters.
pub open spec fn taken_out(request: InboundRequest, slot: RequestSlot) -> bool {
    &&& request.method == slot.method
    &&& request.path == slot.path
    &&& request.query_string == slot.query_string
    &&& request.headers == slot.headers
    &&& request.protocol == slot.protocol
    &&& !request.has_body
    &&& request.client_addr == slot.client_addr
    &&& request.server_addr == slot.server_addr
    &&& request.path_params@.len() == 0
}

/// Takes a request out on the Python side: the request itself, and its body.
pub fn slot_to_inbound_request(slot: RequestSlot) -> (out: (InboundRequest, Vec<u8>))
    ensures
        taken_out(out.0, slot),
        out.1 == slot.body,
{
    (
        InboundRequest {
            method: slot.method,
            path: slot.path,
            query_string: slot.query_string,
            headers: slot.headers,
            protocol: slot.protocol,
            has_body: false,
            client_addr: slot.client_addr,
            server_addr: slot.server_addr,
            path_params: Vec::new(),
        },
        slot.body,
    )
}

/// What the Python side gets of a request.
pub struct Materialized {
    /// The scope dict.
    pub scope: Vec<(String, PyValue)>,
    /// The `receive` callable.
    pub receive: AsgiReceive,
    /// The `send` callable.
    pub send: SlotSend,
}

/// The scope is that of the request in the slot, for some order of its headers.
pub open spec fn scope_of_slot(scope: Seq<(String, PyValue)>, slot: RequestSlot, server: Addr) -> bool {
    exists|request: InboundRequest, l: Seq<(Seq<char>, Seq<u8>)>|
        taken_out(request, slot) && listing(slot.headers, l) && dict_data(scope)
            == #[trigger] http_scope(request, server, l)
}

/// Builds what the Python side gets of a request: its scope, a `receive` with its body, and a
/// `send` that nothing was sent with.
pub fn materialize(slot: RequestSlot, interns: &ScopeInterns, dev_mode: bool) -> (out: Materialized)
    requires
        interns.well_formed(),
    ensures
        scope_of_slot(out.scope@, slot, interns.server),
        out.receive.data() == (ReceiveData { body: Some(slot.body@), watches_disconnect: false }),
        out.send.data() == unused_send(dev_mode),
{
    let ghost given = slot;
    let (request, body) = slot_to_inbound_request(slot);
    let scope = scope_from_template(interns, &request, None).unwrap();
    proof {
        let l = choose|l: Seq<(Seq<char>, Seq<u8>)>|
            listing(request.headers, l) && dict_data(scope@) == #[trigger] http_scope(
                request,
                interns.server,
                l,
            ) + app_entries(None);
        assert(dict_data(scope@) =~= http_scope(request, interns.server, l));
        assert(taken_out(request, given) && listing(given.headers, l) && dict_data(scope@)
            == http_scope(request, interns.server, l));
    }
    Materialized { scope, receive: AsgiReceive::slot(body), send: SlotSend::new(dev_mode) }
}

/// A request that went to the Python side is the one that came in: what an application is told of
/// it is what the client sent, and its body is delivered whole.
pub proof fn the_pipeline_keeps_requests(
    sent: InboundRequest,
    body: Seq<u8>,
    slot: RequestSlot,
    received: InboundRequest,
)
    requires
        carries(slot, sent, body),
        taken_out(received, slot),
    ensures
        received.method == sent.method,
        received.path == sent.path,
        received.query_string == sent.query_string,
        received.headers == sent.headers,
        received.protocol == sent.protocol,
        received.client_addr == sent.client_addr,
        received.server_addr == sent.server_addr,
        slot.body@ == body,
{
}

/// Each line adds its value behind those that its name has already, and leaves the other names as
/// they are. A line with a bad name or a bad value makes the response invalid.
pub proof fn lines_add_their_values(
    l: Seq<(Vec<u8>, Vec<u8>)>,
    name: Vec<u8>,
    value: Vec<u8>,
    other: Seq<char>,
)
    requires
        fields_of(l) is Ok,
    ensures
        name_of(name@) is Some && valid_value(value@) ==> fields_of(l.push((name, value))) is Ok
            && values_of(fields_of(l.push((name, value)))->Ok_0, name_of(name@)->0) == values_of(
            fields_of(l)->Ok_0,
            name_of(name@)->0,
        ).push(value@),
        name_of(name@) is Some && valid_value(value@) && other != name_of(name@)->0 ==> values_of(
            fields_of(l.push((name, value)))->Ok_0,
            other,
        ) == values_of(fields_of(l)->Ok_0, other),
        name_of(name@) is None ==> fields_of(l.push((name, value))) == Err::<Fields, LineFault>(
            LineFault::Name,
        ),
        name_of(name@) is Some && !valid_value(value@) ==> fields_of(l.push((name, value))) == Err::<
            Fields,
            LineFault,
        >(LineFault::Value),
        fields_of(Seq::empty()) == Ok::<Fields, LineFault>(Map::empty()),
        values_of(Map::empty(), other).len() == 0,
{
    assert(l.push((name, value)).drop_last() =~= l);
}

/// A response without lines has no headers, and a bad line is never mended by a later one.
pub proof fn bad_lines_stay_bad(l: Seq<(Vec<u8>, Vec<u8>)>, more: Seq<(Vec<u8>, Vec<u8>)>)
    requires
        fields_of(l) is Err,
    ensures
        fields_of(l + more) == fields_of(l),
{
    assert((l + more).take(l.len() as int) =~= l);
    first_line_fault(l + more, l.len() as int);
}

/// Errors of the pipeline are told with their cause, and a client sees none of it: it is answered
/// with status 500, or 408 where time ran out, as plain text.
pub proof fn pipeline_errors_are_told(why: String, r: OutboundResponse)
    ensures
        pipeline_text(PipelineFault::Body(why)) == "body collect: "@ + why@,
        pipeline_text(PipelineFault::InboundClosed) == "inbound channel closed"@,
        pipeline_text(PipelineFault::ResponseClosed) == "response channel closed"@,
        fault_text(LineFault::Name) == "invalid header name: invalid HTTP header name"@,
        fault_text(LineFault::Value) == "invalid header value: failed to parse header value"@,
        client_text(AppError::Timeout) == "request timeout"@,
        client_text(AppError::Internal(why)) == "Internal Server Error"@,
        is_internal_error(r) ==> r.status == 500 && values_of(fields(r.headers), "content-type"@)
            == seq![utf8("text/plain"@)] && (r.body matches ResponseBody::Fixed(b) && b@ == utf8(
            "Internal Server Error"@,
        )) && r.server_route is None,
{
    reveal_strlit("invalid header name: ");
    reveal_strlit("invalid HTTP header name");
    reveal_strlit("invalid header name: invalid HTTP header name");
    reveal_strlit("invalid header value: ");
    reveal_strlit("failed to parse header value");
    reveal_strlit("invalid header value: failed to parse header value");
    assert("invalid header name: "@ + "invalid HTTP header name"@
        =~= "invalid header name: invalid HTTP header name"@);
    assert("invalid header value: "@ + "failed to parse header value"@
        =~= "invalid header value: failed to parse header value"@);
}

/// What comes out of the pipeline has no path parameters and no body of its own, and its raw path
/// is the path as bytes.
pub proof fn slots_carry_requests(
    slot: RequestSlot,
    sent: InboundRequest,
    body: Seq<u8>,
    received: InboundRequest,
)
    requires
        carries(slot, sent, body),
        taken_out(received, slot),
    ensures
        slot.method == sent.method,
        slot.path == sent.path,
        slot.raw_path@ == utf8(sent.path@),
        slot.query_string == sent.query_string,
        slot.headers == sent.headers,
        slot.body@ == body,
        slot.protocol == sent.protocol,
        slot.client_addr == sent.client_addr,
        slot.server_addr == sent.server_addr,
        !received.has_body,
        received.path_params@.len() == 0,
{
}

/// The application is told of a slot the method, the decoded path, the query, the peers and the
/// version that the slot carries.
pub proof fn scopes_tell_the_slot(scope: Seq<(String, PyValue)>, slot: RequestSlot, server: Addr)
    requires
        scope_of_slot(scope, slot, server),
    ensures
        ({
            let s = dict_data(scope);
            &&& s.contains(("type"@, PyData::Str("http"@)))
            &&& s.contains(("method"@, PyData::Str(slot.method@)))
            &&& s.contains(
                ("path"@, PyData::Str(crate::asgi::percent::percent_decoded(slot.path@))),
            )
            &&& s.contains(("raw_path"@, PyData::Bytes(utf8(slot.path@))))
            &&& s.contains(("query_string"@, PyData::Bytes(slot.query_string@)))
            &&& s.contains(
                (
                    "server"@,
                    PyData::Tuple(seq![PyData::Str(server.ip@), PyData::Int(server.port as int)]),
                ),
            )
            &&& slot.client_addr matches Some(a) ==> s.contains(
                (
                    "client"@,
                    PyData::Tuple(seq![PyData::Str(a.ip@), PyData::Int(a.port as int)]),
                ),
            )
            &&& slot.client_addr is None ==> s.contains(("client"@, PyData::Nothing))
        }),
{
    let (request, l) = choose|request: InboundRequest, l: Seq<(Seq<char>, Seq<u8>)>|
        taken_out(request, slot) && listing(slot.headers, l) && dict_data(scope)
            == #[trigger] http_scope(request, server, l);
    crate::asgi::scope::http_scope_tells_the_request(request, server, l);
}

/// Lines are too many only if lines that are good so far fill up the room for names.
pub proof fn too_many_lines_fill_the_room(l: Seq<(Vec<u8>, Vec<u8>)>)
    requires
        fills_up(l),
    ensures
        exists|n: int|
            0 <= n < l.len() && (#[trigger] fields_of(l.take(n)) matches Ok(f) && !has_room(f)),
{
    let n = choose|n: int| 0 <= n < l.len() && is_full(#[trigger] fields_of(l.take(n)));
    assert(fields_of(l.take(n)) is Ok);
}

} // verus!

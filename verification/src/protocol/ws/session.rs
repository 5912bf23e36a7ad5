//! A WebSocket session: frames become events for the application and back.

use hyper::header::{HeaderMap, HeaderValue};
use vstd::prelude::*;

use crate::asgi::event::AsgiEvent;
use crate::asgi::receive::{IncomingData, WsIncomingEvent};
use crate::headers::{fields, has_room, values_of};
use crate::protocol::http::error::AppError;
use crate::protocol::http::service::{
    error_response, inbound_from_hyper, plain_response, uuid_text, RequestHead, TooManyHeaders,
};
use crate::text::utf8;
use crate::transport::{told_version, Addr, HttpResponse, InboundRequest};

verus! {

/// Events that wait at most in each direction.
pub const WS_CHANNEL_CAPACITY: usize = 32;

/// Close code of a normal end.
pub const WS_CLOSE_NORMAL: u16 = 1000;

/// An ASCII whitespace byte.
pub open spec fn ascii_space(b: u8) -> bool {
    b == 9 || b == 10 || b == 12 || b == 13 || b == 32
}

/// A byte with an ASCII letter in lower case.
pub open spec fn lower_byte(b: u8) -> u8 {
    if 65 <= b <= 90 {
        (b + 32) as u8
    } else {
        b
    }
}

/// The bytes from `a` to `b` are an entry of the comma-separated list `v`, and apart from spaces
/// around it the entry is `word` from `c` on, in whatever case.
pub open spec fn word_between(v: Seq<u8>, word: Seq<char>, a: int, c: int, b: int) -> bool {
    &&& 0 <= a <= c
    &&& c + word.len() <= b <= v.len()
    &&& a == 0 || v[a - 1] == 44
    &&& b == v.len() || v[b] == 44
    &&& forall|i: int| a <= i < c ==> ascii_space(#[trigger] v[i])
    &&& forall|i: int| c + word.len() <= i < b ==> ascii_space(#[trigger] v[i])
    &&& forall|i: int| 0 <= i < word.len() ==> lower_byte(v[c + i]) == #[trigger] word[i] as u8
}

/// One of the values is a comma-separated list with the entry `word`.
pub open spec fn lists_word(values: Seq<Seq<u8>>, word: Seq<char>) -> bool {
    exists|i: int, a: int, c: int, b: int|
        0 <= i < values.len() && #[trigger] word_between(values[i], word, a, c, b)
}

/// The headers ask for a WebSocket.
pub open spec fn upgrade_requested(f: Map<Seq<char>, Seq<Seq<u8>>>) -> bool {
    lists_word(values_of(f, "connection"@), "upgrade"@) && lists_word(
        values_of(f, "upgrade"@),
        "websocket"@,
    )
}

/// `hyper_tungstenite::is_upgrade_request`: a request asks for a WebSocket if a `connection` header
/// lists `upgrade` and an `upgrade` header lists `websocket`, in whatever case.
#[verifier::external_body]
pub fn is_websocket_upgrade(headers: &HeaderMap<HeaderValue>) -> (out: bool)
    ensures
        out == upgrade_requested(fields(*headers)),
{
    let mut request = hyper::Request::new(());
    *request.headers_mut() = headers.clone();
    hyper_tungstenite::is_upgrade_request(&request)
}

/// A request without the two headers does not ask for a WebSocket.
pub proof fn upgrade_needs_both_headers(f: Map<Seq<char>, Seq<Seq<u8>>>)
    ensures
        upgrade_requested(f) ==> f.dom().contains("connection"@) && f.dom().contains("upgrade"@),
{
}

/// Describes a request that asks for a WebSocket; it has no body.
pub fn extract_request_info(head: RequestHead, server_addr: Addr, client_addr: Option<Addr>) -> (out:
    Result<InboundRequest, TooManyHeaders>)
    ensures
        has_room(fields(head.headers)) ==> out is Ok,
        match out {
            Ok(r) => {
                &&& r.method == head.method
                &&& r.path == head.path
                &&& r.query_string@ == (match head.query {
                    Some(q) => utf8(q@),
                    None => Seq::<u8>::empty(),
                })
                &&& if fields(head.headers).dom().contains("x-request-id"@) {
                    fields(r.headers) == fields(head.headers)
                } else {
                    exists|id: Seq<char>|
                        uuid_text(id) && fields(r.headers) == #[trigger] fields(
                            head.headers,
                        ).insert("x-request-id"@, seq![utf8(id)])
                }
                &&& r.protocol == told_version(head.version)
                &&& !r.has_body
                &&& r.client_addr == client_addr
                &&& r.server_addr == server_addr
                &&& r.path_params@.len() == 0
            },
            Err(_) => !has_room(fields(head.headers)) && !fields(head.headers).dom().contains(
                "x-request-id"@,
            ),
        },
{
    let bare = RequestHead {
        method: head.method,
        path: head.path,
        query: head.query,
        headers: head.headers,
        version: head.version,
        has_body: false,
    };
    inbound_from_hyper(bare, server_addr, client_addr)
}

/// A frame of a client.
#[derive(Debug)]
pub enum Frame {
    /// A text message.
    Text(String),
    /// A binary message.
    Binary(Vec<u8>),
    /// The end, with a close code if one was given.
    Close(Option<u16>),
    /// A ping, a pong or a raw frame.
    Control,
}

/// What the connection delivered.
#[derive(Debug)]
pub enum Incoming {
    /// A frame.
    Frame(Frame),
    /// An error.
    Failed,
    /// Nothing more.
    Ended,
}

/// What to do with what the connection delivered.
pub enum IncomingStep {
    /// Pass this event on and go on reading; stop if nobody takes it.
    Forward(WsIncomingEvent),
    /// Go on reading.
    Skip,
    /// Pass this event on and stop.
    Finish(WsIncomingEvent),
}

/// What the application is told of what the connection delivered, and whether reading goes
/// on. Nothing is told of control frames; a close without a code, an error and the end all
/// count as a normal end.
pub open spec fn told(i: Incoming) -> (Option<IncomingData>, bool) {
    match i {
        Incoming::Frame(Frame::Text(t)) => (Some(IncomingData::Receive(Some(t@), None)), true),
        Incoming::Frame(Frame::Binary(b)) => (Some(IncomingData::Receive(None, Some(b@))), true),
        Incoming::Frame(Frame::Close(Some(code))) => (
            Some(IncomingData::Disconnect(code as int)),
            false,
        ),
        Incoming::Frame(Frame::Close(None)) => (Some(IncomingData::Disconnect(1000)), false),
        Incoming::Frame(Frame::Control) => (None, true),
        Incoming::Failed => (Some(IncomingData::Disconnect(1000)), false),
        Incoming::Ended => (Some(IncomingData::Disconnect(1000)), false),
    }
}

/// Turns what the connection delivered into an event for the application.
pub fn forward_incoming(incoming: Incoming) -> (out: IncomingStep)
    ensures
        match out {
            IncomingStep::Forward(e) => told(incoming) == (Some(e.data()), true),
            IncomingStep::Skip => told(incoming) == (None::<IncomingData>, true),
            IncomingStep::Finish(e) => told(incoming) == (Some(e.data()), false),
        },
{
    match incoming {
        Incoming::Frame(Frame::Text(t)) => IncomingStep::Forward(
            WsIncomingEvent::Receive { text: Some(t), bytes: None },
        ),
        Incoming::Frame(Frame::Binary(b)) => IncomingStep::Forward(
            WsIncomingEvent::Receive { text: None, bytes: Some(b) },
        ),
        Incoming::Frame(Frame::Close(code)) => {
            let code: u16 = match code {
                Some(c) => c,
                None => WS_CLOSE_NORMAL,
            };
            IncomingStep::Finish(WsIncomingEvent::Disconnect { code })
        },
        Incoming::Frame(Frame::Control) => IncomingStep::Skip,
        Incoming::Failed => IncomingStep::Finish(
            WsIncomingEvent::Disconnect { code: WS_CLOSE_NORMAL },
        ),
        Incoming::Ended => IncomingStep::Finish(
            WsIncomingEvent::Disconnect { code: WS_CLOSE_NORMAL },
        ),
    }
}

/// What the application is told of all that a connection delivered, one after the other. Once
/// reading has stopped nothing more is told.
pub open spec fn told_all(arrived: Seq<Incoming>) -> Seq<IncomingData>
    decreases arrived.len(),
{
    if arrived.len() == 0 {
        Seq::empty()
    } else {
        match told(arrived[0]) {
            (Some(d), true) => seq![d] + told_all(arrived.drop_first()),
            (None, true) => told_all(arrived.drop_first()),
            (Some(d), false) => seq![d],
            (None, false) => Seq::empty(),
        }
    }
}

/// Events as mathematical values.
pub open spec fn incoming_views(v: Seq<WsIncomingEvent>) -> Seq<IncomingData> {
    Seq::new(v.len(), |i: int| v[i].data())
}

/// Turns all that a connection delivered before it ended into events for an application that
/// takes every one of them.
pub fn forward_all_incoming(arrived: Vec<Incoming>) -> (out: Vec<WsIncomingEvent>)
    ensures
        incoming_views(out@) == told_all(arrived@.push(Incoming::Ended)),
{
    let mut rest = arrived;
    rest.push(Incoming::Ended);
    let ghost all = rest@;
    let mut out: Vec<WsIncomingEvent> = Vec::new();
    assert(incoming_views(out@) + told_all(rest@) =~= told_all(all));
    while rest.len() > 0
        invariant
            all == arrived@.push(Incoming::Ended),
            incoming_views(out@) + told_all(rest@) == told_all(all),
        decreases rest.len(),
    {
        let ghost before = rest@;
        let ghost told_before = incoming_views(out@);
        let first = rest.remove(0);
        assert(rest@ =~= before.drop_first());
        match forward_incoming(first) {
            IncomingStep::Skip => {},
            IncomingStep::Forward(e) => {
                let ghost d = e.data();
                out.push(e);
                assert(incoming_views(out@) =~= told_before.push(d));
                assert(told_before + (seq![d] + told_all(rest@)) =~= told_before.push(d) + told_all(
                    rest@,
                ));
            },
            IncomingStep::Finish(e) => {
                let ghost d = e.data();
                out.push(e);
                assert(incoming_views(out@) =~= told_before + seq![d]);
                return out;
            },
        }
    }
    assert(incoming_views(out@) + Seq::<IncomingData>::empty() =~= incoming_views(out@));
    out
}

/// Of a connection that ends, whatever it delivered before, the application is told exactly one
/// disconnect, and that comes last.
pub proof fn one_disconnect_comes_last(arrived: Seq<Incoming>)
    ensures
        ({
            let t = told_all(arrived.push(Incoming::Ended));
            &&& t.len() > 0
            &&& t.last() is Disconnect
            &&& forall|i: int| 0 <= i < t.len() - 1 ==> !(#[trigger] t[i] is Disconnect)
        }),
    decreases arrived.len(),
{
    let all = arrived.push(Incoming::Ended);
    if arrived.len() == 0 {
        assert(told_all(all) =~= seq![IncomingData::Disconnect(1000)]);
    } else {
        let rest = arrived.drop_first();
        assert(all.drop_first() =~= rest.push(Incoming::Ended));
        assert(all[0] == arrived[0]);
        one_disconnect_comes_last(rest);
        let t = told_all(rest.push(Incoming::Ended));
        match told(arrived[0]) {
            (Some(d), true) => {
                let whole = seq![d] + t;
                assert(told_all(all) == whole);
                assert(forall|i: int| 1 <= i < whole.len() ==> #[trigger] whole[i] == t[i - 1]);
            },
            _ => {},
        }
    }
}

/// After a close frame, an error or the end nothing that arrives is told any more.
pub proof fn nothing_is_told_after_the_end(before: Seq<Incoming>, end: Incoming, after: Seq<Incoming>)
    requires
        !told(end).1,
    ensures
        told_all(before.push(end) + after) == told_all(before.push(end)),
    decreases before.len(),
{
    let short = before.push(end);
    let long = short + after;
    if before.len() == 0 {
        assert(short[0] == end && long[0] == end);
    } else {
        let rest = before.drop_first();
        nothing_is_told_after_the_end(rest, end, after);
        assert(short.drop_first() =~= rest.push(end));
        assert(long.drop_first() =~= rest.push(end) + after);
        assert(short[0] == before[0] && long[0] == before[0]);
    }
}

/// What to do with an event of the application.
pub enum OutgoingStep {
    /// Nothing.
    Skip,
    /// Send a text message; stop if that fails.
    SendText(String),
    /// Send a binary message; stop if that fails.
    SendBinary(Vec<u8>),
    /// Send a close frame with this code and stop.
    SendClose(u16),
}

/// What an event of the application leads to: whether the connection counts as accepted from then
/// on, and the step.
pub open spec fn outgoing(accepted: bool, e: AsgiEvent) -> (bool, OutgoingStep) {
    match e {
        AsgiEvent::WsAccept { .. } => (true, OutgoingStep::Skip),
        AsgiEvent::WsSend { text, bytes } => (
            accepted,
            if !accepted {
                OutgoingStep::Skip
            } else {
                match (text, bytes) {
                    (Some(t), _) => OutgoingStep::SendText(t),
                    (None, Some(b)) => OutgoingStep::SendBinary(b),
                    (None, None) => OutgoingStep::Skip,
                }
            },
        ),
        AsgiEvent::WsClose { code } => (accepted, OutgoingStep::SendClose(code)),
        _ => (accepted, OutgoingStep::Skip),
    }
}

/// Turns an event of the application into a frame. Messages before the acceptance are
/// dropped; text goes before bytes; events of HTTP responses are passed over.
pub fn forward_outgoing(accepted: &mut bool, event: AsgiEvent) -> (out: OutgoingStep)
    ensures
        (*final(accepted), out) == outgoing(*old(accepted), event),
{
    match event {
        AsgiEvent::WsAccept { .. } => {
            *accepted = true;
            OutgoingStep::Skip
        },
        AsgiEvent::WsSend { text, bytes } => if !*accepted {
            OutgoingStep::Skip
        } else {
            match text {
                Some(t) => OutgoingStep::SendText(t),
                None => match bytes {
                    Some(b) => OutgoingStep::SendBinary(b),
                    None => OutgoingStep::Skip,
                },
            }
        },
        AsgiEvent::WsClose { code } => OutgoingStep::SendClose(code),
        _ => OutgoingStep::Skip,
    }
}

/// The frames that events of the application lead to, one after the other. Nothing is sent after
/// a close frame.
pub open spec fn sent_all(accepted: bool, events: Seq<AsgiEvent>) -> Seq<OutgoingStep>
    decreases events.len(),
{
    if events.len() == 0 {
        Seq::empty()
    } else {
        let (now, step) = outgoing(accepted, events[0]);
        match step {
            OutgoingStep::Skip => sent_all(now, events.drop_first()),
            OutgoingStep::SendClose(_) => seq![step],
            _ => seq![step] + sent_all(now, events.drop_first()),
        }
    }
}

/// Turns all events of an application into frames for a connection that takes every one of them.
pub fn forward_all_outgoing(events: Vec<AsgiEvent>) -> (out: Vec<OutgoingStep>)
    ensures
        out@ == sent_all(false, events@),
{
    let mut rest = events;
    let ghost all = rest@;
    let mut accepted = false;
    let mut out: Vec<OutgoingStep> = Vec::new();
    assert(out@ + sent_all(accepted, rest@) =~= sent_all(false, all));
    while rest.len() > 0
        invariant
            all == events@,
            out@ + sent_all(accepted, rest@) == sent_all(false, all),
        decreases rest.len(),
    {
        let ghost before = rest@;
        let ghost sent_before = out@;
        let first = rest.remove(0);
        assert(rest@ =~= before.drop_first());
        let step = forward_outgoing(&mut accepted, first);
        let ghost s = step;
        match step {
            OutgoingStep::Skip => {},
            OutgoingStep::SendClose(code) => {
                out.push(OutgoingStep::SendClose(code));
                assert(out@ =~= sent_before + seq![s]);
                return out;
            },
            other => {
                out.push(other);
                assert(sent_before + (seq![s] + sent_all(accepted, rest@)) =~= out@ + sent_all(
                    accepted,
                    rest@,
                ));
            },
        }
    }
    assert(out@ + Seq::<OutgoingStep>::empty() =~= out@);
    out
}

/// A close frame is the last frame that is sent, whatever the application sends after it.
pub proof fn nothing_is_sent_after_a_close(
    accepted: bool,
    before: Seq<AsgiEvent>,
    code: u16,
    after: Seq<AsgiEvent>,
)
    ensures
        sent_all(accepted, before.push(AsgiEvent::WsClose { code }) + after) == sent_all(
            accepted,
            before.push(AsgiEvent::WsClose { code }),
        ),
        sent_all(accepted, before.push(AsgiEvent::WsClose { code })).len() > 0,
        sent_all(accepted, before.push(AsgiEvent::WsClose { code })).last() is SendClose,
    decreases before.len(),
{
    let close = AsgiEvent::WsClose { code };
    let short = before.push(close);
    let long = short + after;
    if before.len() == 0 {
        assert(short[0] == close && long[0] == close);
    } else {
        let rest = before.drop_first();
        let now = outgoing(accepted, before[0]).0;
        nothing_is_sent_after_a_close(now, rest, code, after);
        assert(short.drop_first() =~= rest.push(close));
        assert(long.drop_first() =~= rest.push(close) + after);
        assert(short[0] == before[0] && long[0] == before[0]);
    }
}

/// Of all frames that are sent only the last can be a close frame.
pub proof fn one_close_is_sent(accepted: bool, events: Seq<AsgiEvent>)
    ensures
        ({
            let t = sent_all(accepted, events);
            forall|i: int| 0 <= i < t.len() - 1 ==> !(#[trigger] t[i] is SendClose)
        }),
    decreases events.len(),
{
    if events.len() > 0 {
        let (now, step) = outgoing(accepted, events[0]);
        let rest = sent_all(now, events.drop_first());
        one_close_is_sent(now, events.drop_first());
        let whole = seq![step] + rest;
        assert(forall|i: int| 1 <= i < whole.len() ==> #[trigger] whole[i] == rest[i - 1]);
    }
}

/// No message reaches the client before the application accepted the connection.
pub proof fn nothing_is_sent_before_accept(e: AsgiEvent)
    ensures
        !(outgoing(false, e).1 is SendText),
        !(outgoing(false, e).1 is SendBinary),
        outgoing(false, e).0 ==> e is WsAccept,
{
}

/// An accepted connection stays accepted.
pub proof fn accept_is_kept(e: AsgiEvent)
    ensures
        outgoing(true, e).0,
{
}

/// The error of a failed handshake.
pub fn handle_upgrade_error(e: &str) -> (out: AppError)
    ensures
        out matches AppError::Internal(m) && m@ == "websocket upgrade failed: "@ + e@,
{
    AppError::Internal(String::from_str("websocket upgrade failed: ").concat(e))
}

/// What a request for a WebSocket is answered when there is no session: 400 by a server without
/// WebSockets, 500 after a failed handshake. The client is not told why.
pub fn dispatch_ws(failed: Option<AppError>) -> (out: HttpResponse)
    ensures
        match failed {
            None => plain_response(out, 400, "text/plain"@, "websocket not supported"@),
            Some(_) => plain_response(out, 500, "text/plain"@, "Internal Server Error"@),
        },
{
    match failed {
        None => error_response(400, "websocket not supported"),
        Some(_) => error_response(500, "Internal Server Error"),
    }
}

/// Where a session stands.
#[derive(Clone, Copy, PartialEq, Eq, Structural, Debug)]
pub enum SessionPhase {
    /// The handshake is being completed.
    Upgrading,
    /// The application is being told of the connection.
    Connecting,
    /// The application is being called.
    Submitting,
    /// Frames go both ways.
    Running,
    /// The session is over.
    Over,
}

/// What a session does next.
#[derive(Clone, Copy, PartialEq, Eq, Structural, Debug)]
pub enum SessionAction {
    /// Queue the event of the connection for the application.
    SendConnect,
    /// Start forwarding in both directions, then call the application.
    ForwardAndSubmit,
    /// Go on until forwarding has ended.
    AwaitForwarding,
    /// Stop forwarding.
    StopForwarding,
    /// Nothing more.
    Return,
}

/// A session as a transition: the handshake, the event of the connection before any frame, the call
/// of the application, and forwarding for as long as the connection lasts. `succeeded` says how the
/// last action went.
pub open spec fn session_step(phase: SessionPhase, succeeded: bool) -> (SessionPhase, SessionAction) {
    match (phase, succeeded) {
        (SessionPhase::Upgrading, true) => (SessionPhase::Connecting, SessionAction::SendConnect),
        (SessionPhase::Connecting, true) => (
            SessionPhase::Submitting,
            SessionAction::ForwardAndSubmit,
        ),
        (SessionPhase::Submitting, true) => (SessionPhase::Running, SessionAction::AwaitForwarding),
        (SessionPhase::Submitting, false) => (SessionPhase::Over, SessionAction::StopForwarding),
        (SessionPhase::Running, _) => (SessionPhase::Over, SessionAction::StopForwarding),
        _ => (SessionPhase::Over, SessionAction::Return),
    }
}

/// Takes how the last action went and says what a session does next.
pub fn ws_session(phase: SessionPhase, succeeded: bool) -> (out: (SessionPhase, SessionAction))
    ensures
        out == session_step(phase, succeeded),
{
    match (phase, succeeded) {
        (SessionPhase::Upgrading, true) => (SessionPhase::Connecting, SessionAction::SendConnect),
        (SessionPhase::Connecting, true) => (
            SessionPhase::Submitting,
            SessionAction::ForwardAndSubmit,
        ),
        (SessionPhase::Submitting, true) => (SessionPhase::Running, SessionAction::AwaitForwarding),
        (SessionPhase::Submitting, false) => (SessionPhase::Over, SessionAction::StopForwarding),
        (SessionPhase::Running, _) => (SessionPhase::Over, SessionAction::StopForwarding),
        _ => (SessionPhase::Over, SessionAction::Return),
    }
}

/// Forwarding starts only after the application was told of the connection, and goes on once the
/// application was called.
pub proof fn connect_comes_first(phase: SessionPhase, succeeded: bool)
    ensures
        session_step(phase, succeeded).1 == SessionAction::ForwardAndSubmit <==> phase
            == SessionPhase::Connecting && succeeded,
        session_step(phase, succeeded).1 == SessionAction::SendConnect <==> phase
            == SessionPhase::Upgrading && succeeded,
        session_step(SessionPhase::Submitting, true).1 == SessionAction::AwaitForwarding,
{
}

/// A step of calling the application for a session that failed.
#[derive(Clone, Copy, PartialEq, Eq, Structural, Debug)]
pub enum SubmitStage {
    /// Building the scope.
    Scope,
    /// Wrapping the `receive` callable.
    Receive,
    /// Wrapping the `send` callable.
    Send,
    /// Handing all to the event loop.
    Submit,
}

/// The error of a failed step of calling the application.
pub fn submit_error(stage: SubmitStage, e: &str) -> (out: AppError)
    ensures
        out matches AppError::Internal(m) && m@ == (match stage {
            SubmitStage::Scope => "ws scope build: "@,
            SubmitStage::Receive => "wrap ws receive: "@,
            SubmitStage::Send => "wrap ws send: "@,
            SubmitStage::Submit => "submit ws to asyncio: "@,
        }) + e@,
{
    let start = match stage {
        SubmitStage::Scope => "ws scope build: ",
        SubmitStage::Receive => "wrap ws receive: ",
        SubmitStage::Send => "wrap ws send: ",
        SubmitStage::Submit => "submit ws to asyncio: ",
    };
    AppError::Internal(String::from_str(start).concat(e))
}

/// On an accepted connection nothing that the application sends is lost: a text becomes a text
/// frame with that text, bytes without a text become a binary frame with those bytes, and what is
/// sent afterwards is not touched by either.
pub proof fn accepted_messages_are_sent(
    text: String,
    bytes: Vec<u8>,
    other: Option<Vec<u8>>,
    rest: Seq<AsgiEvent>,
)
    ensures
        sent_all(true, seq![AsgiEvent::WsSend { text: Some(text), bytes: other }] + rest) == seq![
            OutgoingStep::SendText(text),
        ] + sent_all(true, rest),
        sent_all(true, seq![AsgiEvent::WsSend { text: None, bytes: Some(bytes) }] + rest) == seq![
            OutgoingStep::SendBinary(bytes),
        ] + sent_all(true, rest),
        sent_all(true, seq![AsgiEvent::WsSend { text: None, bytes: None }] + rest) == sent_all(
            true,
            rest,
        ),
        outgoing(true, AsgiEvent::WsSend { text: Some(text), bytes: other }) == (
            true,
            OutgoingStep::SendText(text),
        ),
        outgoing(true, AsgiEvent::WsSend { text: None, bytes: Some(bytes) }) == (
            true,
            OutgoingStep::SendBinary(bytes),
        ),
{
    assert((seq![AsgiEvent::WsSend { text: Some(text), bytes: other }] + rest).drop_first()
        =~= rest);
    assert((seq![AsgiEvent::WsSend { text: None, bytes: Some(bytes) }] + rest).drop_first()
        =~= rest);
    assert((seq![AsgiEvent::WsSend { text: None, bytes: None }] + rest).drop_first() =~= rest);
}

/// An acceptance sends nothing itself and opens the connection for messages; a close is sent with
/// its code and ends it; a message before the acceptance is dropped without opening it.
pub proof fn sessions_are_opened_and_closed(
    accepted: bool,
    subprotocol: Option<String>,
    headers: Vec<(Vec<u8>, Vec<u8>)>,
    code: u16,
    text: Option<String>,
    bytes: Option<Vec<u8>>,
    rest: Seq<AsgiEvent>,
)
    ensures
        sent_all(accepted, seq![AsgiEvent::WsAccept { subprotocol, headers }] + rest) == sent_all(
            true,
            rest,
        ),
        sent_all(accepted, seq![AsgiEvent::WsClose { code }] + rest) == seq![
            OutgoingStep::SendClose(code),
        ],
        sent_all(false, seq![AsgiEvent::WsSend { text, bytes }] + rest) == sent_all(false, rest),
        sent_all(accepted, Seq::empty()).len() == 0,
{
    assert((seq![AsgiEvent::WsAccept { subprotocol, headers }] + rest).drop_first() =~= rest);
    assert((seq![AsgiEvent::WsSend { text, bytes }] + rest).drop_first() =~= rest);
    assert((seq![AsgiEvent::WsClose { code }] + rest)[0] == AsgiEvent::WsClose { code });
}

/// Events of HTTP responses send nothing over a WebSocket and change nothing.
pub proof fn http_events_are_passed_over(accepted: bool, e: AsgiEvent, rest: Seq<AsgiEvent>)
    requires
        e is ResponseStart || e is ResponseBody,
    ensures
        sent_all(accepted, seq![e] + rest) == sent_all(accepted, rest),
{
    assert((seq![e] + rest).drop_first() =~= rest);
}

/// Every message of a client reaches the application unchanged and in its place: texts as texts,
/// bytes as bytes. Control frames are not told and lose nothing.
pub proof fn client_messages_are_told(text: String, bytes: Vec<u8>, rest: Seq<Incoming>)
    ensures
        told_all(seq![Incoming::Frame(Frame::Text(text))] + rest) == seq![
            IncomingData::Receive(Some(text@), None),
        ] + told_all(rest),
        told_all(seq![Incoming::Frame(Frame::Binary(bytes))] + rest) == seq![
            IncomingData::Receive(None, Some(bytes@)),
        ] + told_all(rest),
        told_all(seq![Incoming::Frame(Frame::Control)] + rest) == told_all(rest),
{
    assert((seq![Incoming::Frame(Frame::Text(text))] + rest).drop_first() =~= rest);
    assert((seq![Incoming::Frame(Frame::Binary(bytes))] + rest).drop_first() =~= rest);
    assert((seq![Incoming::Frame(Frame::Control)] + rest).drop_first() =~= rest);
}

/// The end of a connection is told with the code that the client gave, or 1000 if it gave none.
pub proof fn the_close_code_is_told(code: u16, rest: Seq<Incoming>)
    ensures
        told_all(seq![Incoming::Frame(Frame::Close(Some(code)))] + rest) == seq![
            IncomingData::Disconnect(code as int),
        ],
        told_all(seq![Incoming::Frame(Frame::Close(None))] + rest) == seq![
            IncomingData::Disconnect(1000),
        ],
        told_all(seq![Incoming::Failed] + rest) == seq![IncomingData::Disconnect(1000)],
        told_all(seq![Incoming::Ended] + rest) == seq![IncomingData::Disconnect(1000)],
{
    assert((seq![Incoming::Frame(Frame::Close(Some(code)))] + rest)[0] == Incoming::Frame(
        Frame::Close(Some(code)),
    ));
    assert((seq![Incoming::Frame(Frame::Close(None))] + rest)[0] == Incoming::Frame(
        Frame::Close(None),
    ));
    assert((seq![Incoming::Failed] + rest)[0] == Incoming::Failed);
    assert((seq![Incoming::Ended] + rest)[0] == Incoming::Ended);
}

/// A session whose steps succeed tells the application of the connection, then forwards and calls
/// it, then goes on until forwarding has ended, and then stops forwarding and is over.
pub proof fn a_session_runs_its_course()
    ensures
        ({
            let (p1, a1) = session_step(SessionPhase::Upgrading, true);
            let (p2, a2) = session_step(p1, true);
            let (p3, a3) = session_step(p2, true);
            let (p4, a4) = session_step(p3, true);
            let (p5, a5) = session_step(p4, true);
            &&& a1 == SessionAction::SendConnect
            &&& a2 == SessionAction::ForwardAndSubmit
            &&& a3 == SessionAction::AwaitForwarding
            &&& a4 == SessionAction::StopForwarding
            &&& a5 == SessionAction::Return
            &&& p5 == SessionPhase::Over
        }),
{
}

/// A step that fails ends the session at once, and forwarding that was started is stopped.
pub proof fn a_failed_session_ends(phase: SessionPhase)
    ensures
        session_step(phase, false).0 == SessionPhase::Over,
        session_step(phase, false).1 == SessionAction::StopForwarding <==> phase
            == SessionPhase::Submitting || phase == SessionPhase::Running,
        session_step(phase, false).1 == SessionAction::StopForwarding || session_step(phase, false).1
            == SessionAction::Return,
{
}

/// What is shown of client events keeps their order.
pub proof fn incoming_events_are_shown(v: Seq<WsIncomingEvent>, i: int)
    ensures
        incoming_views(v).len() == v.len(),
        0 <= i < v.len() ==> incoming_views(v)[i] == v[i].data(),
{
}

} // verus!

//! Events that an application receives.

use vstd::prelude::*;

use crate::asgi::event::opt_bytes;
use crate::python_value::{dict_data, lookup, PyData, PyValue};
use crate::protocol::http::service::opt_view;

verus! {

/// The event that carries the body of a request.
pub open spec fn request_event(body: Seq<u8>) -> Seq<(Seq<char>, PyData)> {
    seq![
        ("type"@, PyData::Str("http.request"@)),
        ("body"@, PyData::Bytes(body)),
        ("more_body"@, PyData::Bool(false)),
    ]
}

/// Builds the event that carries the body of a request.
pub fn receive_event(body: Vec<u8>) -> (out: Vec<(String, PyValue)>)
    ensures
        dict_data(out@) == request_event(body@),
{
    let ghost b = body@;
    let mut d: Vec<(String, PyValue)> = Vec::new();
    d.push((String::from_str("type"), PyValue::Str(String::from_str("http.request"))));
    d.push((String::from_str("body"), PyValue::Bytes(body)));
    d.push((String::from_str("more_body"), PyValue::Bool(false)));
    assert(dict_data(d@) =~= request_event(b));
    d
}

/// Builds the event for a request without a body.
pub fn build_receive_template() -> (out: Vec<(String, PyValue)>)
    ensures
        dict_data(out@) == request_event(Seq::empty()),
{
    receive_event(Vec::new())
}

/// The event of a client that went away.
pub open spec fn disconnect_event() -> Seq<(Seq<char>, PyData)> {
    seq![("type"@, PyData::Str("http.disconnect"@))]
}

/// Builds the event of a client that went away.
pub fn build_disconnect_event() -> (out: Vec<(String, PyValue)>)
    ensures
        dict_data(out@) == disconnect_event(),
{
    let mut d: Vec<(String, PyValue)> = Vec::new();
    d.push((String::from_str("type"), PyValue::Str(String::from_str("http.disconnect"))));
    assert(dict_data(d@) =~= disconnect_event());
    d
}

/// What a call of `receive` waits for.
pub enum ReceiveAction {
    /// Nothing: this event is there.
    Event(Vec<(String, PyValue)>),
    /// The end of the response, which is then reported as a disconnect.
    AwaitDisconnect,
    /// Nothing that will ever come.
    Pend,
}

/// The `receive` callable of a request.
pub struct AsgiReceive {
    /// The body, until it was taken.
    pub body: Option<Vec<u8>>,
    /// Whether the end of the response can still be waited for.
    pub watches_disconnect: bool,
}

/// The `receive` callable of a request, as a mathematical value.
pub struct ReceiveData {
    /// The body, until it was taken.
    pub body: Option<Seq<u8>>,
    /// Whether the end of the response can still be waited for.
    pub watches_disconnect: bool,
}

/// What a call of `receive` leads to.
pub open spec fn received(before: ReceiveData, after: ReceiveData, out: ReceiveAction) -> bool {
    match before.body {
        Some(b) => {
            &&& out matches ReceiveAction::Event(e) && dict_data(e@) == request_event(b)
            &&& after == ReceiveData { body: None, ..before }
        },
        None => {
            &&& out is AwaitDisconnect == before.watches_disconnect
            &&& out is Pend == !before.watches_disconnect
            &&& after == ReceiveData { body: None, watches_disconnect: false }
        },
    }
}

/// The body is delivered once, by the first call, and whole; the end of the response is waited for
/// once, by the second call, if it can be waited for; every other call waits forever.
pub proof fn body_is_delivered_once(
    states: Seq<ReceiveData>,
    outs: Seq<ReceiveAction>,
    body: Seq<u8>,
    i: int,
)
    requires
        states.len() == outs.len() + 1,
        states[0].body == Some(body),
        forall|k: int| 0 <= k < outs.len() ==> received(states[k], states[k + 1], #[trigger] outs[k]),
        0 <= i < outs.len(),
    ensures
        outs[i] is Event <==> i == 0,
        outs[i] matches ReceiveAction::Event(e) ==> dict_data(e@) == request_event(body),
        outs[i] is AwaitDisconnect <==> i == 1 && states[0].watches_disconnect,
        i >= 1 ==> states[i + 1] == (ReceiveData { body: None, watches_disconnect: false }),
    decreases i,
{
    assert(received(states[0], states[1], outs[0]));
    if i > 0 {
        body_is_delivered_once(states, outs, body, i - 1);
        assert(received(states[i], states[i + 1], outs[i]));
    }
}

impl AsgiReceive {
    /// The mathematical value.
    pub open spec fn data(self) -> ReceiveData {
        ReceiveData {
            body: opt_bytes(self.body),
            watches_disconnect: self.watches_disconnect,
        }
    }

    /// For a request with this body.
    pub fn http(body: Vec<u8>) -> (out: AsgiReceive)
        ensures
            out.data() == (ReceiveData { body: Some(body@), watches_disconnect: true }),
    {
        AsgiReceive { body: Some(body), watches_disconnect: true }
    }

    /// For a request without a body.
    pub fn empty() -> (out: AsgiReceive)
        ensures
            out.data() == (ReceiveData { body: Some(Seq::empty()), watches_disconnect: true }),
    {
        AsgiReceive { body: Some(Vec::new()), watches_disconnect: true }
    }

    /// For a request whose connection outlives its handling: only the body is ever delivered.
    pub fn slot(body: Vec<u8>) -> (out: AsgiReceive)
        ensures
            out.data() == (ReceiveData { body: Some(body@), watches_disconnect: false }),
    {
        AsgiReceive { body: Some(body), watches_disconnect: false }
    }

    /// A call of `receive`: the first one delivers the body, the second one waits for the end
    /// of the response if that can be waited for, and all others wait forever.
    pub fn call(&mut self) -> (out: ReceiveAction)
        ensures
            received(old(self).data(), final(self).data(), out),
    {
        match self.body.take() {
            Some(b) => ReceiveAction::Event(receive_event(b)),
            None => if self.watches_disconnect {
                self.watches_disconnect = false;
                ReceiveAction::AwaitDisconnect
            } else {
                ReceiveAction::Pend
            },
        }
    }
}

/// What a client did on a WebSocket.
#[derive(Debug)]
pub enum WsIncomingEvent {
    /// It connected.
    Connect,
    /// It sent a message.
    Receive {
        /// Text, if it is a text message.
        text: Option<String>,
        /// Bytes, if it is a binary message.
        bytes: Option<Vec<u8>>,
    },
    /// It went away.
    Disconnect {
        /// Close code.
        code: u16,
    },
}

/// What a client did on a WebSocket, as a mathematical value.
pub enum IncomingData {
    /// It connected.
    Connect,
    /// It sent a message.
    Receive(Option<Seq<char>>, Option<Seq<u8>>),
    /// It went away, with this close code.
    Disconnect(int),
}

impl WsIncomingEvent {
    /// The mathematical value.
    pub open spec fn data(self) -> IncomingData {
        match self {
            WsIncomingEvent::Connect => IncomingData::Connect,
            WsIncomingEvent::Receive { text, bytes } => IncomingData::Receive(
                opt_view(text),
                opt_bytes(bytes),
            ),
            WsIncomingEvent::Disconnect { code } => IncomingData::Disconnect(code as int),
        }
    }
}

/// The dict that an application receives for a WebSocket event; a channel that closed counts
/// as a disconnect with code 1000.
pub open spec fn ws_receive_data(e: Option<IncomingData>) -> Seq<(Seq<char>, PyData)> {
    match e {
        Some(IncomingData::Connect) => seq![("type"@, PyData::Str("websocket.connect"@))],
        Some(IncomingData::Receive(text, bytes)) => {
            let head = seq![("type"@, PyData::Str("websocket.receive"@))];
            let with_text = match text {
                Some(t) => head.push(("text"@, PyData::Str(t))),
                None => head,
            };
            match bytes {
                Some(b) => with_text.push(("bytes"@, PyData::Bytes(b))),
                None => with_text,
            }
        },
        Some(IncomingData::Disconnect(code)) => seq![
            ("type"@, PyData::Str("websocket.disconnect"@)),
            ("code"@, PyData::Int(code)),
        ],
        None => seq![
            ("type"@, PyData::Str("websocket.disconnect"@)),
            ("code"@, PyData::Int(1000)),
        ],
    }
}

/// An optional event as a mathematical value.
pub open spec fn opt_incoming(e: Option<WsIncomingEvent>) -> Option<IncomingData> {
    match e {
        Some(v) => Some(v.data()),
        None => None,
    }
}

/// Builds the dict that an application receives for a WebSocket event.
pub fn build_ws_receive_event(event: Option<WsIncomingEvent>) -> (out: Vec<(String, PyValue)>)
    ensures
        dict_data(out@) == ws_receive_data(opt_incoming(event)),
{
    let ghost want = ws_receive_data(opt_incoming(event));
    let mut d: Vec<(String, PyValue)> = Vec::new();
    match event {
        Some(WsIncomingEvent::Connect) => {
            d.push((String::from_str("type"), PyValue::Str(String::from_str("websocket.connect"))));
        },
        Some(WsIncomingEvent::Receive { text, bytes }) => {
            d.push((String::from_str("type"), PyValue::Str(String::from_str("websocket.receive"))));
            match text {
                Some(t) => {
                    d.push((String::from_str("text"), PyValue::Str(t)));
                },
                None => {},
            }
            match bytes {
                Some(b) => {
                    d.push((String::from_str("bytes"), PyValue::Bytes(b)));
                },
                None => {},
            }
        },
        Some(WsIncomingEvent::Disconnect { code }) => {
            d.push(
                (String::from_str("type"), PyValue::Str(String::from_str("websocket.disconnect"))),
            );
            d.push((String::from_str("code"), PyValue::Int(code as i64)));
        },
        None => {
            d.push(
                (String::from_str("type"), PyValue::Str(String::from_str("websocket.disconnect"))),
            );
            d.push((String::from_str("code"), PyValue::Int(1000)));
        },
    }
    assert(dict_data(d@) =~= want);
    d
}

/// A request event carries the whole body and says that nothing follows.
pub proof fn request_events_carry_the_body(body: Seq<u8>)
    ensures
        lookup(request_event(body), "type"@) == Some(PyData::Str("http.request"@)),
        lookup(request_event(body), "body"@) == Some(PyData::Bytes(body)),
        lookup(request_event(body), "more_body"@) == Some(PyData::Bool(false)),
        lookup(disconnect_event(), "type"@) == Some(PyData::Str("http.disconnect"@)),
{
    keys_differ();
    reveal_with_fuel(lookup, 4);
}

/// Distinct keys of the events.
proof fn keys_differ()
    ensures
        "type"@ != "body"@,
        "type"@ != "more_body"@,
        "body"@ != "more_body"@,
        "type"@ != "text"@,
        "type"@ != "bytes"@,
        "text"@ != "bytes"@,
        "type"@ != "code"@,
{
    reveal_strlit("type");
    reveal_strlit("body");
    reveal_strlit("more_body");
    reveal_strlit("text");
    reveal_strlit("bytes");
    reveal_strlit("code");
    assert("type"@[1] == 'y' && "body"@[1] == 'o' && "more_body"@.len() == 9 && "text"@[1] == 'e'
        && "bytes"@.len() == 5 && "code"@[1] == 'o' && "type"@.len() == 4 && "body"@.len() == 4
        && "text"@.len() == 4);
}

/// An application is told that a client connected, what it sent and the code with which it went
/// away; a channel that closed is told as a normal close.
pub proof fn ws_events_are_told(text: Seq<char>, bytes: Seq<u8>, code: int)
    ensures
        lookup(ws_receive_data(Some(IncomingData::Connect)), "type"@) == Some(
            PyData::Str("websocket.connect"@),
        ),
        ({
            let e = ws_receive_data(Some(IncomingData::Receive(Some(text), None)));
            &&& lookup(e, "type"@) == Some(PyData::Str("websocket.receive"@))
            &&& lookup(e, "text"@) == Some(PyData::Str(text))
            &&& lookup(e, "bytes"@) is None
        }),
        ({
            let e = ws_receive_data(Some(IncomingData::Receive(None, Some(bytes))));
            &&& lookup(e, "type"@) == Some(PyData::Str("websocket.receive"@))
            &&& lookup(e, "text"@) is None
            &&& lookup(e, "bytes"@) == Some(PyData::Bytes(bytes))
        }),
        ({
            let e = ws_receive_data(Some(IncomingData::Disconnect(code)));
            &&& lookup(e, "type"@) == Some(PyData::Str("websocket.disconnect"@))
            &&& lookup(e, "code"@) == Some(PyData::Int(code))
        }),
        ws_receive_data(None) == ws_receive_data(Some(IncomingData::Disconnect(1000))),
{
    keys_differ();
    reveal_with_fuel(lookup, 4);
}

/// What a client did is shown as it is.
pub proof fn client_events_are_shown(text: String, bytes: Vec<u8>, code: u16, watches: bool)
    ensures
        WsIncomingEvent::Connect.data() == IncomingData::Connect,
        (WsIncomingEvent::Receive { text: Some(text), bytes: None }).data() == IncomingData::Receive(
            Some(text@),
            None,
        ),
        (WsIncomingEvent::Receive { text: None, bytes: Some(bytes) }).data()
            == IncomingData::Receive(None, Some(bytes@)),
        (WsIncomingEvent::Disconnect { code }).data() == IncomingData::Disconnect(code as int),
        opt_incoming(None) is None,
        opt_incoming(Some(WsIncomingEvent::Disconnect { code })) == Some(
            IncomingData::Disconnect(code as int),
        ),
        opt_incoming(Some(WsIncomingEvent::Connect)) == Some(IncomingData::Connect),
        opt_incoming(Some(WsIncomingEvent::Receive { text: Some(text), bytes: None })) == Some(
            IncomingData::Receive(Some(text@), None),
        ),
        opt_incoming(Some(WsIncomingEvent::Receive { text: None, bytes: Some(bytes) })) == Some(
            IncomingData::Receive(None, Some(bytes@)),
        ),
        (AsgiReceive { body: Some(bytes), watches_disconnect: watches }).data() == (ReceiveData {
            body: Some(bytes@),
            watches_disconnect: watches,
        }),
        (AsgiReceive { body: None, watches_disconnect: watches }).data() == (ReceiveData {
            body: None,
            watches_disconnect: watches,
        }),
{
}

} // verus!

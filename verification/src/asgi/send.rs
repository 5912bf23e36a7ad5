//! How sent events become a response or WebSocket traffic.

use hyper::header::{HeaderMap, HeaderValue};
use vstd::prelude::*;

use crate::asgi::event::{AsgiEvent, EventError, EventFault, Fields};
use crate::headers::{empty, fields, no_fields};
use crate::transport::{OutboundResponse, ResponseBody};

verus! {

/// Chunks of a streamed body that wait at most.
pub const STREAM_CHANNEL_CAPACITY: usize = 256;

/// A status code that a response can have.
pub open spec fn usable_status(status: u16) -> u16 {
    if 100 <= status <= 999 {
        status
    } else {
        500
    }
}

/// Replaces a status code that no response can have by 500.
pub fn status_or_500(status: u16) -> (out: u16)
    ensures
        out == usable_status(status),
        100 <= out <= 999,
{
    if 100 <= status && status <= 999 {
        status
    } else {
        500
    }
}

/// Where the response of a request stands.
pub struct AsgiSend {
    /// Status of the response start that came last.
    pub status: Option<u16>,
    /// Headers of the response start that came last.
    pub headers: Option<HeaderMap<HeaderValue>>,
    /// Whether a response is still awaited.
    pub response_open: bool,
    /// Whether the end of the stream is still to be reported as a disconnect.
    pub disconnect_open: bool,
    /// Whether body chunks are being streamed.
    pub streaming: bool,
}

/// Where the response of a request stands, as a mathematical value.
pub struct SendData {
    /// Status of the response start that came last.
    pub status: Option<u16>,
    /// Headers of the response start that came last.
    pub headers: Option<Fields>,
    /// Whether a response is still awaited.
    pub response_open: bool,
    /// Whether the end of the stream is still to be reported as a disconnect.
    pub disconnect_open: bool,
    /// Whether body chunks are being streamed.
    pub streaming: bool,
}

/// What to do with an event.
pub enum SendAction {
    /// Nothing; the application goes on.
    Resolve,
    /// Answer with a known body, if an answer is still awaited.
    Fixed(Option<OutboundResponse>),
    /// Answer with a streamed body that begins with this chunk, if an answer is still awaited.
    Stream(Option<OutboundResponse>, Vec<u8>),
    /// Put this chunk into the stream; the flag says whether more follow.
    Push(Vec<u8>, bool),
}

/// How putting a chunk into the stream went.
#[derive(Clone, Copy, PartialEq, Eq, Structural, Debug)]
pub enum Pushed {
    /// It is in.
    Sent,
    /// The stream is full; the chunk waits.
    Full,
    /// Nobody reads the stream any more.
    Closed,
}

/// Whether the application goes on at once or waits.
#[derive(Clone, Copy, PartialEq, Eq, Structural, Debug)]
pub enum Progress {
    /// It goes on.
    Resolve,
    /// It waits until the chunk is in.
    Await,
}

/// A response made of a response start and a known body.
pub open spec fn fixed_response(r: OutboundResponse, status: u16, f: Fields, body: Seq<u8>) -> bool {
    &&& r.status == usable_status(status)
    &&& fields(r.headers) == f
    &&& r.body matches ResponseBody::Fixed(b) && b@ == body
    &&& r.server_route is None
}

/// A response made of a response start, whose body is streamed.
pub open spec fn stream_response(r: OutboundResponse, status: u16, f: Fields) -> bool {
    &&& r.status == usable_status(status)
    &&& fields(r.headers) == f
    &&& r.body is Stream
    &&& r.server_route is None
}

/// The headers of a response start, none if there were none.
pub open spec fn headers_or_none(h: Option<Fields>) -> Fields {
    match h {
        Some(f) => f,
        None => no_fields(),
    }
}

impl AsgiSend {
    /// The mathematical value.
    pub open spec fn data(self) -> SendData {
        SendData {
            status: self.status,
            headers: match self.headers {
                Some(h) => Some(fields(h)),
                None => None,
            },
            response_open: self.response_open,
            disconnect_open: self.disconnect_open,
            streaming: self.streaming,
        }
    }

    /// A response that nothing was sent of.
    pub fn http() -> (out: AsgiSend)
        ensures
            out.data() == (SendData {
                status: None,
                headers: None,
                response_open: true,
                disconnect_open: true,
                streaming: false,
            }),
    {
        AsgiSend {
            status: None,
            headers: None,
            response_open: true,
            disconnect_open: true,
            streaming: false,
        }
    }

    /// Reports an exception of the application: the text to answer with, if an answer is
    /// still awaited.
    pub fn send_error(&mut self, traceback: String) -> (out: Option<String>)
        ensures
            old(self).response_open ==> out == Some(traceback),
            !old(self).response_open ==> out is None,
            final(self).data() == (SendData { response_open: false, ..old(self).data() }),
    {
        if self.response_open {
            self.response_open = false;
            Some(traceback)
        } else {
            None
        }
    }

    /// Handles an event of an HTTP response. A response start is remembered. The first body
    /// chunk sends the response: with a known body if no chunk follows, else as a stream.
    /// Further chunks go into the stream. A body before any response start, and an event of
    /// another protocol, are refused.
    pub fn handle_http(&mut self, event: AsgiEvent) -> (out: Result<SendAction, EventError>)
        ensures
            match event {
                AsgiEvent::ResponseStart { status, headers } => {
                    &&& out == Ok::<SendAction, EventError>(SendAction::Resolve)
                    &&& final(self).data() == (SendData {
                        status: Some(status),
                        headers: Some(fields(headers)),
                        ..old(self).data()
                    })
                },
                AsgiEvent::ResponseBody { body, more_body } => if old(self).streaming {
                    &&& out == Ok::<SendAction, EventError>(SendAction::Push(body, more_body))
                    &&& final(self).data() == old(self).data()
                } else if old(self).status is None {
                    &&& out matches Err(e) && e.fault() == EventFault::Protocol(
                        "ASGI protocol error: body before response start"@,
                    )
                    &&& final(self).data() == old(self).data()
                } else {
                    first_body(
                        old(self).data(),
                        old(self).status->0,
                        body,
                        more_body,
                        out,
                        final(self).data(),
                    )
                },
                _ => {
                    &&& out matches Err(e) && e.fault() == EventFault::Protocol(
                        "unexpected event type in HTTP mode"@,
                    )
                    &&& final(self).data() == old(self).data()
                },
            },
    {
        match event {
            AsgiEvent::ResponseStart { status, headers } => {
                self.status = Some(status);
                self.headers = Some(headers);
                Ok(SendAction::Resolve)
            },
            AsgiEvent::ResponseBody { body, more_body } => if self.streaming {
                Ok(SendAction::Push(body, more_body))
            } else {
                self.handle_first_body(body, more_body)
            },
            _ => Err(
                EventError::Protocol(String::from_str("unexpected event type in HTTP mode")),
            ),
        }
    }

    /// Sends the response with its first body chunk.
    fn handle_first_body(&mut self, body: Vec<u8>, more_body: bool) -> (out: Result<
        SendAction,
        EventError,
    >)
        requires
            !old(self).streaming,
        ensures
            if old(self).status is None {
                &&& out matches Err(e) && e.fault() == EventFault::Protocol(
                    "ASGI protocol error: body before response start"@,
                )
                &&& final(self).data() == old(self).data()
            } else {
                first_body(
                    old(self).data(),
                    old(self).status->0,
                    body,
                    more_body,
                    out,
                    final(self).data(),
                )
            },
    {
        let raw_status = match self.status {
            Some(s) => s,
            None => return Err(
                EventError::Protocol(
                    String::from_str("ASGI protocol error: body before response start"),
                ),
            ),
        };
        self.status = None;
        let headers = match self.headers.take() {
            Some(h) => h,
            None => empty(),
        };
        let status = status_or_500(raw_status);
        let open = self.response_open;
        self.response_open = false;
        self.disconnect_open = false;
        if more_body {
            self.streaming = true;
            if open {
                Ok(
                    SendAction::Stream(
                        Some(
                            OutboundResponse {
                                status,
                                headers,
                                body: ResponseBody::Stream,
                                server_route: None,
                            },
                        ),
                        body,
                    ),
                )
            } else {
                Ok(SendAction::Stream(None, body))
            }
        } else if open {
            Ok(
                SendAction::Fixed(
                    Some(
                        OutboundResponse {
                            status,
                            headers,
                            body: ResponseBody::Fixed(body),
                            server_route: None,
                        },
                    ),
                ),
            )
        } else {
            Ok(SendAction::Fixed(None))
        }
    }

    /// What follows when a chunk was put into the stream: the last chunk closes it, and so
    /// does a stream that nobody reads, which is an error.
    pub fn handle_stream_body(&mut self, pushed: Pushed, more_body: bool) -> (out: Result<
        Progress,
        EventError,
    >)
        ensures
            match pushed {
                Pushed::Sent => {
                    &&& out == Ok::<Progress, EventError>(Progress::Resolve)
                    &&& final(self).data() == (SendData {
                        streaming: old(self).streaming && more_body,
                        ..old(self).data()
                    })
                },
                Pushed::Full => {
                    &&& out == Ok::<Progress, EventError>(Progress::Await)
                    &&& final(self).data() == (SendData {
                        streaming: old(self).streaming && more_body,
                        ..old(self).data()
                    })
                },
                Pushed::Closed => {
                    &&& out matches Err(e) && e.fault() == EventFault::Protocol(
                        "stream channel closed"@,
                    )
                    &&& final(self).data() == (SendData { streaming: false, ..old(self).data() })
                },
            },
    {
        match pushed {
            Pushed::Sent => {
                if !more_body {
                    self.streaming = false;
                }
                Ok(Progress::Resolve)
            },
            Pushed::Full => {
                if !more_body {
                    self.streaming = false;
                }
                Ok(Progress::Await)
            },
            Pushed::Closed => {
                self.streaming = false;
                Err(EventError::Protocol(String::from_str("stream channel closed")))
            },
        }
    }

    /// What follows when an event was put into the channel of a WebSocket.
    pub fn handle_ws(pushed: Pushed) -> (out: Result<Progress, EventError>)
        ensures
            match pushed {
                Pushed::Sent => out == Ok::<Progress, EventError>(Progress::Resolve),
                Pushed::Full => out == Ok::<Progress, EventError>(Progress::Await),
                Pushed::Closed => out matches Err(e) && e.fault() == EventFault::Protocol(
                    "response channel closed"@,
                ),
            },
    {
        match pushed {
            Pushed::Sent => Ok(Progress::Resolve),
            Pushed::Full => Ok(Progress::Await),
            Pushed::Closed => Err(
                EventError::Protocol(String::from_str("response channel closed")),
            ),
        }
    }
}

/// The first body chunk after a response start with `status`: the start is used up, an answer
/// goes out if one is still awaited, and the stream is open if more chunks follow.
pub open spec fn first_body(
    before: SendData,
    status: u16,
    body: Vec<u8>,
    more_body: bool,
    out: Result<SendAction, EventError>,
    after: SendData,
) -> bool {
    &&& after == SendData {
        status: None,
        headers: None,
        response_open: false,
        disconnect_open: false,
        streaming: more_body,
    }
    &&& if more_body {
        out matches Ok(SendAction::Stream(r, first)) && first == body && match r {
            Some(o) => before.response_open && stream_response(
                o,
                status,
                headers_or_none(before.headers),
            ),
            None => !before.response_open,
        }
    } else {
        out matches Ok(SendAction::Fixed(r)) && match r {
            Some(o) => before.response_open && fixed_response(
                o,
                status,
                headers_or_none(before.headers),
                body@,
            ),
            None => !before.response_open,
        }
    }
}

/// Whether an action carries an answer.
pub open spec fn answers(a: Result<SendAction, EventError>) -> bool {
    match a {
        Ok(SendAction::Fixed(Some(_))) => true,
        Ok(SendAction::Stream(Some(_), _)) => true,
        _ => false,
    }
}

/// At most one answer is given: an answer goes out only while one is awaited, and none is
/// awaited afterwards.
pub proof fn one_answer(
    before: SendData,
    status: u16,
    body: Vec<u8>,
    more_body: bool,
    out: Result<SendAction, EventError>,
    after: SendData,
)
    requires
        first_body(before, status, body, more_body, out, after),
    ensures
        answers(out) == before.response_open,
        !after.response_open,
{
}

/// The answer has the status and the headers of the response start and the bytes of the body; a
/// status that no response can have becomes 500.
pub proof fn answers_carry_start_and_body(
    before: SendData,
    status: u16,
    body: Vec<u8>,
    more_body: bool,
    out: Result<SendAction, EventError>,
    after: SendData,
)
    requires
        first_body(before, status, body, more_body, out, after),
        before.response_open,
    ensures
        !more_body ==> (out matches Ok(SendAction::Fixed(Some(r))) && r.status == (if 100 <= status
            <= 999 {
            status
        } else {
            500
        }) && (before.headers matches Some(f) ==> fields(r.headers) == f) && (
        before.headers is None ==> fields(r.headers) == Map::<Seq<char>, Seq<Seq<u8>>>::empty())
            && r.server_route is None && (r.body matches ResponseBody::Fixed(b) && b@ == body@)),
        more_body ==> (out matches Ok(SendAction::Stream(Some(r), first)) && r.status == (if 100
            <= status <= 999 {
            status
        } else {
            500
        }) && (before.headers matches Some(f) ==> fields(r.headers) == f) && (
        before.headers is None ==> fields(r.headers) == Map::<Seq<char>, Seq<Seq<u8>>>::empty())
            && r.server_route is None && r.body is Stream && first@ == body@),
        after.streaming == more_body,
        !after.response_open,
        !after.disconnect_open,
        after.status is None,
        after.headers is None,
{
}

/// Without somebody who awaits it, a body leads to no answer.
pub proof fn late_bodies_are_not_answered(
    before: SendData,
    status: u16,
    body: Vec<u8>,
    more_body: bool,
    out: Result<SendAction, EventError>,
    after: SendData,
)
    requires
        first_body(before, status, body, more_body, out, after),
        !before.response_open,
    ensures
        !more_body ==> out matches Ok(SendAction::Fixed(None)),
        more_body ==> (out matches Ok(SendAction::Stream(None, first)) && first@ == body@),
        after.streaming == more_body,
{
}

/// Statuses that a response can have stay, and the others become 500.
pub proof fn statuses_are_made_usable(status: u16)
    ensures
        100 <= status <= 999 ==> usable_status(status) == status,
        !(100 <= status <= 999) ==> usable_status(status) == 500,
{
}

/// What is shown of a response is where it stands.
pub proof fn sending_is_shown(s: AsgiSend)
    ensures
        s.data().status == s.status,
        s.headers matches Some(h) ==> s.data().headers == Some(fields(h)),
        s.headers is None ==> s.data().headers is None,
        s.data().response_open == s.response_open,
        s.data().disconnect_open == s.disconnect_open,
        s.data().streaming == s.streaming,
{
}

} // verus!

//! The `send` callable of the dispatch pipeline: response start, body chunks, errors.

use vstd::prelude::*;

use crate::asgi::event::{
    body_of, event_raw_headers, extract_body_bytes, extract_header_list, extract_more_body,
    extract_status, more_of, raw_views, status_of, Entries, EventError, EventFault,
};
use crate::python_value::{dict_data, get, lookup, PyData, PyValue};
use crate::text::{bytes_of, same, utf8};

verus! {

/// The beginning of a response.
#[derive(Debug)]
pub struct ResponseData {
    /// Status code.
    pub status: u16,
    /// Headers as byte strings.
    pub headers: Vec<(Vec<u8>, Vec<u8>)>,
    /// The body chunks that are there already.
    pub chunks: Vec<Vec<u8>>,
    /// Whether more chunks may follow.
    pub more: bool,
}

/// The `send` callable of a request.
pub struct SlotSend {
    /// Status of the response start that came last.
    pub status: Option<u16>,
    /// Headers of the response start that came last.
    pub raw_headers: Option<Vec<(Vec<u8>, Vec<u8>)>>,
    /// Whether a response is still awaited.
    pub response_open: bool,
    /// Whether body chunks are being streamed.
    pub streaming: bool,
    /// Whether an error response shows the traceback.
    pub dev_mode: bool,
}

/// The `send` callable of a request, as a mathematical value.
pub struct SlotData {
    /// Status of the response start that came last.
    pub status: Option<int>,
    /// Headers of the response start that came last.
    pub raw_headers: Option<Seq<(Seq<u8>, Seq<u8>)>>,
    /// Whether a response is still awaited.
    pub response_open: bool,
    /// Whether body chunks are being streamed.
    pub streaming: bool,
    /// Whether an error response shows the traceback.
    pub dev_mode: bool,
}

/// What to do after a call of `send`.
pub enum SlotAction {
    /// Nothing.
    Resolve,
    /// Begin the response, if one is still awaited.
    Respond(Option<ResponseData>),
    /// Send a chunk; the flag says whether the stream stays open.
    Push(Vec<u8>, bool),
}

/// The body of an error response.
pub open spec fn error_body(dev_mode: bool, traceback: Seq<char>) -> Seq<u8> {
    if dev_mode {
        utf8(traceback)
    } else {
        utf8("Internal Server Error"@)
    }
}

/// An error response.
pub open spec fn is_error_response(r: ResponseData, dev_mode: bool, traceback: Seq<char>) -> bool {
    &&& r.status == 500
    &&& raw_views(r.headers@) == seq![
        (utf8("content-type"@), utf8("text/plain; charset=utf-8"@)),
    ]
    &&& crate::headers::byte_views(r.chunks@) == seq![error_body(dev_mode, traceback)]
    &&& !r.more
}

/// Headers, none if there were none.
pub open spec fn raw_or_none(h: Option<Seq<(Seq<u8>, Seq<u8>)>>) -> Seq<(Seq<u8>, Seq<u8>)> {
    match h {
        Some(l) => l,
        None => Seq::empty(),
    }
}

/// What a call of `send` with a body chunk leads to.
pub open spec fn after_body(
    before: SlotData,
    body: Seq<u8>,
    more: bool,
    after: SlotData,
    out: Result<SlotAction, EventError>,
) -> bool {
    if before.streaming {
        &&& after == SlotData { streaming: more, ..before }
        &&& out matches Ok(SlotAction::Push(b, open)) && b@ == body && open == more
    } else {
        match before.status {
            None => {
                &&& after == before
                &&& out matches Err(e) && e.fault() == EventFault::Protocol(
                    "ASGI protocol error: body before response start"@,
                )
            },
            Some(status) => {
                &&& after == SlotData {
                    status: None,
                    raw_headers: None,
                    response_open: false,
                    streaming: more,
                    ..before
                }
                &&& out matches Ok(SlotAction::Respond(r)) && match r {
                    Some(d) => {
                        &&& before.response_open
                        &&& d.status == status
                        &&& raw_views(d.headers@) == raw_or_none(before.raw_headers)
                        &&& crate::headers::byte_views(d.chunks@) == (if body.len() == 0 {
                            Seq::empty()
                        } else {
                            seq![body]
                        })
                        &&& d.more == more
                    },
                    None => !before.response_open,
                }
            },
        }
    }
}

/// What a call of `send` leads to.
pub open spec fn after_event(
    before: SlotData,
    d: Entries,
    after: SlotData,
    out: Result<SlotAction, EventError>,
) -> bool {
    match lookup(d, "type"@) {
        None => after == before && (out matches Err(e) && e.fault() == EventFault::MissingKey(
            "type"@,
        )),
        Some(PyData::Str(kind)) => if kind == "http.response.start"@ {
            match (status_of(d), event_raw_headers(d, true)) {
                (Err(f), _) => after == before && (out matches Err(e) && e.fault() == f),
                (Ok(_), Err(f)) => after == before && (out matches Err(e) && e.fault() == f),
                (Ok(status), Ok(headers)) => {
                    &&& after == SlotData {
                        status: Some(status),
                        raw_headers: Some(headers),
                        ..before
                    }
                    &&& out matches Ok(SlotAction::Resolve)
                },
            }
        } else if kind == "http.response.body"@ {
            match (body_of(d), more_of(d)) {
                (Err(f), _) => after == before && (out matches Err(e) && e.fault() == f),
                (Ok(_), Err(f)) => after == before && (out matches Err(e) && e.fault() == f),
                (Ok(body), Ok(more)) => after_body(before, body, more, after, out),
            }
        } else {
            after == before && (out matches Err(e) && e.fault() == EventFault::Invalid(
                "unsupported ASGI event type: "@ + kind,
            ))
        },
        Some(_) => after == before && (out matches Err(e) && e.fault() == EventFault::WrongType),
    }
}

/// The callable before anything was sent.
pub open spec fn unused_send(dev_mode: bool) -> SlotData {
    SlotData {
        status: None,
        raw_headers: None,
        response_open: true,
        streaming: false,
        dev_mode,
    }
}

impl SlotSend {
    /// The mathematical value.
    pub open spec fn data(self) -> SlotData {
        SlotData {
            status: match self.status {
                Some(s) => Some(s as int),
                None => None,
            },
            raw_headers: match self.raw_headers {
                Some(h) => Some(raw_views(h@)),
                None => None,
            },
            response_open: self.response_open,
            streaming: self.streaming,
            dev_mode: self.dev_mode,
        }
    }

    /// A response that nothing was sent of.
    pub fn new(dev_mode: bool) -> (out: SlotSend)
        ensures
            out.data() == unused_send(dev_mode),
    {
        SlotSend {
            status: None,
            raw_headers: None,
            response_open: true,
            streaming: false,
            dev_mode,
        }
    }

    /// Answers an exception of the application with status 500, if an answer is still
    /// awaited. The traceback is shown only in dev mode.
    pub fn send_error(&mut self, traceback: &str) -> (out: Option<ResponseData>)
        ensures
            match out {
                Some(r) => old(self).response_open && is_error_response(
                    r,
                    old(self).dev_mode,
                    traceback@,
                ),
                None => !old(self).response_open,
            },
            final(self).data() == (SlotData { response_open: false, ..old(self).data() }),
    {
        if !self.response_open {
            return None;
        }
        self.response_open = false;
        let body = if self.dev_mode {
            bytes_of(traceback)
        } else {
            bytes_of("Internal Server Error")
        };
        let ghost b = body@;
        let mut chunks: Vec<Vec<u8>> = Vec::new();
        chunks.push(body);
        assert(crate::headers::byte_views(chunks@) =~= seq![b]);
        let mut headers: Vec<(Vec<u8>, Vec<u8>)> = Vec::new();
        headers.push((bytes_of("content-type"), bytes_of("text/plain; charset=utf-8")));
        assert(raw_views(headers@) =~= seq![
            (utf8("content-type"@), utf8("text/plain; charset=utf-8"@)),
        ]);
        Some(ResponseData { status: 500, headers, chunks, more: false })
    }

    /// A call of `send` with an event dict.
    pub fn call(&mut self, event: &[(String, PyValue)]) -> (out: Result<SlotAction, EventError>)
        ensures
            after_event(old(self).data(), dict_data(event@), final(self).data(), out),
    {
        let kind = match get(event, "type") {
            None => return Err(EventError::MissingKey(String::from_str("type"))),
            Some(PyValue::Str(s)) => s,
            Some(_) => return Err(EventError::WrongType),
        };
        if same(kind, "http.response.start") {
            let status = match extract_status(event) {
                Ok(s) => s,
                Err(e) => return Err(e),
            };
            let headers = match extract_header_list(event, true) {
                Ok(h) => h,
                Err(e) => return Err(e),
            };
            self.status = Some(status);
            self.raw_headers = Some(headers);
            Ok(SlotAction::Resolve)
        } else if same(kind, "http.response.body") {
            let body = match extract_body_bytes(event) {
                Ok(b) => b,
                Err(e) => return Err(e),
            };
            let more = match extract_more_body(event) {
                Ok(m) => m,
                Err(e) => return Err(e),
            };
            if self.streaming {
                self.streaming = more;
                Ok(SlotAction::Push(body, more))
            } else {
                self.send_first_body_chunk(body, more)
            }
        } else {
            Err(
                EventError::Invalid(
                    String::from_str("unsupported ASGI event type: ").concat(kind),
                ),
            )
        }
    }

    /// Begins the response with its first body chunk; an empty chunk is left out.
    fn send_first_body_chunk(&mut self, body: Vec<u8>, more: bool) -> (out: Result<
        SlotAction,
        EventError,
    >)
        requires
            !old(self).streaming,
        ensures
            after_body(old(self).data(), body@, more, final(self).data(), out),
    {
        let status = match self.status {
            Some(s) => s,
            None => return Err(
                EventError::Protocol(
                    String::from_str("ASGI protocol error: body before response start"),
                ),
            ),
        };
        self.status = None;
        let headers = match self.raw_headers.take() {
            Some(h) => h,
            None => {
                let none: Vec<(Vec<u8>, Vec<u8>)> = Vec::new();
                assert(raw_views(none@) =~= Seq::<(Seq<u8>, Seq<u8>)>::empty());
                none
            },
        };
        let ghost b = body@;
        let mut chunks: Vec<Vec<u8>> = Vec::new();
        if body.len() > 0 {
            chunks.push(body);
            assert(crate::headers::byte_views(chunks@) =~= seq![b]);
        } else {
            assert(crate::headers::byte_views(chunks@) =~= Seq::<Seq<u8>>::empty());
        }
        self.streaming = more;
        if self.response_open {
            self.response_open = false;
            Ok(SlotAction::Respond(Some(ResponseData { status, headers, chunks, more })))
        } else {
            Ok(SlotAction::Respond(None))
        }
    }
}

/// In production nothing of a traceback reaches the client: the error body is the same
/// whatever went wrong.
pub proof fn production_hides_tracebacks(a: Seq<char>, b: Seq<char>)
    ensures
        error_body(false, a) == error_body(false, b),
        error_body(false, a) == utf8("Internal Server Error"@),
{
}

/// A response begins at most once: after it began, or after an error answered it, no event
/// begins it again.
pub proof fn response_begins_once(
    before: SlotData,
    d: Entries,
    after: SlotData,
    out: Result<SlotAction, EventError>,
)
    requires
        after_event(before, d, after, out),
    ensures
        out matches Ok(SlotAction::Respond(Some(_))) ==> before.response_open
            && !after.response_open,
        !before.response_open ==> !after.response_open,
{
}

/// The chunks that a call of `send` hands to the client.
pub open spec fn chunks_of(out: Result<SlotAction, EventError>) -> Seq<Seq<u8>> {
    match out {
        Ok(SlotAction::Respond(Some(r))) => crate::headers::byte_views(r.chunks@),
        Ok(SlotAction::Push(b, _)) => seq![b@],
        _ => Seq::empty(),
    }
}

/// Chunks, one after the other.
pub open spec fn joined(chunks: Seq<Seq<u8>>) -> Seq<u8>
    decreases chunks.len(),
{
    if chunks.len() == 0 {
        Seq::empty()
    } else {
        joined(chunks.drop_last()) + chunks.last()
    }
}

/// The bytes that a series of calls hands to the client.
pub open spec fn bytes_sent(outs: Seq<Result<SlotAction, EventError>>) -> Seq<u8>
    decreases outs.len(),
{
    if outs.len() == 0 {
        Seq::empty()
    } else {
        bytes_sent(outs.drop_last()) + joined(chunks_of(outs.last()))
    }
}

/// What one call hands on is the body it was called with.
proof fn one_body_arrives(
    before: SlotData,
    body: Seq<u8>,
    more: bool,
    after: SlotData,
    out: Result<SlotAction, EventError>,
)
    requires
        after_body(before, body, more, after, out),
        before.streaming || (before.status is Some && before.response_open),
    ensures
        joined(chunks_of(out)) == body,
        after.streaming == more,
{
    reveal_with_fuel(joined, 2);
    assert(chunks_of(out) =~= seq![body] || (body.len() == 0 && chunks_of(out) =~= Seq::<
        Seq<u8>,
    >::empty()));
    if chunks_of(out) =~= seq![body] {
        assert(seq![body].drop_last() =~= Seq::<Seq<u8>>::empty());
        assert(joined(seq![body]) =~= body);
    } else {
        assert(body =~= Seq::<u8>::empty());
    }
}

/// An application that began a response sends its body in so many chunks, the last of which says
/// that none follows.
pub open spec fn sends(
    states: Seq<SlotData>,
    bodies: Seq<Seq<u8>>,
    outs: Seq<Result<SlotAction, EventError>>,
) -> bool {
    &&& states.len() == bodies.len() + 1
    &&& outs.len() == bodies.len()
    &&& states[0].status is Some
    &&& states[0].response_open
    &&& !states[0].streaming
    &&& forall|i: int|
        0 <= i < bodies.len() ==> after_body(
            states[i],
            #[trigger] bodies[i],
            i + 1 < bodies.len(),
            states[i + 1],
            outs[i],
        )
}

/// The first calls of a series hand on the bodies they were called with.
proof fn bodies_arrive(
    states: Seq<SlotData>,
    bodies: Seq<Seq<u8>>,
    outs: Seq<Result<SlotAction, EventError>>,
    n: int,
)
    requires
        sends(states, bodies, outs),
        0 <= n <= bodies.len(),
    ensures
        bytes_sent(outs.take(n)) == joined(bodies.take(n)),
        n > 0 ==> states[n].streaming == (n < bodies.len()),
    decreases n,
{
    if n > 0 {
        bodies_arrive(states, bodies, outs, n - 1);
        one_body_arrives(states[n - 1], bodies[n - 1], n < bodies.len(), states[n], outs[n - 1]);
        assert(outs.take(n).drop_last() =~= outs.take(n - 1));
        assert(bodies.take(n).drop_last() =~= bodies.take(n - 1));
    }
}

/// The client gets the body that the application sent, byte for byte and in order, however it was cut
/// into chunks, and the stream is closed at its end.
pub proof fn body_arrives_whole(
    states: Seq<SlotData>,
    bodies: Seq<Seq<u8>>,
    outs: Seq<Result<SlotAction, EventError>>,
)
    requires
        sends(states, bodies, outs),
        bodies.len() > 0,
    ensures
        bytes_sent(outs) == joined(bodies),
        !states.last().streaming,
{
    let n = bodies.len() as int;
    bodies_arrive(states, bodies, outs, n);
    assert(outs.take(n) =~= outs);
    assert(bodies.take(n) =~= bodies);
}

/// A response start followed by a body begins the response: with the status and the header lines of
/// the start, the bytes of the body unless it is empty, and the flag of the body.
pub proof fn responses_are_put_together(
    before: SlotData,
    start: Entries,
    middle: SlotData,
    started: Result<SlotAction, EventError>,
    body: Entries,
    after: SlotData,
    out: Result<SlotAction, EventError>,
    status: int,
    lines: Seq<(Seq<u8>, Seq<u8>)>,
    bytes: Seq<u8>,
    more: bool,
)
    requires
        before.response_open,
        !before.streaming,
        lookup(start, "type"@) == Some(PyData::Str("http.response.start"@)),
        lookup(start, "status"@) == Some(PyData::Int(status)),
        0 <= status <= 65535,
        event_raw_headers(start, true) == Ok::<Seq<(Seq<u8>, Seq<u8>)>, EventFault>(lines),
        lookup(body, "type"@) == Some(PyData::Str("http.response.body"@)),
        lookup(body, "body"@) == Some(PyData::Bytes(bytes)),
        lookup(body, "more_body"@) == Some(PyData::Bool(more)),
        after_event(before, start, middle, started),
        after_event(middle, body, after, out),
    ensures
        started matches Ok(SlotAction::Resolve),
        out matches Ok(SlotAction::Respond(Some(r))) && r.status == status && raw_views(r.headers@)
            == lines && r.more == more && (bytes.len() == 0 ==> r.chunks@.len() == 0) && (bytes.len()
            > 0 ==> r.chunks@.len() == 1 && r.chunks@[0]@ == bytes),
        !after.response_open,
        after.streaming == more,
        after.dev_mode == before.dev_mode,
{
    reveal_strlit("http.response.start");
    reveal_strlit("http.response.body");
    assert("http.response.body"@.len() != "http.response.start"@.len());
    assert(middle.status == Some(status));
    assert(middle.raw_headers == Some(lines));
    let r = out->Ok_0->Respond_0->0;
    let views = crate::headers::byte_views(r.chunks@);
    assert(views.len() == r.chunks@.len());
    if bytes.len() > 0 {
        assert(views[0] == bytes);
        assert(views[0] == r.chunks@[0]@);
    }
}

/// While a response is streamed each body event is passed on as it is, and the last one ends the
/// stream.
pub proof fn streamed_bodies_are_passed_on(
    before: SlotData,
    body: Entries,
    after: SlotData,
    out: Result<SlotAction, EventError>,
    bytes: Seq<u8>,
    more: bool,
)
    requires
        before.streaming,
        lookup(body, "type"@) == Some(PyData::Str("http.response.body"@)),
        lookup(body, "body"@) == Some(PyData::Bytes(bytes)),
        lookup(body, "more_body"@) == Some(PyData::Bool(more)),
        after_event(before, body, after, out),
    ensures
        out matches Ok(SlotAction::Push(b, open)) && b@ == bytes && open == more,
        after.streaming == more,
{
    reveal_strlit("http.response.start");
    reveal_strlit("http.response.body");
    assert("http.response.body"@.len() != "http.response.start"@.len());
}

/// Events that cannot be used are refused, with the reason, and change nothing.
pub proof fn unusable_events_change_nothing(
    before: SlotData,
    d: Entries,
    after: SlotData,
    out: Result<SlotAction, EventError>,
    kind: Seq<char>,
)
    requires
        after_event(before, d, after, out),
    ensures
        out is Err ==> after == before,
        lookup(d, "type"@) is None ==> (out matches Err(e) && e.fault() == EventFault::MissingKey(
            "type"@,
        )),
        (lookup(d, "type"@) matches Some(v) && !(v is Str)) ==> (out matches Err(e) && e.fault()
            == EventFault::WrongType),
        lookup(d, "type"@) == Some(PyData::Str(kind)) && kind != "http.response.start"@ && kind
            != "http.response.body"@ ==> (out matches Err(e) && e.fault() == EventFault::Invalid(
            "unsupported ASGI event type: "@ + kind,
        )),
        lookup(d, "type"@) == Some(PyData::Str("http.response.body"@)) && lookup(d, "body"@) is None
            && lookup(d, "more_body"@) is None && before.status is None && !before.streaming ==> (
        out matches Err(e) && e.fault() == EventFault::Protocol(
            "ASGI protocol error: body before response start"@,
        )),
{
    reveal_strlit("http.response.start");
    reveal_strlit("http.response.body");
    assert("http.response.body"@.len() != "http.response.start"@.len());
}

/// An error is answered with status 500 as plain text, which is the traceback only in development.
pub proof fn errors_are_answered(r: ResponseData, dev_mode: bool, traceback: Seq<char>)
    requires
        is_error_response(r, dev_mode, traceback),
    ensures
        r.status == 500,
        !r.more,
        r.headers@.len() == 1,
        r.headers@[0].0@ == utf8("content-type"@),
        r.headers@[0].1@ == utf8("text/plain; charset=utf-8"@),
        r.chunks@.len() == 1,
        dev_mode ==> r.chunks@[0]@ == utf8(traceback),
        !dev_mode ==> r.chunks@[0]@ == utf8("Internal Server Error"@),
{
    let h = raw_views(r.headers@);
    assert(h.len() == r.headers@.len());
    assert(h[0] == (r.headers@[0].0@, r.headers@[0].1@));
    let views = crate::headers::byte_views(r.chunks@);
    assert(views.len() == r.chunks@.len());
    assert(views[0] == r.chunks@[0]@);
}

/// What is shown of a response is where it stands.
pub proof fn slots_are_shown(s: SlotSend, dev_mode: bool)
    ensures
        s.status matches Some(n) ==> s.data().status == Some(n as int),
        s.status is None ==> s.data().status is None,
        s.raw_headers matches Some(h) ==> s.data().raw_headers == Some(raw_views(h@)),
        s.raw_headers is None ==> s.data().raw_headers is None,
        s.data().response_open == s.response_open,
        s.data().streaming == s.streaming,
        s.data().dev_mode == s.dev_mode,
        unused_send(dev_mode).response_open,
        !unused_send(dev_mode).streaming,
        unused_send(dev_mode).status is None,
        unused_send(dev_mode).raw_headers is None,
        unused_send(dev_mode).dev_mode == dev_mode,
{
}

} // verus!

//! A streamed response body, as it is read chunk by chunk.

use vstd::prelude::*;

use crate::asgi::event::{AsgiEvent, EventData};

verus! {

/// A streamed body that is being read.
pub struct AsgiBodyStream {
    /// The chunk that came with the response start, until it was read.
    pub initial_chunk: Option<Vec<u8>>,
    /// Whether the body is over.
    pub done: bool,
}

/// What can be read without asking the channel.
pub enum Buffered {
    /// The body is over.
    End,
    /// This chunk.
    Chunk(Vec<u8>),
    /// Nothing; the channel has to be asked.
    AskChannel,
}

/// What the channel holds.
pub enum Polled {
    /// Nothing yet.
    Pending,
    /// Nothing any more.
    Closed,
    /// An event.
    Event(AsgiEvent),
}

/// What is read.
pub enum Chunk {
    /// Nothing yet.
    Pending,
    /// The body is over.
    End,
    /// These bytes.
    Bytes(Vec<u8>),
}

impl AsgiBodyStream {
    /// A body that begins with `initial_chunk`, if there is one.
    pub fn new(initial_chunk: Option<Vec<u8>>) -> (out: AsgiBodyStream)
        ensures
            out.initial_chunk == initial_chunk,
            !out.done,
    {
        AsgiBodyStream { initial_chunk, done: false }
    }

    /// The chunk that is there without the channel: none after the end, else the initial one.
    pub fn poll_buffered(&mut self) -> (out: Buffered)
        ensures
            match out {
                Buffered::End => old(self).done && *final(self) == *old(self),
                Buffered::Chunk(c) => {
                    &&& !old(self).done
                    &&& old(self).initial_chunk == Some(c)
                    &&& *final(self) == (AsgiBodyStream { initial_chunk: None, done: false })
                },
                Buffered::AskChannel => {
                    &&& !old(self).done
                    &&& old(self).initial_chunk is None
                    &&& *final(self) == *old(self)
                },
            },
    {
        if self.done {
            return Buffered::End;
        }
        match self.initial_chunk.take() {
            Some(c) => Buffered::Chunk(c),
            None => Buffered::AskChannel,
        }
    }

    /// What the channel's answer means: a body event is a chunk, and the last one ends the
    /// body; a closed channel and any other event end it without a chunk.
    pub fn poll_next(&mut self, polled: Polled) -> (out: Chunk)
        requires
            !old(self).done,
            old(self).initial_chunk is None,
        ensures
            final(self).initial_chunk is None,
            match polled {
                Polled::Pending => out is Pending && !final(self).done,
                Polled::Event(AsgiEvent::ResponseBody { body, more_body }) => {
                    &&& out == Chunk::Bytes(body)
                    &&& final(self).done == !more_body
                },
                _ => out is End && final(self).done,
            },
    {
        match polled {
            Polled::Pending => Chunk::Pending,
            Polled::Event(AsgiEvent::ResponseBody { body, more_body }) => {
                if !more_body {
                    self.done = true;
                }
                Chunk::Bytes(body)
            },
            _ => {
                self.done = true;
                Chunk::End
            },
        }
    }
}

/// The chunks that a reader gets out of a list of events: bodies in order, up to the first
/// that is the last one or the first event of another kind.
pub open spec fn chunks_read(events: Seq<EventData>) -> Seq<Seq<u8>>
    decreases events.len(),
{
    if events.len() == 0 {
        Seq::empty()
    } else {
        match events[0] {
            EventData::ResponseBody { body, more_body } => if more_body {
                seq![body] + chunks_read(events.drop_first())
            } else {
                seq![body]
            },
            _ => Seq::empty(),
        }
    }
}

/// The chunk that came with the response start, if there is one.
pub open spec fn first_chunk(c: Option<Vec<u8>>) -> Seq<Seq<u8>> {
    match c {
        Some(b) => seq![b@],
        None => Seq::empty(),
    }
}

/// Reads all chunks of a body out of events that were sent before the channel closed.
pub fn read_all(initial_chunk: Option<Vec<u8>>, events: Vec<AsgiEvent>) -> (out: Vec<Vec<u8>>)
    ensures
        crate::headers::byte_views(out@) == first_chunk(initial_chunk) + chunks_read(
            event_views(events@),
        ),
{
    let ghost first = first_chunk(initial_chunk);
    let ghost all = event_views(events@);
    let mut stream = AsgiBodyStream::new(initial_chunk);
    let mut out: Vec<Vec<u8>> = Vec::new();
    match stream.poll_buffered() {
        Buffered::Chunk(c) => {
            out.push(c);
        },
        _ => {},
    }
    assert(crate::headers::byte_views(out@) =~= first);
    let mut events = events;
    assert(first + chunks_read(all) =~= crate::headers::byte_views(out@) + chunks_read(
        event_views(events@),
    ));
    while events.len() > 0 && !stream.done
        invariant
            stream.initial_chunk is None,
            stream.done ==> first + chunks_read(all) == crate::headers::byte_views(out@),
            !stream.done ==> first + chunks_read(all) == crate::headers::byte_views(out@)
                + chunks_read(event_views(events@)),
        decreases events.len(),
    {
        let ghost before = event_views(events@);
        let ghost read = crate::headers::byte_views(out@);
        let e = events.remove(0);
        assert(event_views(events@) =~= before.drop_first());
        assert(before[0] == e.data());
        match stream.poll_next(Polled::Event(e)) {
            Chunk::Bytes(b) => {
                let ghost body = b@;
                out.push(b);
                assert(crate::headers::byte_views(out@) =~= read.push(body));
                assert(read + (seq![body] + chunks_read(before.drop_first())) =~= read.push(body)
                    + chunks_read(before.drop_first()));
                assert(read + seq![body] =~= read.push(body));
            },
            _ => {
                assert(read + Seq::<Seq<u8>>::empty() =~= read);
            },
        }
    }
    assert(event_views(events@).len() == events@.len());
    assert(events@.len() == 0 ==> chunks_read(event_views(events@)) =~= Seq::<Seq<u8>>::empty());
    assert(crate::headers::byte_views(out@) + Seq::<Seq<u8>>::empty()
        =~= crate::headers::byte_views(out@));
    out
}

/// Events as mathematical values.
pub open spec fn event_views(v: Seq<AsgiEvent>) -> Seq<EventData> {
    Seq::new(v.len(), |i: int| v[i].data())
}

/// All bodies are read in order, up to and with the first one that says that nothing follows.
pub proof fn bodies_are_read_in_order(bodies: Seq<Seq<u8>>, events: Seq<EventData>, rest: Seq<EventData>)
    requires
        bodies.len() > 0,
        events.len() == bodies.len(),
        forall|i: int|
            0 <= i < bodies.len() ==> #[trigger] events[i] == (EventData::ResponseBody {
                body: bodies[i],
                more_body: i + 1 < bodies.len(),
            }),
    ensures
        chunks_read(events + rest) == bodies,
    decreases bodies.len(),
{
    let all = events + rest;
    assert(all[0] == events[0]);
    if bodies.len() > 1 {
        let b = bodies.drop_first();
        let e = events.drop_first();
        assert forall|i: int| 0 <= i < b.len() implies #[trigger] e[i] == (EventData::ResponseBody {
            body: b[i],
            more_body: i + 1 < b.len(),
        }) by {
            assert(e[i] == events[i + 1]);
        }
        bodies_are_read_in_order(b, e, rest);
        assert(all.drop_first() =~= e + rest);
        assert(seq![bodies[0]] + b =~= bodies);
    } else {
        assert(seq![bodies[0]] =~= bodies);
    }
}

/// A channel that closes, and an event that is no body, end the stream: what was read until then is
/// kept.
pub proof fn other_events_end_the_stream(
    bodies: Seq<Seq<u8>>,
    events: Seq<EventData>,
    end: EventData,
    rest: Seq<EventData>,
)
    requires
        events.len() == bodies.len(),
        forall|i: int|
            0 <= i < bodies.len() ==> #[trigger] events[i] == (EventData::ResponseBody {
                body: bodies[i],
                more_body: true,
            }),
        !(end is ResponseBody),
    ensures
        chunks_read(events) == bodies,
        chunks_read(events + seq![end] + rest) == bodies,
    decreases bodies.len(),
{
    let all = events + seq![end] + rest;
    if bodies.len() == 0 {
        assert(all[0] == end);
        assert(bodies =~= Seq::empty());
    } else {
        let b = bodies.drop_first();
        let e = events.drop_first();
        assert forall|i: int| 0 <= i < b.len() implies #[trigger] e[i] == (EventData::ResponseBody {
            body: b[i],
            more_body: true,
        }) by {
            assert(e[i] == events[i + 1]);
        }
        other_events_end_the_stream(b, e, end, rest);
        assert(all[0] == events[0]);
        assert(all.drop_first() =~= e + seq![end] + rest);
        assert(seq![bodies[0]] + b =~= bodies);
    }
}

/// The chunk that is there already comes first, and events are shown in their order.
pub proof fn the_first_chunk_comes_first(c: Vec<u8>, v: Seq<AsgiEvent>, i: int)
    ensures
        first_chunk(Some(c)) == seq![c@],
        first_chunk(None).len() == 0,
        event_views(v).len() == v.len(),
        0 <= i < v.len() ==> event_views(v)[i] == v[i].data(),
{
}

} // verus!

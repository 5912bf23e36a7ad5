//! Waking the Python side: redundant wakeups are skipped, and no request is left waiting.

use vstd::prelude::*;

verus! {

/// The wakeup flag: set while a wakeup byte is on its way.
#[derive(Clone, Copy, PartialEq, Eq, Structural, Debug)]
pub struct Wakeup {
    /// Whether a wakeup byte was written that nobody answered yet.
    pub pending: bool,
}

impl Wakeup {
    /// A flag that is not set.
    pub fn new() -> (out: Wakeup)
        ensures
            !out.pending,
    {
        Wakeup { pending: false }
    }

    /// Signals that a request waits. A byte is to be written only by the signal that sets the
    /// flag.
    pub fn signal(&mut self) -> (write: bool)
        ensures
            write == !old(self).pending,
            final(self).pending,
    {
        let write = !self.pending;
        self.pending = true;
        write
    }

    /// Clears the flag, so that the next signal writes a byte again.
    pub fn drain(&mut self)
        ensures
            !final(self).pending,
    {
        self.pending = false;
    }
}

/// What a look into the request queue leads to.
pub enum QueueStep<T> {
    /// This request.
    Deliver(T),
    /// Clear the wakeup flag and look once more: a request may have come in between.
    DrainAndRetry,
    /// The queue is empty.
    Empty,
}

/// What follows a look into the queue. An empty queue is looked at once more after the flag
/// was cleared.
pub fn try_recv<T>(found: Option<T>, drained: bool) -> (out: QueueStep<T>)
    ensures
        match found {
            Some(t) => out == QueueStep::Deliver(t),
            None => if drained {
                out is Empty
            } else {
                out is DrainAndRetry
            },
        },
{
    match found {
        Some(t) => QueueStep::Deliver(t),
        None => if drained {
            QueueStep::Empty
        } else {
            QueueStep::DrainAndRetry
        },
    }
}

/// What the receiving side is doing.
#[derive(Clone, Copy, PartialEq, Eq, Structural, Debug)]
pub enum Receiver {
    /// It sleeps until a byte can be read.
    Asleep,
    /// It takes requests off the queue.
    Receiving,
    /// It found the queue empty, cleared the flag, and looks once more.
    Rechecking,
}

/// The queue, its flag, the wakeup byte and both sides.
pub struct Pipeline {
    /// Requests in the queue.
    pub queued: nat,
    /// Senders that queued a request and did not signal yet.
    pub unsignalled: nat,
    /// The wakeup flag.
    pub pending: bool,
    /// Whether a byte can be read.
    pub byte: bool,
    /// The receiving side.
    pub receiver: Receiver,
}

/// A step of one of the sides.
pub enum PipelineStep {
    /// A sender queues a request.
    Queue,
    /// A sender that queued a request signals.
    Signal,
    /// The receiver reads a byte and wakes up.
    Wake,
    /// The receiver looks into the queue.
    Receive,
}

/// The pipeline after a step; a step that is not possible changes nothing.
pub open spec fn after_step(p: Pipeline, s: PipelineStep) -> Pipeline {
    match s {
        PipelineStep::Queue => Pipeline {
            queued: p.queued + 1,
            unsignalled: p.unsignalled + 1,
            ..p
        },
        PipelineStep::Signal => if p.unsignalled == 0 {
            p
        } else {
            Pipeline {
                unsignalled: (p.unsignalled - 1) as nat,
                pending: true,
                byte: p.byte || !p.pending,
                ..p
            }
        },
        PipelineStep::Wake => if p.receiver == Receiver::Asleep && p.byte {
            Pipeline { byte: false, receiver: Receiver::Receiving, ..p }
        } else {
            p
        },
        PipelineStep::Receive => match p.receiver {
            Receiver::Asleep => p,
            Receiver::Receiving => if p.queued > 0 {
                Pipeline { queued: (p.queued - 1) as nat, ..p }
            } else {
                Pipeline { pending: false, receiver: Receiver::Rechecking, ..p }
            },
            Receiver::Rechecking => if p.queued > 0 {
                Pipeline {
                    queued: (p.queued - 1) as nat,
                    receiver: Receiver::Receiving,
                    ..p
                }
            } else {
                Pipeline { receiver: Receiver::Asleep, ..p }
            },
        },
    }
}

/// The pipeline before anything happened.
pub open spec fn fresh_pipeline() -> Pipeline {
    Pipeline {
        queued: 0,
        unsignalled: 0,
        pending: false,
        byte: false,
        receiver: Receiver::Asleep,
    }
}

/// What holds at all times: unless the receiver takes requests, a set flag means that a byte
/// can be read; and while it sleeps, a queued request means that a byte can be read or a
/// signal is still to come.
pub open spec fn never_stranded(p: Pipeline) -> bool {
    &&& p.receiver != Receiver::Receiving ==> (p.pending ==> p.byte)
    &&& p.receiver == Receiver::Asleep ==> (p.queued > 0 ==> p.byte || p.unsignalled > 0)
}

/// The pipeline after a list of steps.
pub open spec fn after_steps(p: Pipeline, steps: Seq<PipelineStep>) -> Pipeline
    decreases steps.len(),
{
    if steps.len() == 0 {
        p
    } else {
        after_step(after_steps(p, steps.drop_last()), steps.last())
    }
}

/// However the steps of senders and receiver are interleaved, no request is left behind:
/// when all senders have signalled and the receiver sleeps, requests in the queue wake it.
pub proof fn no_request_is_stranded(steps: Seq<PipelineStep>)
    ensures
        never_stranded(after_steps(fresh_pipeline(), steps)),
        ({
            let p = after_steps(fresh_pipeline(), steps);
            p.receiver == Receiver::Asleep && p.unsignalled == 0 && p.queued > 0 ==> p.byte
        }),
    decreases steps.len(),
{
    if steps.len() > 0 {
        no_request_is_stranded(steps.drop_last());
    }
}

/// Signals between two drains write one byte in all: the first one does, the others do not.
pub proof fn signals_coalesce(p: Pipeline)
    requires
        p.pending,
        p.unsignalled > 0,
    ensures
        after_step(p, PipelineStep::Signal).byte == p.byte,
{
}

/// A request that is queued counts until it is received, and receiving never loses one: it takes
/// one that is there, looks once more when there is none, and only then falls asleep.
pub proof fn receiving_empties_the_queue(p: Pipeline)
    ensures
        after_step(p, PipelineStep::Queue).queued == p.queued + 1,
        after_step(p, PipelineStep::Signal).queued == p.queued,
        after_step(p, PipelineStep::Wake).queued == p.queued,
        p.receiver != Receiver::Asleep && p.queued > 0 ==> after_step(p, PipelineStep::Receive).queued
            == p.queued - 1 && after_step(p, PipelineStep::Receive).receiver == Receiver::Receiving,
        p.receiver == Receiver::Receiving && p.queued == 0 ==> after_step(
            p,
            PipelineStep::Receive,
        ).receiver == Receiver::Rechecking && !after_step(p, PipelineStep::Receive).pending,
        p.receiver == Receiver::Rechecking && p.queued == 0 ==> after_step(
            p,
            PipelineStep::Receive,
        ).receiver == Receiver::Asleep,
        p.receiver == Receiver::Asleep && p.byte ==> after_step(p, PipelineStep::Wake).receiver
            == Receiver::Receiving,
        p.unsignalled > 0 && !p.pending ==> after_step(p, PipelineStep::Signal).byte,
{
}

} // verus!

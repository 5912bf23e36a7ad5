//! How workers are stopped: the graceful way at shutdown, and the quick way before a reload.

use vstd::prelude::*;

use crate::supervision::ipc::protocol::{IpcError, IpcMessage};

verus! {

/// Milliseconds between asking a process to stop and killing it.
pub const SIGKILL_TIMEOUT_MS: u64 = 3000;

/// Where a stop stands.
#[derive(Clone, Copy, PartialEq, Eq, Structural, Debug)]
pub enum StopState {
    /// Nothing was done yet.
    Idle,
    /// Every worker is told to drain.
    SendingDrain,
    /// Waiting until every worker has drained.
    AwaitingDrained,
    /// Every process is being asked to stop.
    Terminating,
    /// Waiting until every process has exited.
    AwaitingExit,
    /// Every process that is left is being killed.
    Killing,
    /// The stop is over.
    Stopped,
}

/// What happened.
#[derive(Clone, Copy, PartialEq, Eq, Structural, Debug)]
pub enum StopEvent {
    /// The stop begins.
    Begin,
    /// The action asked for was done; a wait ended because all workers had drained or exited.
    Done,
    /// A wait ended because its time was over.
    TimedOut,
}

/// What to do next.
#[derive(Clone, Copy, PartialEq, Eq, Structural, Debug)]
pub enum StopAction {
    /// Tell every worker to drain; a failed send is passed over.
    SendDrain,
    /// Wait until every worker has said that it is drained, for at most so many milliseconds.
    AwaitDrained(u64),
    /// Ask every process to stop.
    Terminate,
    /// Wait for the exit of every process, for at most so many milliseconds.
    AwaitExit(u64),
    /// Kill every process.
    Kill,
    /// Nothing more is to be done.
    Return,
}

/// The graceful stop as a transition: drain, wait, and kill what lingers.
pub open spec fn graceful(s: StopState, e: StopEvent, drain_ms: u64) -> (StopState, StopAction) {
    match (s, e) {
        (StopState::Idle, _) => (StopState::SendingDrain, StopAction::SendDrain),
        (StopState::SendingDrain, _) => (
            StopState::AwaitingDrained,
            StopAction::AwaitDrained(drain_ms),
        ),
        (StopState::AwaitingDrained, StopEvent::TimedOut) => (
            StopState::Terminating,
            StopAction::Terminate,
        ),
        (StopState::AwaitingDrained, _) => (
            StopState::AwaitingExit,
            StopAction::AwaitExit(SIGKILL_TIMEOUT_MS),
        ),
        (StopState::Terminating, _) => (
            StopState::AwaitingExit,
            StopAction::AwaitExit(SIGKILL_TIMEOUT_MS),
        ),
        (StopState::AwaitingExit, StopEvent::TimedOut) => (StopState::Killing, StopAction::Kill),
        (StopState::AwaitingExit, _) => (StopState::Stopped, StopAction::Return),
        (StopState::Killing, _) => (StopState::Stopped, StopAction::Return),
        (StopState::Stopped, _) => (StopState::Stopped, StopAction::Return),
    }
}

/// One step of the graceful stop. Workers drain for at most `drain_ms`; if one does not
/// drain in time they are asked to stop; what has not exited after that is killed.
pub fn shutdown_workers(state: StopState, event: StopEvent, drain_ms: u64) -> (out: (
    StopState,
    StopAction,
))
    ensures
        out == graceful(state, event, drain_ms),
{
    let timed_out = match event {
        StopEvent::TimedOut => true,
        _ => false,
    };
    match state {
        StopState::Idle => (StopState::SendingDrain, StopAction::SendDrain),
        StopState::SendingDrain => (StopState::AwaitingDrained, StopAction::AwaitDrained(drain_ms)),
        StopState::AwaitingDrained => if timed_out {
            (StopState::Terminating, StopAction::Terminate)
        } else {
            (StopState::AwaitingExit, StopAction::AwaitExit(SIGKILL_TIMEOUT_MS))
        },
        StopState::Terminating => (
            StopState::AwaitingExit,
            StopAction::AwaitExit(SIGKILL_TIMEOUT_MS),
        ),
        StopState::AwaitingExit => if timed_out {
            (StopState::Killing, StopAction::Kill)
        } else {
            (StopState::Stopped, StopAction::Return)
        },
        StopState::Killing => (StopState::Stopped, StopAction::Return),
        StopState::Stopped => (StopState::Stopped, StopAction::Return),
    }
}

/// A worker has drained exactly if it said so.
pub open spec fn has_drained(reply: Result<IpcMessage, IpcError>) -> bool {
    match reply {
        Ok(m) => m is Drained,
        Err(_) => false,
    }
}

/// Whether the wait for one worker is over: it has drained, or its channel failed. Any other
/// message is passed over.
pub fn ends_drain_wait(reply: &Result<IpcMessage, IpcError>) -> (out: bool)
    ensures
        out == (has_drained(*reply) || reply is Err),
{
    match reply {
        Ok(IpcMessage::Drained) => true,
        Ok(_) => false,
        Err(_) => true,
    }
}

/// Judges the wait for workers to drain by the last reply of each and whether all came in time:
/// it is done only if every worker said that it is drained.
pub fn wait_for_all_drained(replies: &[Result<IpcMessage, IpcError>], in_time: bool) -> (out:
    StopEvent)
    ensures
        out == (if in_time && forall|i: int|
            0 <= i < replies@.len() ==> has_drained(#[trigger] replies@[i]) {
            StopEvent::Done
        } else {
            StopEvent::TimedOut
        }),
{
    if !in_time {
        return StopEvent::TimedOut;
    }
    for i in 0..replies.len()
        invariant
            forall|j: int| 0 <= j < i ==> has_drained(#[trigger] replies@[j]),
    {
        let drained = match &replies[i] {
            Ok(IpcMessage::Drained) => true,
            _ => false,
        };
        if !drained {
            assert(!has_drained(replies@[i as int]));
            return StopEvent::TimedOut;
        }
    }
    StopEvent::Done
}

/// The quick stop as a transition: ask to stop, wait, and kill what lingers.
pub open spec fn quick(s: StopState, e: StopEvent, cleanup_ms: u64) -> (StopState, StopAction) {
    match (s, e) {
        (StopState::Terminating, _) => (
            StopState::AwaitingExit,
            StopAction::AwaitExit(cleanup_ms),
        ),
        (StopState::AwaitingExit, StopEvent::TimedOut) => (StopState::Killing, StopAction::Kill),
        (StopState::AwaitingExit, _) => (StopState::Stopped, StopAction::Return),
        (StopState::Killing, _) => (StopState::Stopped, StopAction::Return),
        (StopState::Stopped, _) => (StopState::Stopped, StopAction::Return),
        _ => (StopState::Terminating, StopAction::Terminate),
    }
}

/// One step of the quick stop before a reload: no draining, `cleanup_ms` to exit, then kill.
pub fn kill_workers(state: StopState, event: StopEvent, cleanup_ms: u64) -> (out: (
    StopState,
    StopAction,
))
    ensures
        out == quick(state, event, cleanup_ms),
{
    let timed_out = match event {
        StopEvent::TimedOut => true,
        _ => false,
    };
    match state {
        StopState::Terminating => (StopState::AwaitingExit, StopAction::AwaitExit(cleanup_ms)),
        StopState::AwaitingExit => if timed_out {
            (StopState::Killing, StopAction::Kill)
        } else {
            (StopState::Stopped, StopAction::Return)
        },
        StopState::Killing => (StopState::Stopped, StopAction::Return),
        StopState::Stopped => (StopState::Stopped, StopAction::Return),
        _ => (StopState::Terminating, StopAction::Terminate),
    }
}

/// The state after a list of events.
pub open spec fn graceful_run(s: StopState, events: Seq<StopEvent>, drain_ms: u64) -> StopState
    decreases events.len(),
{
    if events.len() == 0 {
        s
    } else {
        graceful(graceful_run(s, events.drop_last(), drain_ms), events.last(), drain_ms).0
    }
}

/// The state after a list of events of the quick stop.
pub open spec fn quick_run(s: StopState, events: Seq<StopEvent>, cleanup_ms: u64) -> StopState
    decreases events.len(),
{
    if events.len() == 0 {
        s
    } else {
        quick(quick_run(s, events.drop_last(), cleanup_ms), events.last(), cleanup_ms).0
    }
}

/// A graceful stop ends only after every process was seen to exit, or after what was left
/// had been killed. No worker outlives it.
pub proof fn graceful_stop_leaves_no_worker(s: StopState, e: StopEvent, drain_ms: u64)
    requires
        s != StopState::Stopped,
        graceful(s, e, drain_ms).0 == StopState::Stopped,
    ensures
        s == StopState::Killing || (s == StopState::AwaitingExit && e != StopEvent::TimedOut),
{
}

/// A quick stop ends only after every process was seen to exit, or after what was left had
/// been killed.
pub proof fn quick_stop_leaves_no_worker(s: StopState, e: StopEvent, cleanup_ms: u64)
    requires
        s != StopState::Stopped,
        quick(s, e, cleanup_ms).0 == StopState::Stopped,
    ensures
        s == StopState::Killing || (s == StopState::AwaitingExit && e != StopEvent::TimedOut),
{
}

/// Processes are killed only after a wait for their exit had timed out.
pub proof fn kill_follows_a_timeout(s: StopState, e: StopEvent, ms: u64)
    ensures
        graceful(s, e, ms).1 == StopAction::Kill ==> s == StopState::AwaitingExit && e
            == StopEvent::TimedOut,
        quick(s, e, ms).1 == StopAction::Kill ==> s == StopState::AwaitingExit && e
            == StopEvent::TimedOut,
{
}

/// A quick stop never drains.
pub proof fn quick_stop_never_drains(s: StopState, e: StopEvent, cleanup_ms: u64)
    ensures
        quick(s, e, cleanup_ms).1 != StopAction::SendDrain,
        !(quick(s, e, cleanup_ms).1 is AwaitDrained),
{
}

/// However the waits end, a graceful stop is over after six events.
pub proof fn graceful_stop_is_bounded(events: Seq<StopEvent>, drain_ms: u64)
    requires
        events.len() >= 6,
    ensures
        graceful_run(StopState::Idle, events, drain_ms) == StopState::Stopped,
    decreases events.len(),
{
    if events.len() > 6 {
        graceful_stop_is_bounded(events.drop_last(), drain_ms);
    } else {
        reveal_with_fuel(graceful_run, 7);
        let e5 = events.drop_last();
        let e4 = e5.drop_last();
        let e3 = e4.drop_last();
        let e2 = e3.drop_last();
        let e1 = e2.drop_last();
        assert(e1.drop_last().len() == 0);
    }
}

/// However the wait ends, a quick stop is over after four events.
pub proof fn quick_stop_is_bounded(events: Seq<StopEvent>, cleanup_ms: u64)
    requires
        events.len() >= 4,
    ensures
        quick_run(StopState::Idle, events, cleanup_ms) == StopState::Stopped,
    decreases events.len(),
{
    if events.len() > 4 {
        quick_stop_is_bounded(events.drop_last(), cleanup_ms);
    } else {
        reveal_with_fuel(quick_run, 5);
        let e3 = events.drop_last();
        let e2 = e3.drop_last();
        let e1 = e2.drop_last();
        assert(e1.drop_last().len() == 0);
    }
}

/// A graceful stop first tells every worker to drain, then waits for that as long as allowed. If all
/// have drained it waits for them to exit; if not, it asks them to stop first. Three seconds later
/// what is left is killed.
pub proof fn a_graceful_stop_runs_its_course(drained: StopEvent, exited: StopEvent, drain_ms: u64)
    requires
        drained == StopEvent::Done || drained == StopEvent::TimedOut,
        exited == StopEvent::Done || exited == StopEvent::TimedOut,
    ensures
        ({
            let (s1, a1) = graceful(StopState::Idle, StopEvent::Begin, drain_ms);
            let (s2, a2) = graceful(s1, StopEvent::Done, drain_ms);
            let (s3, a3) = graceful(s2, drained, drain_ms);
            let (s4, a4) = graceful(s3, StopEvent::Done, drain_ms);
            let waiting = if drained == StopEvent::Done {
                s3
            } else {
                s4
            };
            let (s5, a5) = graceful(waiting, exited, drain_ms);
            let (s6, a6) = graceful(s5, StopEvent::Done, drain_ms);
            &&& a1 == StopAction::SendDrain
            &&& a2 == StopAction::AwaitDrained(drain_ms)
            &&& drained == StopEvent::Done ==> a3 == StopAction::AwaitExit(3000)
            &&& drained == StopEvent::TimedOut ==> a3 == StopAction::Terminate && a4
                == StopAction::AwaitExit(3000)
            &&& exited == StopEvent::Done ==> a5 == StopAction::Return && s5 == StopState::Stopped
            &&& exited == StopEvent::TimedOut ==> a5 == StopAction::Kill && a6 == StopAction::Return
                && s6 == StopState::Stopped
        }),
{
}

/// A quick stop asks every process to stop, waits as long as allowed for their exit, and kills what
/// is left.
pub proof fn a_quick_stop_runs_its_course(exited: StopEvent, cleanup_ms: u64)
    requires
        exited == StopEvent::Done || exited == StopEvent::TimedOut,
    ensures
        ({
            let (s1, a1) = quick(StopState::Idle, StopEvent::Begin, cleanup_ms);
            let (s2, a2) = quick(s1, StopEvent::Done, cleanup_ms);
            let (s3, a3) = quick(s2, exited, cleanup_ms);
            let (s4, a4) = quick(s3, StopEvent::Done, cleanup_ms);
            &&& a1 == StopAction::Terminate
            &&& a2 == StopAction::AwaitExit(cleanup_ms)
            &&& exited == StopEvent::Done ==> a3 == StopAction::Return && s3 == StopState::Stopped
            &&& exited == StopEvent::TimedOut ==> a3 == StopAction::Kill && a4 == StopAction::Return
                && s4 == StopState::Stopped
        }),
{
}

/// Only the message that says so counts as drained.
pub proof fn only_drained_counts(m: IpcMessage, e: IpcError)
    ensures
        has_drained(Ok(m)) <==> m is Drained,
        !has_drained(Err(e)),
{
}

} // verus!

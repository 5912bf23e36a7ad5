//! The life of the asyncio event loop: the steps that set it up and those that take it down.

use vstd::prelude::*;

use crate::text::same;

verus! {

/// A step of setting the loop up.
#[derive(Clone, Copy, PartialEq, Eq, Structural, Debug)]
pub enum SetupStep {
    /// Install the policy of uvloop, as far as it is there.
    InstallUvloop,
    /// Make the loop.
    CreateLoop,
    /// Import asyncio.
    ImportAsyncio,
    /// Make the loop the current one.
    SetLoop,
    /// Import the events of asyncio.
    ImportEvents,
    /// Mark the loop as running.
    SetRunning,
    /// Let tasks start eagerly, as far as Python can.
    EagerTasks,
    /// Find the function that calls from other threads.
    FindCallSoon,
    /// Find the function that makes tasks.
    FindCreateTask,
    /// Start the thread that runs the loop.
    SpawnThread,
    /// The loop runs.
    Ready,
}

/// The step after a step that succeeded.
pub open spec fn next_step(step: SetupStep) -> SetupStep {
    match step {
        SetupStep::InstallUvloop => SetupStep::CreateLoop,
        SetupStep::CreateLoop => SetupStep::ImportAsyncio,
        SetupStep::ImportAsyncio => SetupStep::SetLoop,
        SetupStep::SetLoop => SetupStep::ImportEvents,
        SetupStep::ImportEvents => SetupStep::SetRunning,
        SetupStep::SetRunning => SetupStep::EagerTasks,
        SetupStep::EagerTasks => SetupStep::FindCallSoon,
        SetupStep::FindCallSoon => SetupStep::FindCreateTask,
        SetupStep::FindCreateTask => SetupStep::SpawnThread,
        SetupStep::SpawnThread => SetupStep::Ready,
        SetupStep::Ready => SetupStep::Ready,
    }
}

/// A step whose failure is passed over.
pub open spec fn optional(step: SetupStep) -> bool {
    step == SetupStep::InstallUvloop || step == SetupStep::EagerTasks || step == SetupStep::Ready
}

/// What a failed step is called in the error.
pub open spec fn step_name(step: SetupStep) -> Seq<char> {
    match step {
        SetupStep::CreateLoop => "create_event_loop: "@,
        SetupStep::ImportAsyncio => "import asyncio: "@,
        SetupStep::SetLoop => "set_event_loop: "@,
        SetupStep::ImportEvents => "import asyncio.events: "@,
        SetupStep::SetRunning => "_set_running_loop: "@,
        SetupStep::FindCallSoon => "missing call_soon_threadsafe: "@,
        SetupStep::FindCreateTask => "missing create_task: "@,
        SetupStep::SpawnThread => "spawn asyncio thread: "@,
        _ => ""@,
    }
}

/// The first step: the policy of uvloop is installed only if it is asked for.
pub fn first_step(loop_policy: &str) -> (out: SetupStep)
    ensures
        out == (if loop_policy@ == "uvloop"@ {
            SetupStep::InstallUvloop
        } else {
            SetupStep::CreateLoop
        }),
{
    if same(loop_policy, "uvloop") {
        SetupStep::InstallUvloop
    } else {
        SetupStep::CreateLoop
    }
}

/// What a failed step is called in the error.
fn name_of_step(step: SetupStep) -> (out: &'static str)
    ensures
        out@ == step_name(step),
{
    match step {
        SetupStep::CreateLoop => "create_event_loop: ",
        SetupStep::ImportAsyncio => "import asyncio: ",
        SetupStep::SetLoop => "set_event_loop: ",
        SetupStep::ImportEvents => "import asyncio.events: ",
        SetupStep::SetRunning => "_set_running_loop: ",
        SetupStep::FindCallSoon => "missing call_soon_threadsafe: ",
        SetupStep::FindCreateTask => "missing create_task: ",
        SetupStep::SpawnThread => "spawn asyncio thread: ",
        _ => "",
    }
}

/// Goes on with setting up after a step: to the next one, or out with an error unless the step could
/// be done without.
pub fn init(step: SetupStep, result: Result<(), String>) -> (out: Result<SetupStep, String>)
    ensures
        match result {
            Ok(_) => out == Ok::<SetupStep, String>(next_step(step)),
            Err(e) => if optional(step) {
                out == Ok::<SetupStep, String>(next_step(step))
            } else {
                out matches Err(m) && m@ == step_name(step) + e@
            },
        },
{
    let go_on = match result {
        Ok(_) => None,
        Err(e) => match step {
            SetupStep::InstallUvloop => None,
            SetupStep::EagerTasks => None,
            SetupStep::Ready => None,
            _ => Some(e),
        },
    };
    if let Some(e) = go_on {
        return Err(name_of_step(step).to_owned().concat(&e));
    }
    Ok(
        match step {
            SetupStep::InstallUvloop => SetupStep::CreateLoop,
            SetupStep::CreateLoop => SetupStep::ImportAsyncio,
            SetupStep::ImportAsyncio => SetupStep::SetLoop,
            SetupStep::SetLoop => SetupStep::ImportEvents,
            SetupStep::ImportEvents => SetupStep::SetRunning,
            SetupStep::SetRunning => SetupStep::EagerTasks,
            SetupStep::EagerTasks => SetupStep::FindCallSoon,
            SetupStep::FindCallSoon => SetupStep::FindCreateTask,
            SetupStep::FindCreateTask => SetupStep::SpawnThread,
            SetupStep::SpawnThread => SetupStep::Ready,
            SetupStep::Ready => SetupStep::Ready,
        },
    )
}

/// How many steps are left before the loop runs.
pub open spec fn steps_left(step: SetupStep) -> nat {
    match step {
        SetupStep::InstallUvloop => 10,
        SetupStep::CreateLoop => 9,
        SetupStep::ImportAsyncio => 8,
        SetupStep::SetLoop => 7,
        SetupStep::ImportEvents => 6,
        SetupStep::SetRunning => 5,
        SetupStep::EagerTasks => 4,
        SetupStep::FindCallSoon => 3,
        SetupStep::FindCreateTask => 2,
        SetupStep::SpawnThread => 1,
        SetupStep::Ready => 0,
    }
}

/// Setting up comes to an end: every step leaves one fewer.
pub proof fn setup_ends(step: SetupStep)
    ensures
        step != SetupStep::Ready ==> steps_left(next_step(step)) + 1 == steps_left(step),
        steps_left(step) == 0 <==> step == SetupStep::Ready,
{
}

/// The policy that a failed step of installing uvloop leaves: that of asyncio, and the loop is made
/// all the same.
pub proof fn uvloop_is_optional()
    ensures
        optional(SetupStep::InstallUvloop),
        next_step(SetupStep::InstallUvloop) == SetupStep::CreateLoop,
{
}

/// A step of taking the loop down; failures are passed over.
#[derive(Clone, Copy, PartialEq, Eq, Structural, Debug)]
pub enum TeardownStep {
    /// Stop the loop from its own thread.
    StopLoop,
    /// Wait for the thread.
    JoinThread,
    /// The loop is not the running one any more.
    ClearRunning,
    /// Finish the asynchronous generators.
    CloseGenerators,
    /// Shut the thread pool down, for at most so many seconds.
    CloseExecutor(u64),
    /// Cancel the tasks that are left and let them end.
    CancelTasks,
    /// Close the loop.
    CloseLoop,
}

/// The steps of taking the loop down. The thread is gone before anything is finished, and no task
/// is left when the loop is closed.
pub fn shutdown() -> (out: Vec<TeardownStep>)
    ensures
        out@ == seq![
            TeardownStep::StopLoop,
            TeardownStep::JoinThread,
            TeardownStep::ClearRunning,
            TeardownStep::CloseGenerators,
            TeardownStep::CloseExecutor(5),
            TeardownStep::CancelTasks,
            TeardownStep::CloseLoop,
        ],
{
    let mut out: Vec<TeardownStep> = Vec::new();
    out.push(TeardownStep::StopLoop);
    out.push(TeardownStep::JoinThread);
    out.push(TeardownStep::ClearRunning);
    out.push(TeardownStep::CloseGenerators);
    out.push(TeardownStep::CloseExecutor(5));
    out.push(TeardownStep::CancelTasks);
    out.push(TeardownStep::CloseLoop);
    assert(out@ =~= seq![
        TeardownStep::StopLoop,
        TeardownStep::JoinThread,
        TeardownStep::ClearRunning,
        TeardownStep::CloseGenerators,
        TeardownStep::CloseExecutor(5),
        TeardownStep::CancelTasks,
        TeardownStep::CloseLoop,
    ]);
    out
}

/// The loop is created before it is set, set before it is marked as running, and the thread is
/// started last, once the functions that it needs are found.
pub proof fn setup_comes_in_order()
    ensures
        next_step(SetupStep::InstallUvloop) == SetupStep::CreateLoop,
        next_step(SetupStep::CreateLoop) == SetupStep::ImportAsyncio,
        next_step(SetupStep::ImportAsyncio) == SetupStep::SetLoop,
        next_step(SetupStep::SetLoop) == SetupStep::ImportEvents,
        next_step(SetupStep::ImportEvents) == SetupStep::SetRunning,
        next_step(SetupStep::SetRunning) == SetupStep::EagerTasks,
        next_step(SetupStep::EagerTasks) == SetupStep::FindCallSoon,
        next_step(SetupStep::FindCallSoon) == SetupStep::FindCreateTask,
        next_step(SetupStep::FindCreateTask) == SetupStep::SpawnThread,
        next_step(SetupStep::SpawnThread) == SetupStep::Ready,
{
}

/// Only uvloop and eager tasks can be done without; any other step that fails is told by its name.
pub proof fn needed_steps_are_told(step: SetupStep)
    ensures
        !optional(step) <==> step == SetupStep::CreateLoop || step == SetupStep::ImportAsyncio
            || step == SetupStep::SetLoop || step == SetupStep::ImportEvents || step
            == SetupStep::SetRunning || step == SetupStep::FindCallSoon || step
            == SetupStep::FindCreateTask || step == SetupStep::SpawnThread,
        step_name(SetupStep::CreateLoop) == "create_event_loop: "@,
        step_name(SetupStep::ImportAsyncio) == "import asyncio: "@,
        step_name(SetupStep::SetLoop) == "set_event_loop: "@,
        step_name(SetupStep::ImportEvents) == "import asyncio.events: "@,
        step_name(SetupStep::SetRunning) == "_set_running_loop: "@,
        step_name(SetupStep::FindCallSoon) == "missing call_soon_threadsafe: "@,
        step_name(SetupStep::FindCreateTask) == "missing create_task: "@,
        step_name(SetupStep::SpawnThread) == "spawn asyncio thread: "@,
{
}

} // verus!

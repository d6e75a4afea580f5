//! The decisions of a user thread's kernel-side task: record the thread,
//! wait once for the scheduler's run signal, switch to user mode, and treat
//! any return from user mode through this path as fatal.
use vstd::prelude::*;

verus! {

#[derive(Clone, Copy, Debug, PartialEq, Eq, Structural)]
pub enum ThreadState {
    /// Spawned, not yet registered with its process.
    Created,
    /// Registered, suspended until the scheduler dispatches it.
    Waiting,
    /// Control has been handed to user mode.
    Running,
    /// An event arrived that has no transition from the current state.
    Failed,
}

#[derive(Clone, Copy, Debug, PartialEq, Eq, Structural)]
pub enum ThreadEvent {
    /// The task has been scheduled for the first time.
    Start,
    /// The scheduler dispatched the thread.
    RunSignal,
    /// The context switch into user mode returned to the kernel-side code.
    ReturnedFromUser,
}

#[derive(Clone, Copy, Debug, PartialEq, Eq, Structural)]
pub enum ThreadAction {
    /// Record the thread's id against its process, then wait for the run signal.
    RecordTid,
    /// Switch into user mode with the prepared context.
    EnterUser,
    /// Stop with a diagnostic.
    Abort,
}

/// The transition taken on `event` in `state`.
pub open spec fn thread_step(state: ThreadState, event: ThreadEvent) -> (ThreadState, ThreadAction) {
    match (state, event) {
        (ThreadState::Created, ThreadEvent::Start) => (ThreadState::Waiting, ThreadAction::RecordTid),
        (ThreadState::Waiting, ThreadEvent::RunSignal) => (
            ThreadState::Running,
            ThreadAction::EnterUser,
        ),
        _ => (ThreadState::Failed, ThreadAction::Abort),
    }
}

/// One step of a thread's kernel-side task.
pub fn thread_fn(state: ThreadState, event: ThreadEvent) -> (r: (ThreadState, ThreadAction))
    ensures
        r == thread_step(state, event),
{
    match (state, event) {
        (ThreadState::Created, ThreadEvent::Start) => (ThreadState::Waiting, ThreadAction::RecordTid),
        (ThreadState::Waiting, ThreadEvent::RunSignal) => (
            ThreadState::Running,
            ThreadAction::EnterUser,
        ),
        _ => (ThreadState::Failed, ThreadAction::Abort),
    }
}

} // verus!

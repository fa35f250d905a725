//! The lifecycle of one replica worker.

use vstd::prelude::*;

verus! {

#[derive(Clone, Copy, Debug, PartialEq, Eq, Structural)]
pub enum WorkerState {
    /// Its thread has started.
    Spawned,
    /// It joined its cgroup leaf and namespaces, and waits for the module.
    WaitingForModule,
    Instantiating,
    Running,
    Completed,
    Failed,
}

/// What a worker reports of the step it just took.
#[derive(Clone, Copy, Debug, PartialEq, Eq, Structural)]
pub enum WorkerEvent {
    /// The leaf was joined and the namespaces unshared.
    Isolated,
    /// The compiled module arrived.
    ModuleArrived,
    Instantiated,
    /// The entry point returned.
    Exited,
    /// The current step failed.
    StepFailed,
}

pub open spec fn is_terminal(s: WorkerState) -> bool {
    s == WorkerState::Completed || s == WorkerState::Failed
}

/// The state after `e`, or `None` where `e` cannot happen in `s`.
pub open spec fn spec_worker_step(s: WorkerState, e: WorkerEvent) -> Option<WorkerState> {
    if is_terminal(s) {
        None
    } else if e == WorkerEvent::StepFailed {
        Some(WorkerState::Failed)
    } else {
        match (s, e) {
            (WorkerState::Spawned, WorkerEvent::Isolated) => Some(WorkerState::WaitingForModule),
            (WorkerState::WaitingForModule, WorkerEvent::ModuleArrived) => Some(
                WorkerState::Instantiating,
            ),
            (WorkerState::Instantiating, WorkerEvent::Instantiated) => Some(WorkerState::Running),
            (WorkerState::Running, WorkerEvent::Exited) => Some(WorkerState::Completed),
            _ => None,
        }
    }
}

/// Advances a worker by one event.
pub fn worker_step(s: WorkerState, e: WorkerEvent) -> (r: Option<WorkerState>)
    ensures
        r == spec_worker_step(s, e),
{
    match s {
        WorkerState::Completed | WorkerState::Failed => None,
        _ => match e {
            WorkerEvent::StepFailed => Some(WorkerState::Failed),
            WorkerEvent::Isolated => match s {
                WorkerState::Spawned => Some(WorkerState::WaitingForModule),
                _ => None,
            },
            WorkerEvent::ModuleArrived => match s {
                WorkerState::WaitingForModule => Some(WorkerState::Instantiating),
                _ => None,
            },
            WorkerEvent::Instantiated => match s {
                WorkerState::Instantiating => Some(WorkerState::Running),
                _ => None,
            },
            WorkerEvent::Exited => match s {
                WorkerState::Running => Some(WorkerState::Completed),
                _ => None,
            },
        },
    }
}

/// A worker signals completion on reaching `Completed` or `Failed`.
pub fn signals_completion(s: WorkerState) -> (r: bool)
    ensures
        r == is_terminal(s),
{
    match s {
        WorkerState::Completed | WorkerState::Failed => true,
        _ => false,
    }
}

/// A worker signals completion exactly once: only a step out of a
/// non-terminal state reaches a terminal one, and no step leaves it.
pub proof fn lemma_completion_signalled_once(s: WorkerState, e: WorkerEvent)
    ensures
        is_terminal(s) ==> spec_worker_step(s, e) is None,
        !is_terminal(s) && e == WorkerEvent::StepFailed ==> spec_worker_step(s, e) == Some(
            WorkerState::Failed,
        ),
{
}

} // verus!

//! The lifecycle of the Engine's worker threads: running, disabled, or shut
//! down for exit, and what each operation does in each state.
use vstd::prelude::*;

verus! {

/// The state of the worker runtime.
#[derive(Clone, Copy, Debug, PartialEq, Eq, Structural)]
pub enum RuntimePhase {
    /// The input owner runs.
    Running,
    /// No workers run (the settings process).
    Disabled,
    /// Shut down for application exit.
    ShutDown,
}

/// Why the runtime could not take part in projecting an applied
/// configuration, or could not stop cleanly.
#[derive(Debug)]
pub enum RuntimeProjectionError {
    StatePoisoned,
    RuntimeShutDown,
    WorkerSpawn { worker: String, source: std::io::Error },
    WorkerPanicked(String),
    TestMarker(std::io::Error),
}

/// Whether the application may exit: once the runtime is shut down, or when
/// its state can no longer be read (`None`).
pub open spec fn exit_allowed(phase: Option<RuntimePhase>) -> bool {
    match phase {
        Some(p) => p == RuntimePhase::ShutDown,
        None => true,
    }
}

pub fn should_allow_exit(phase: Option<RuntimePhase>) -> (r: bool)
    ensures
        r == exit_allowed(phase),
{
    match phase {
        Some(RuntimePhase::ShutDown) => true,
        Some(_) => false,
        None => true,
    }
}

/// Checks the runtime when a configuration was applied: a running runtime
/// needs its input owner alive; a shut-down runtime refuses; an unreadable
/// state (`None`) is reported as poisoned.
pub fn observe_applied(phase: Option<RuntimePhase>, owner_running: bool) -> (r: Result<
    (),
    RuntimeProjectionError,
>)
    ensures
        match phase {
            None => r matches Err(RuntimeProjectionError::StatePoisoned),
            Some(RuntimePhase::Running) => if owner_running {
                r is Ok
            } else {
                r matches Err(RuntimeProjectionError::WorkerPanicked(w)) && w@ == "hook"@
            },
            Some(RuntimePhase::Disabled) => r is Ok,
            Some(RuntimePhase::ShutDown) => r matches Err(RuntimeProjectionError::RuntimeShutDown),
        },
{
    proof {
        reveal_strlit("hook");
    }
    match phase {
        None => Err(RuntimeProjectionError::StatePoisoned),
        Some(RuntimePhase::Running) => {
            if owner_running {
                Ok(())
            } else {
                Err(RuntimeProjectionError::WorkerPanicked("hook".to_owned()))
            }
        },
        Some(RuntimePhase::Disabled) => Ok(()),
        Some(RuntimePhase::ShutDown) => Err(RuntimeProjectionError::RuntimeShutDown),
    }
}

/// The shutdown transition: the runtime is shut down afterwards, and the
/// workers are stopped and joined only if they were running.
pub open spec fn shutdown_transition(phase: RuntimePhase) -> (RuntimePhase, bool) {
    (RuntimePhase::ShutDown, phase == RuntimePhase::Running)
}

pub fn begin_shutdown(phase: RuntimePhase) -> (r: (RuntimePhase, bool))
    ensures
        r == shutdown_transition(phase),
{
    (RuntimePhase::ShutDown, phase == RuntimePhase::Running)
}

/// The result of stopping the workers: a panicked input owner is reported.
pub fn workers_stopped(hook_panicked: bool) -> (r: Result<(), RuntimeProjectionError>)
    ensures
        hook_panicked <==> r is Err,
        r matches Err(e) ==> (e matches RuntimeProjectionError::WorkerPanicked(w) && w@ == "hook"@),
{
    proof {
        reveal_strlit("hook");
    }
    if hook_panicked {
        Err(RuntimeProjectionError::WorkerPanicked("hook".to_owned()))
    } else {
        Ok(())
    }
}

/// After a shutdown the application may exit, and shutting down again
/// changes nothing and stops no worker.
pub proof fn lemma_shutdown_is_idempotent(phase: RuntimePhase)
    ensures
        exit_allowed(Some(shutdown_transition(phase).0)),
        shutdown_transition(shutdown_transition(phase).0) == (shutdown_transition(phase).0, false),
{
}

} // verus!

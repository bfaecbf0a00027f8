use zero_gesture::runtime::{
    begin_shutdown, observe_applied, should_allow_exit, workers_stopped, RuntimePhase,
    RuntimeProjectionError,
};

#[test]
fn thread_runtime_poison_is_a_typed_projection_failure() {
    assert!(matches!(
        observe_applied(None, true),
        Err(RuntimeProjectionError::StatePoisoned)
    ));
}

#[test]
fn applied_config_needs_a_live_owner_while_running() {
    assert!(observe_applied(Some(RuntimePhase::Running), true).is_ok());
    assert!(matches!(
        observe_applied(Some(RuntimePhase::Running), false),
        Err(RuntimeProjectionError::WorkerPanicked(worker)) if worker == "hook"
    ));
    assert!(observe_applied(Some(RuntimePhase::Disabled), false).is_ok());
    assert!(matches!(
        observe_applied(Some(RuntimePhase::ShutDown), true),
        Err(RuntimeProjectionError::RuntimeShutDown)
    ));
}

#[test]
fn shutdown_is_idempotent_and_allows_exit() {
    assert!(!should_allow_exit(Some(RuntimePhase::Running)));
    let (after, join) = begin_shutdown(RuntimePhase::Running);
    assert!(join);
    assert!(should_allow_exit(Some(after)));
    assert_eq!(begin_shutdown(after), (RuntimePhase::ShutDown, false));
    assert_eq!(begin_shutdown(RuntimePhase::Disabled), (RuntimePhase::ShutDown, false));
    assert!(should_allow_exit(None));
    assert!(workers_stopped(false).is_ok());
    assert!(matches!(
        workers_stopped(true),
        Err(RuntimeProjectionError::WorkerPanicked(worker)) if worker == "hook"
    ));
}

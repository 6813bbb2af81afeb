use dual_server::errors::FatalError;
use dual_server::rpc::{initial_rpc_state, rpc_step, RpcAction, RpcEvent};
use dual_server::supervisor::{
    initial_supervisor_state, supervisor_step, ExitStatus, FirstFinished, Phase, Supervisor,
    SupervisorAction, SupervisorEvent, TaskState,
};

#[test]
fn rpc_drain_after_shutdown_signal() {
    let s = initial_rpc_state();
    assert!(s.accepting);

    // One request is accepted and still in flight when the signal fires.
    let (s, a) = rpc_step(s, RpcEvent::ConnectionArrived);
    assert_eq!(a, RpcAction::AcceptAndServe);
    assert_eq!(s.in_flight, 1);

    let (s, a) = rpc_step(s, RpcEvent::ShutdownFired);
    assert_eq!(a, RpcAction::StopAccepting);
    assert!(!s.accepting);
    assert!(!s.completed);

    // A new connection after the signal is turned away and changes nothing.
    let (s, a) = rpc_step(s, RpcEvent::ConnectionArrived);
    assert_eq!(a, RpcAction::RejectConnection);
    assert_eq!(s.accepted, 1);
    assert_eq!(s.in_flight, 1);

    // The in-flight request still completes; its response is delivered to
    // the caller, and only then is the task done.
    let (s, a) = rpc_step(s, RpcEvent::RequestFinished);
    assert_eq!(a, RpcAction::DeliverResponse);
    assert_eq!(s.delivered, 1);
    assert!(s.completed);
    assert_eq!(s.delivered, s.accepted);
}

#[test]
fn rpc_idle_server_completes_at_the_signal() {
    let s = initial_rpc_state();
    let (s, a) = rpc_step(s, RpcEvent::ShutdownFired);
    assert_eq!(a, RpcAction::CompleteTask);
    assert!(s.completed);
}

fn serving_supervisor() -> Supervisor {
    let s = initial_supervisor_state();
    let (s, a) = supervisor_step(s, SupervisorEvent::ConfigResolved { ok: true });
    assert_eq!(a, SupervisorAction::AcquirePool);
    let (s, a) = supervisor_step(s, SupervisorEvent::ConnectResolved { connected: true });
    assert_eq!(a, SupervisorAction::RunMigrations);
    let (s, a) = supervisor_step(s, SupervisorEvent::MigrationFinished { ok: true });
    assert_eq!(a, SupervisorAction::BindListeners);
    let (s, a) = supervisor_step(s, SupervisorEvent::BindFinished { ok: true });
    assert_eq!(a, SupervisorAction::SpawnServers);
    let (s, a) = supervisor_step(s, SupervisorEvent::TasksSpawned);
    assert_eq!(a, SupervisorAction::AwaitTasks);
    assert_eq!(s.phase, Phase::Serving);
    assert_eq!(s.http, TaskState::Running);
    assert_eq!(s.rpc, TaskState::Running);
    s
}

#[test]
fn clean_shutdown_closes_the_pool_exactly_once() {
    let s = serving_supervisor();
    assert_eq!(s.pool_closes, 0);

    // The RPC task finishes first (the shutdown signal drained it).
    let (s, a) = supervisor_step(s, SupervisorEvent::RpcFinished { failed: false });
    assert_eq!(a, SupervisorAction::CancelSibling);
    assert_eq!(s.first_finished, FirstFinished::RpcFirst { failed: false });
    assert_eq!(s.pool_closes, 0);

    // Only once the sibling is also terminal is the close invoked.
    let (s, a) = supervisor_step(s, SupervisorEvent::SiblingCancelled);
    assert_eq!(a, SupervisorAction::ClosePool);
    assert_eq!(s.pool_closes, 1);
    assert_eq!(s.http, TaskState::Completed);
    assert_eq!(s.rpc, TaskState::Completed);
    assert!(!s.pool_open);

    let (s, a) = supervisor_step(s, SupervisorEvent::PoolCloseFinished);
    assert_eq!(a, SupervisorAction::ExitProcess);
    assert_eq!(s.exit, ExitStatus::Success);
    assert_eq!(s.pool_closes, 1);
}

#[test]
fn http_task_finishing_is_an_anomaly_with_the_same_teardown() {
    let s = serving_supervisor();
    let (s, a) = supervisor_step(s, SupervisorEvent::HttpFinished { failed: true });
    assert_eq!(a, SupervisorAction::CancelSibling);
    assert_eq!(s.first_finished, FirstFinished::HttpFirst { failed: true });
    assert_eq!(s.http, TaskState::Failed);

    // The sibling may also finish on its own before the cancellation lands.
    let (s, a) = supervisor_step(s, SupervisorEvent::RpcFinished { failed: false });
    assert_eq!(a, SupervisorAction::ClosePool);
    assert_eq!(s.pool_closes, 1);

    let (s, a) = supervisor_step(s, SupervisorEvent::PoolCloseFinished);
    assert_eq!(a, SupervisorAction::ExitProcess);
    assert_eq!(s.exit, ExitStatus::Success);
}

#[test]
fn missing_configuration_aborts_before_anything_starts() {
    let s = initial_supervisor_state();
    let (s, a) = supervisor_step(s, SupervisorEvent::ConfigResolved { ok: false });
    assert_eq!(a, SupervisorAction::AbortProcess { error: FatalError::ConfigMissing });
    assert_eq!(s.exit, ExitStatus::Fatal(FatalError::ConfigMissing));
    assert!(!s.pool_open);
}

#[test]
fn exhausted_retries_abort_before_binding_any_listener() {
    let s = initial_supervisor_state();
    let (s, _) = supervisor_step(s, SupervisorEvent::ConfigResolved { ok: true });
    let (s, a) = supervisor_step(s, SupervisorEvent::ConnectResolved { connected: false });
    assert_eq!(a, SupervisorAction::AbortProcess { error: FatalError::ConnectFailed });
    assert_eq!(s.exit, ExitStatus::Fatal(FatalError::ConnectFailed));
    assert!(!s.listeners_bound);
    assert!(!s.pool_open);
    assert_eq!(s.pool_closes, 0);
    assert_eq!(s.http, TaskState::Starting);
    assert_eq!(s.rpc, TaskState::Starting);
}

#[test]
fn failed_migration_is_fatal() {
    let s = initial_supervisor_state();
    let (s, _) = supervisor_step(s, SupervisorEvent::ConfigResolved { ok: true });
    let (s, _) = supervisor_step(s, SupervisorEvent::ConnectResolved { connected: true });
    let (s, a) = supervisor_step(s, SupervisorEvent::MigrationFinished { ok: false });
    assert_eq!(a, SupervisorAction::AbortProcess { error: FatalError::MigrationFailed });
    assert_eq!(s.exit, ExitStatus::Fatal(FatalError::MigrationFailed));
    assert!(!s.listeners_bound);
}

#[test]
fn failed_bind_is_fatal() {
    let s = initial_supervisor_state();
    let (s, _) = supervisor_step(s, SupervisorEvent::ConfigResolved { ok: true });
    let (s, _) = supervisor_step(s, SupervisorEvent::ConnectResolved { connected: true });
    let (s, _) = supervisor_step(s, SupervisorEvent::MigrationFinished { ok: true });
    let (s, a) = supervisor_step(s, SupervisorEvent::BindFinished { ok: false });
    assert_eq!(a, SupervisorAction::AbortProcess { error: FatalError::BindFailed });
    assert_eq!(s.exit, ExitStatus::Fatal(FatalError::BindFailed));
    assert_eq!(s.http, TaskState::Starting);
    assert_eq!(s.rpc, TaskState::Starting);
}

use crate::errors::FatalError;
use vstd::prelude::*;

verus! {

/// The lifecycle of one server task: it may never re-enter `Running` after
/// reaching a terminal state.
#[derive(Clone, Copy, Debug, PartialEq, Eq, Structural)]
pub enum TaskState {
    Starting,
    Running,
    Completed,
    Failed,
}

/// Whether a task has reached a terminal state.
pub open spec fn task_terminal(t: TaskState) -> bool {
    t is Completed || t is Failed
}

/// Which of the two racing server tasks finished first, and how. The RPC
/// task finishing (through the fired shutdown signal) is the expected clean
/// path; the HTTP task finishing is an anomaly, logged but leading to the
/// same teardown.
#[derive(Clone, Copy, Debug, PartialEq, Eq, Structural)]
pub enum FirstFinished {
    NeitherYet,
    HttpFirst { failed: bool },
    RpcFirst { failed: bool },
}

/// How the process ends.
#[derive(Clone, Copy, Debug, PartialEq, Eq, Structural)]
pub enum ExitStatus {
    /// The process has not exited.
    StillRunning,
    /// Teardown ran to completion; the process exits with status zero.
    Success,
    /// A fatal startup error; the process aborts before normal service.
    Fatal(FatalError),
}

/// Where the supervisor stands in the process lifecycle.
#[derive(Clone, Copy, Debug, PartialEq, Eq, Structural)]
pub enum Phase {
    /// Reading the required configuration values.
    ResolvingConfig,
    /// Acquiring the connection pool (bounded retry).
    ConnectingDb,
    /// Applying schema migrations against the fresh pool.
    Migrating,
    /// Binding the HTTP and RPC listening sockets, registering services.
    Binding,
    /// Spawning the two server tasks.
    Launching,
    /// Both tasks run concurrently; the supervisor races them.
    Serving,
    /// One task finished; the sibling is being cancelled.
    Draining,
    /// Both tasks are terminal; the pool close has been invoked.
    ClosingPool,
    /// The process has exited.
    Exited,
}

/// The supervisor's view of the whole process.
#[derive(Clone, Copy, Debug, PartialEq, Eq, Structural)]
pub struct Supervisor {
    pub phase: Phase,
    /// The pool has been acquired and not yet closed.
    pub pool_open: bool,
    /// How many times the pool close has been invoked.
    pub pool_closes: u64,
    /// Schema migrations completed.
    pub migrated: bool,
    /// Both listening sockets are bound.
    pub listeners_bound: bool,
    pub http: TaskState,
    pub rpc: TaskState,
    pub first_finished: FirstFinished,
    pub exit: ExitStatus,
}

/// An event the supervisor observes from the I/O shell.
#[derive(Clone, Copy, Debug, PartialEq, Eq, Structural)]
pub enum SupervisorEvent {
    /// Configuration resolution finished (every required value present?).
    ConfigResolved { ok: bool },
    /// The bounded connect retry reached a terminal state.
    ConnectResolved { connected: bool },
    MigrationFinished { ok: bool },
    /// Both listening sockets bound (or one bind failed).
    BindFinished { ok: bool },
    /// Both server tasks were spawned and are running.
    TasksSpawned,
    /// The HTTP server task returned; any completion of it is a teardown
    /// trigger, since it is not expected to finish in normal operation.
    HttpFinished { failed: bool },
    /// The RPC server task returned (cleanly after the shutdown drain, or
    /// with a listener failure).
    RpcFinished { failed: bool },
    /// The not-yet-finished sibling task acknowledged cancellation.
    SiblingCancelled,
    /// The awaited pool close returned.
    PoolCloseFinished,
}

/// What the I/O shell must do after a supervisor step.
#[derive(Clone, Copy, Debug, PartialEq, Eq, Structural)]
pub enum SupervisorAction {
    /// Run the bounded connect retry loop.
    AcquirePool,
    /// Apply schema migrations against the pool.
    RunMigrations,
    /// Bind both listening sockets and register the services.
    BindListeners,
    /// Spawn the HTTP server task and the RPC server task.
    SpawnServers,
    /// Wait for the first of the two tasks to finish.
    AwaitTasks,
    /// Request cancellation of the still-running sibling task.
    CancelSibling,
    /// Invoke the pool close and await it.
    ClosePool,
    /// Exit the process with status zero.
    ExitProcess,
    /// Abort the process with the given fatal error, non-zero exit.
    AbortProcess { error: FatalError },
}

/// The supervisor before anything has happened.
pub open spec fn supervisor_initial() -> Supervisor {
    Supervisor {
        phase: Phase::ResolvingConfig,
        pool_open: false,
        pool_closes: 0,
        migrated: false,
        listeners_bound: false,
        http: TaskState::Starting,
        rpc: TaskState::Starting,
        first_finished: FirstFinished::NeitherYet,
        exit: ExitStatus::StillRunning,
    }
}

/// Which events can reach the supervisor in a given state.
pub open spec fn supervisor_enabled(s: Supervisor, e: SupervisorEvent) -> bool {
    match e {
        SupervisorEvent::ConfigResolved { .. } => s.phase is ResolvingConfig,
        SupervisorEvent::ConnectResolved { .. } => s.phase is ConnectingDb,
        SupervisorEvent::MigrationFinished { .. } => s.phase is Migrating,
        SupervisorEvent::BindFinished { .. } => s.phase is Binding,
        SupervisorEvent::TasksSpawned => s.phase is Launching,
        SupervisorEvent::HttpFinished { .. } => (s.phase is Serving || s.phase is Draining)
            && s.http is Running,
        SupervisorEvent::RpcFinished { .. } => (s.phase is Serving || s.phase is Draining)
            && s.rpc is Running,
        SupervisorEvent::SiblingCancelled => s.phase is Draining,
        SupervisorEvent::PoolCloseFinished => s.phase is ClosingPool,
    }
}

/// One supervisor step: the next state and what the I/O shell does next.
/// Startup steps are strictly ordered and each failure there is fatal;
/// after launch, the first task to finish sends the supervisor into the
/// drain, the sibling is cancelled, and only with both tasks terminal is
/// the pool close invoked, once, before the process exits with status zero.
pub open spec fn supervisor_step_spec(s: Supervisor, e: SupervisorEvent) -> (Supervisor,
    SupervisorAction) {
    match e {
        SupervisorEvent::ConfigResolved { ok } => if ok {
            (Supervisor { phase: Phase::ConnectingDb, ..s }, SupervisorAction::AcquirePool)
        } else {
            (
                Supervisor {
                    phase: Phase::Exited,
                    exit: ExitStatus::Fatal(FatalError::ConfigMissing),
                    ..s
                },
                SupervisorAction::AbortProcess { error: FatalError::ConfigMissing },
            )
        },
        SupervisorEvent::ConnectResolved { connected } => if connected {
            (
                Supervisor { phase: Phase::Migrating, pool_open: true, ..s },
                SupervisorAction::RunMigrations,
            )
        } else {
            (
                Supervisor {
                    phase: Phase::Exited,
                    exit: ExitStatus::Fatal(FatalError::ConnectFailed),
                    ..s
                },
                SupervisorAction::AbortProcess { error: FatalError::ConnectFailed },
            )
        },
        SupervisorEvent::MigrationFinished { ok } => if ok {
            (
                Supervisor { phase: Phase::Binding, migrated: true, ..s },
                SupervisorAction::BindListeners,
            )
        } else {
            (
                Supervisor {
                    phase: Phase::Exited,
                    exit: ExitStatus::Fatal(FatalError::MigrationFailed),
                    ..s
                },
                SupervisorAction::AbortProcess { error: FatalError::MigrationFailed },
            )
        },
        SupervisorEvent::BindFinished { ok } => if ok {
            (
                Supervisor { phase: Phase::Launching, listeners_bound: true, ..s },
                SupervisorAction::SpawnServers,
            )
        } else {
            (
                Supervisor {
                    phase: Phase::Exited,
                    exit: ExitStatus::Fatal(FatalError::BindFailed),
                    ..s
                },
                SupervisorAction::AbortProcess { error: FatalError::BindFailed },
            )
        },
        SupervisorEvent::TasksSpawned => (
            Supervisor {
                phase: Phase::Serving,
                http: TaskState::Running,
                rpc: TaskState::Running,
                ..s
            },
            SupervisorAction::AwaitTasks,
        ),
        SupervisorEvent::HttpFinished { failed } => {
            let http = if failed {
                TaskState::Failed
            } else {
                TaskState::Completed
            };
            let first = if s.first_finished is NeitherYet {
                FirstFinished::HttpFirst { failed }
            } else {
                s.first_finished
            };
            if s.rpc is Running {
                (
                    Supervisor { phase: Phase::Draining, http, first_finished: first, ..s },
                    SupervisorAction::CancelSibling,
                )
            } else {
                (
                    Supervisor {
                        phase: Phase::ClosingPool,
                        http,
                        first_finished: first,
                        pool_open: false,
                        pool_closes: (s.pool_closes + 1) as u64,
                        ..s
                    },
                    SupervisorAction::ClosePool,
                )
            }
        },
        SupervisorEvent::RpcFinished { failed } => {
            let rpc = if failed {
                TaskState::Failed
            } else {
                TaskState::Completed
            };
            let first = if s.first_finished is NeitherYet {
                FirstFinished::RpcFirst { failed }
            } else {
                s.first_finished
            };
            if s.http is Running {
                (
                    Supervisor { phase: Phase::Draining, rpc, first_finished: first, ..s },
                    SupervisorAction::CancelSibling,
                )
            } else {
                (
                    Supervisor {
                        phase: Phase::ClosingPool,
                        rpc,
                        first_finished: first,
                        pool_open: false,
                        pool_closes: (s.pool_closes + 1) as u64,
                        ..s
                    },
                    SupervisorAction::ClosePool,
                )
            }
        },
        SupervisorEvent::SiblingCancelled => {
            let http = if s.http is Running {
                TaskState::Completed
            } else {
                s.http
            };
            let rpc = if s.rpc is Running {
                TaskState::Completed
            } else {
                s.rpc
            };
            (
                Supervisor {
                    phase: Phase::ClosingPool,
                    http,
                    rpc,
                    pool_open: false,
                    pool_closes: (s.pool_closes + 1) as u64,
                    ..s
                },
                SupervisorAction::ClosePool,
            )
        },
        SupervisorEvent::PoolCloseFinished => (
            Supervisor { phase: Phase::Exited, exit: ExitStatus::Success, ..s },
            SupervisorAction::ExitProcess,
        ),
    }
}

/// The supervisor's invariant. Beyond bookkeeping per phase, it carries the
/// safety that matters: a server task only ever runs with the pool open and
/// not yet closed; the close is invoked at most once, and only with both
/// tasks terminal; a fatal connect failure exits before any listener was
/// bound.
pub open spec fn supervisor_wf(s: Supervisor) -> bool {
    &&& s.pool_closes <= 1
    &&& (s.pool_closes == 1 ==> task_terminal(s.http) && task_terminal(s.rpc) && !s.pool_open)
    &&& (s.http is Running || s.rpc is Running ==> s.pool_open && s.pool_closes == 0)
    &&& (s.exit is StillRunning <==> !(s.phase is Exited))
    &&& match s.phase {
        Phase::ResolvingConfig => !s.pool_open && !s.migrated && !s.listeners_bound
            && s.http is Starting && s.rpc is Starting && s.pool_closes == 0
            && s.first_finished is NeitherYet,
        Phase::ConnectingDb => !s.pool_open && !s.migrated && !s.listeners_bound
            && s.http is Starting && s.rpc is Starting && s.pool_closes == 0
            && s.first_finished is NeitherYet,
        Phase::Migrating => s.pool_open && !s.migrated && !s.listeners_bound
            && s.http is Starting && s.rpc is Starting && s.pool_closes == 0
            && s.first_finished is NeitherYet,
        Phase::Binding => s.pool_open && s.migrated && !s.listeners_bound && s.http is Starting
            && s.rpc is Starting && s.pool_closes == 0 && s.first_finished is NeitherYet,
        Phase::Launching => s.pool_open && s.migrated && s.listeners_bound && s.http is Starting
            && s.rpc is Starting && s.pool_closes == 0 && s.first_finished is NeitherYet,
        Phase::Serving => s.pool_open && s.migrated && s.listeners_bound && s.http is Running
            && s.rpc is Running && s.pool_closes == 0 && s.first_finished is NeitherYet,
        Phase::Draining => s.pool_open && s.migrated && s.listeners_bound && s.pool_closes == 0
            && !(s.first_finished is NeitherYet) && ((s.http is Running && task_terminal(s.rpc))
            || (s.rpc is Running && task_terminal(s.http))),
        Phase::ClosingPool => !s.pool_open && s.migrated && s.listeners_bound
            && s.pool_closes == 1 && task_terminal(s.http) && task_terminal(s.rpc)
            && !(s.first_finished is NeitherYet),
        Phase::Exited => match s.exit {
            ExitStatus::StillRunning => false,
            ExitStatus::Success => !s.pool_open && s.pool_closes == 1 && task_terminal(s.http)
                && task_terminal(s.rpc) && s.migrated && s.listeners_bound && !(s.first_finished
                is NeitherYet),
            ExitStatus::Fatal(err) => s.pool_closes == 0 && s.http is Starting
                && s.rpc is Starting && !s.listeners_bound && match err {
                    FatalError::ConfigMissing => !s.pool_open && !s.migrated,
                    FatalError::ConnectFailed => !s.pool_open && !s.migrated,
                    FatalError::MigrationFailed => s.pool_open && !s.migrated,
                    FatalError::BindFailed => s.pool_open && s.migrated,
                },
        },
    }
}

/// The executable initial supervisor state.
pub fn initial_supervisor_state() -> (r: Supervisor)
    ensures
        r == supervisor_initial(),
        supervisor_wf(r),
{
    Supervisor {
        phase: Phase::ResolvingConfig,
        pool_open: false,
        pool_closes: 0,
        migrated: false,
        listeners_bound: false,
        http: TaskState::Starting,
        rpc: TaskState::Starting,
        first_finished: FirstFinished::NeitherYet,
        exit: ExitStatus::StillRunning,
    }
}

/// The executable supervisor step, exactly the specified transition;
/// the invariant is preserved.
pub fn supervisor_step(s: Supervisor, e: SupervisorEvent) -> (r: (Supervisor, SupervisorAction))
    requires
        supervisor_wf(s),
        supervisor_enabled(s, e),
    ensures
        r == supervisor_step_spec(s, e),
        supervisor_wf(r.0),
{
    match e {
        SupervisorEvent::ConfigResolved { ok } => if ok {
            (Supervisor { phase: Phase::ConnectingDb, ..s }, SupervisorAction::AcquirePool)
        } else {
            (
                Supervisor {
                    phase: Phase::Exited,
                    exit: ExitStatus::Fatal(FatalError::ConfigMissing),
                    ..s
                },
                SupervisorAction::AbortProcess { error: FatalError::ConfigMissing },
            )
        },
        SupervisorEvent::ConnectResolved { connected } => if connected {
            (
                Supervisor { phase: Phase::Migrating, pool_open: true, ..s },
                SupervisorAction::RunMigrations,
            )
        } else {
            (
                Supervisor {
                    phase: Phase::Exited,
                    exit: ExitStatus::Fatal(FatalError::ConnectFailed),
                    ..s
                },
                SupervisorAction::AbortProcess { error: FatalError::ConnectFailed },
            )
        },
        SupervisorEvent::MigrationFinished { ok } => if ok {
            (
                Supervisor { phase: Phase::Binding, migrated: true, ..s },
                SupervisorAction::BindListeners,
            )
        } else {
            (
                Supervisor {
                    phase: Phase::Exited,
                    exit: ExitStatus::Fatal(FatalError::MigrationFailed),
                    ..s
                },
                SupervisorAction::AbortProcess { error: FatalError::MigrationFailed },
            )
        },
        SupervisorEvent::BindFinished { ok } => if ok {
            (
                Supervisor { phase: Phase::Launching, listeners_bound: true, ..s },
                SupervisorAction::SpawnServers,
            )
        } else {
            (
                Supervisor {
                    phase: Phase::Exited,
                    exit: ExitStatus::Fatal(FatalError::BindFailed),
                    ..s
                },
                SupervisorAction::AbortProcess { error: FatalError::BindFailed },
            )
        },
        SupervisorEvent::TasksSpawned => (
            Supervisor {
                phase: Phase::Serving,
                http: TaskState::Running,
                rpc: TaskState::Running,
                ..s
            },
            SupervisorAction::AwaitTasks,
        ),
        SupervisorEvent::HttpFinished { failed } => {
            let http = if failed {
                TaskState::Failed
            } else {
                TaskState::Completed
            };
            let first = if matches!(s.first_finished, FirstFinished::NeitherYet) {
                FirstFinished::HttpFirst { failed }
            } else {
                s.first_finished
            };
            if matches!(s.rpc, TaskState::Running) {
                (
                    Supervisor { phase: Phase::Draining, http, first_finished: first, ..s },
                    SupervisorAction::CancelSibling,
                )
            } else {
                (
                    Supervisor {
                        phase: Phase::ClosingPool,
                        http,
                        first_finished: first,
                        pool_open: false,
                        pool_closes: s.pool_closes + 1,
                        ..s
                    },
                    SupervisorAction::ClosePool,
                )
            }
        },
        SupervisorEvent::RpcFinished { failed } => {
            let rpc = if failed {
                TaskState::Failed
            } else {
                TaskState::Completed
            };
            let first = if matches!(s.first_finished, FirstFinished::NeitherYet) {
                FirstFinished::RpcFirst { failed }
            } else {
                s.first_finished
            };
            if matches!(s.http, TaskState::Running) {
                (
                    Supervisor { phase: Phase::Draining, rpc, first_finished: first, ..s },
                    SupervisorAction::CancelSibling,
                )
            } else {
                (
                    Supervisor {
                        phase: Phase::ClosingPool,
                        rpc,
                        first_finished: first,
                        pool_open: false,
                        pool_closes: s.pool_closes + 1,
                        ..s
                    },
                    SupervisorAction::ClosePool,
                )
            }
        },
        SupervisorEvent::SiblingCancelled => {
            let http = if matches!(s.http, TaskState::Running) {
                TaskState::Completed
            } else {
                s.http
            };
            let rpc = if matches!(s.rpc, TaskState::Running) {
                TaskState::Completed
            } else {
                s.rpc
            };
            (
                Supervisor {
                    phase: Phase::ClosingPool,
                    http,
                    rpc,
                    pool_open: false,
                    pool_closes: s.pool_closes + 1,
                    ..s
                },
                SupervisorAction::ClosePool,
            )
        },
        SupervisorEvent::PoolCloseFinished => (
            Supervisor { phase: Phase::Exited, exit: ExitStatus::Success, ..s },
            SupervisorAction::ExitProcess,
        ),
    }
}

/// The supervisor state after a sequence of observed events, ignoring
/// events that cannot reach it in its current state.
pub open spec fn supervisor_run(s: Supervisor, events: Seq<SupervisorEvent>) -> Supervisor
    decreases events.len(),
{
    if events.len() == 0 {
        s
    } else if supervisor_enabled(s, events[0]) {
        supervisor_run(
            supervisor_step_spec(s, events[0]).0,
            events.subrange(1, events.len() as int),
        )
    } else {
        supervisor_run(s, events.subrange(1, events.len() as int))
    }
}

/// Every enabled step preserves the invariant.
pub proof fn lemma_supervisor_step_wf(s: Supervisor, e: SupervisorEvent)
    requires
        supervisor_wf(s),
        supervisor_enabled(s, e),
    ensures
        supervisor_wf(supervisor_step_spec(s, e).0),
{
}

/// No server task re-enters `Running` after reaching a terminal state:
/// every enabled step keeps a terminal task terminal.
pub proof fn lemma_no_rerun_after_terminal(s: Supervisor, e: SupervisorEvent)
    requires
        supervisor_wf(s),
        supervisor_enabled(s, e),
    ensures
        task_terminal(s.http) ==> task_terminal(supervisor_step_spec(s, e).0.http),
        task_terminal(s.rpc) ==> task_terminal(supervisor_step_spec(s, e).0.rpc),
{
}

proof fn lemma_supervisor_run_wf_from(s: Supervisor, events: Seq<SupervisorEvent>)
    requires
        supervisor_wf(s),
    ensures
        supervisor_wf(supervisor_run(s, events)),
    decreases events.len(),
{
    if events.len() > 0 {
        let rest = events.subrange(1, events.len() as int);
        if supervisor_enabled(s, events[0]) {
            lemma_supervisor_run_wf_from(supervisor_step_spec(s, events[0]).0, rest);
        } else {
            lemma_supervisor_run_wf_from(s, rest);
        }
    }
}

/// The pool is closed at most once per process lifetime, and never before
/// both server tasks are terminal. This holds after every event sequence —
/// so in particular after the prefix ending at the very step that invokes
/// the close, which therefore already finds both tasks terminal. On the
/// teardown path (exit through `Success`) the close has happened exactly
/// once; a startup failure aborts before any close and before any server
/// ran.
pub proof fn lemma_pool_closed_once(events: Seq<SupervisorEvent>)
    ensures
        supervisor_wf(supervisor_run(supervisor_initial(), events)),
        supervisor_run(supervisor_initial(), events).pool_closes <= 1,
        supervisor_run(supervisor_initial(), events).pool_closes == 1 ==> task_terminal(
            supervisor_run(supervisor_initial(), events).http,
        ) && task_terminal(supervisor_run(supervisor_initial(), events).rpc),
        supervisor_run(supervisor_initial(), events).exit is Success ==> supervisor_run(
            supervisor_initial(),
            events,
        ).pool_closes == 1,
{
    lemma_supervisor_run_wf_from(supervisor_initial(), events);
}

/// A fatal connect failure (the retry budget exhausted) aborts the process
/// before any listener was bound, before migrations ran, and with no pool
/// ever opened or closed.
pub proof fn lemma_connect_failure_exits_before_binding(events: Seq<SupervisorEvent>)
    ensures
        supervisor_run(supervisor_initial(), events).exit == ExitStatus::Fatal(
            FatalError::ConnectFailed,
        ) ==> {
            let f = supervisor_run(supervisor_initial(), events);
            !f.listeners_bound && !f.migrated && !f.pool_open && f.pool_closes == 0
                && f.http is Starting && f.rpc is Starting
        },
{
    lemma_supervisor_run_wf_from(supervisor_initial(), events);
}

} // verus!

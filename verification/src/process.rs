use crate::rpc::{rpc_enabled, rpc_initial, rpc_step_spec, rpc_wf, RpcEvent, RpcServerState};
use crate::supervisor::{
    supervisor_enabled, supervisor_initial, supervisor_step_spec, supervisor_wf, task_terminal,
    FirstFinished, Supervisor, SupervisorEvent,
};
use vstd::prelude::*;

verus! {

/// The whole process, seen at once: the supervisor together with the RPC
/// server task it spawned. This composed view exists to state end-to-end
/// laws that neither machine can express alone — above all, that a clean
/// shutdown leaves no accepted request unanswered.
pub struct Process {
    pub sup: Supervisor,
    pub rpc: RpcServerState,
}

/// An event of either machine.
pub enum ProcessEvent {
    Sup(SupervisorEvent),
    Rpc(RpcEvent),
}

/// The process before anything has happened.
pub open spec fn process_initial() -> Process {
    Process { sup: supervisor_initial(), rpc: rpc_initial() }
}

/// Which events can reach the process. Each machine keeps its own guard;
/// the coupling adds what the wiring of the shell means: the RPC server
/// task only observes events while the supervisor sees it running, and the
/// supervisor only learns of a clean RPC completion once the task has
/// actually drained and completed.
pub open spec fn process_enabled(p: Process, e: ProcessEvent) -> bool {
    match e {
        ProcessEvent::Sup(se) => supervisor_enabled(p.sup, se) && match se {
            SupervisorEvent::RpcFinished { failed } => !failed ==> p.rpc.completed,
            _ => true,
        },
        ProcessEvent::Rpc(re) => rpc_enabled(p.rpc, re) && p.sup.rpc is Running,
    }
}

/// One step of the process: the event advances its own machine.
pub open spec fn process_step_spec(p: Process, e: ProcessEvent) -> Process {
    match e {
        ProcessEvent::Sup(se) => Process { sup: supervisor_step_spec(p.sup, se).0, ..p },
        ProcessEvent::Rpc(re) => Process { rpc: rpc_step_spec(p.rpc, re).0, ..p },
    }
}

/// The composed invariant: both machines are well-formed, and once the
/// supervisor has recorded the RPC task as the first finisher, that task is
/// terminal — and, if it finished cleanly, it had completed its drain.
pub open spec fn process_wf(p: Process) -> bool {
    &&& supervisor_wf(p.sup)
    &&& rpc_wf(p.rpc)
    &&& match p.sup.first_finished {
        FirstFinished::RpcFirst { failed } => task_terminal(p.sup.rpc) && (!failed
            ==> p.rpc.completed),
        _ => true,
    }
}

/// The process state after a sequence of observed events, ignoring events
/// that cannot reach it in its current state.
pub open spec fn process_run(p: Process, events: Seq<ProcessEvent>) -> Process
    decreases events.len(),
{
    if events.len() == 0 {
        p
    } else if process_enabled(p, events[0]) {
        process_run(process_step_spec(p, events[0]), events.subrange(1, events.len() as int))
    } else {
        process_run(p, events.subrange(1, events.len() as int))
    }
}

/// Every enabled step preserves the composed invariant.
pub proof fn lemma_process_step_wf(p: Process, e: ProcessEvent)
    requires
        process_wf(p),
        process_enabled(p, e),
    ensures
        process_wf(process_step_spec(p, e)),
{
}

proof fn lemma_process_run_wf_from(p: Process, events: Seq<ProcessEvent>)
    requires
        process_wf(p),
    ensures
        process_wf(process_run(p, events)),
    decreases events.len(),
{
    if events.len() > 0 {
        let rest = events.subrange(1, events.len() as int);
        if process_enabled(p, events[0]) {
            lemma_process_step_wf(p, events[0]);
            lemma_process_run_wf_from(process_step_spec(p, events[0]), rest);
        } else {
            lemma_process_run_wf_from(p, rest);
        }
    }
}

/// Clean shutdown end to end: however the events of the two machines
/// interleave, if the process exited successfully and the clean path was
/// taken — the RPC task finished first, through the shutdown drain — then
/// every request the RPC server ever accepted had its response delivered,
/// and the pool was closed exactly once. The responses were delivered
/// before the exit: the RPC server's counters only change while the
/// supervisor still sees the task running, and the exit comes only after
/// the task is terminal and the pool close has finished.
pub proof fn lemma_clean_shutdown_answers_every_request(events: Seq<ProcessEvent>)
    ensures
        process_wf(process_run(process_initial(), events)),
        ({
            let f = process_run(process_initial(), events);
            f.sup.exit is Success && f.sup.first_finished == (FirstFinished::RpcFirst {
                failed: false,
            }) ==> f.rpc.delivered == f.rpc.accepted && f.sup.pool_closes == 1
        }),
{
    lemma_process_run_wf_from(process_initial(), events);
}

} // verus!

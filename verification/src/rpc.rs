use vstd::prelude::*;

verus! {

/// The RPC server task as the supervisor sees it: it accepts connections
/// and serves requests until the one-shot shutdown signal fires, then stops
/// accepting, drains the requests already accepted, and completes.
#[derive(Clone, Copy, Debug, PartialEq, Eq, Structural)]
pub struct RpcServerState {
    /// New connections are still being accepted.
    pub accepting: bool,
    /// The shutdown signal has fired (and is thereby consumed).
    pub shutdown_seen: bool,
    /// Requests accepted so far.
    pub accepted: u64,
    /// Responses delivered to their callers so far.
    pub delivered: u64,
    /// Requests accepted but not yet answered.
    pub in_flight: u64,
    /// The task has reached its terminal state: drained after shutdown.
    pub completed: bool,
}

/// An event the RPC server task observes.
#[derive(Clone, Copy, Debug, PartialEq, Eq, Structural)]
pub enum RpcEvent {
    /// A client asks for a new connection.
    ConnectionArrived,
    /// The external termination signal fires (at most once).
    ShutdownFired,
    /// An in-flight request finished and its response is ready.
    RequestFinished,
}

/// What the I/O shell does after a step of the RPC server task.
#[derive(Clone, Copy, Debug, PartialEq, Eq, Structural)]
pub enum RpcAction {
    /// Accept the connection and serve the request.
    AcceptAndServe,
    /// Turn the connection away: the server is draining or drained.
    RejectConnection,
    /// Stop the accept loop and wait for the in-flight requests.
    StopAccepting,
    /// Hand the finished request's response to its caller.
    DeliverResponse,
    /// Report the task as completed to the supervisor.
    CompleteTask,
}

/// Well-formedness of the task state: the counters agree, acceptance ends
/// exactly when the signal is seen, and a completed task is a drained one.
pub open spec fn rpc_wf(s: RpcServerState) -> bool {
    &&& s.delivered <= s.accepted
    &&& s.in_flight == s.accepted - s.delivered
    &&& s.accepting <==> !s.shutdown_seen
    &&& s.completed ==> s.shutdown_seen && s.in_flight == 0
}

/// Which events can reach the task in a given state: nothing reaches a
/// completed task, the one-shot signal fires at most once, and only an
/// actually in-flight request can finish.
pub open spec fn rpc_enabled(s: RpcServerState, e: RpcEvent) -> bool {
    match e {
        RpcEvent::ConnectionArrived => !s.completed && s.accepted < u64::MAX,
        RpcEvent::ShutdownFired => !s.shutdown_seen,
        RpcEvent::RequestFinished => s.in_flight > 0,
    }
}

/// One step of the RPC server task.
pub open spec fn rpc_step_spec(s: RpcServerState, e: RpcEvent) -> (RpcServerState, RpcAction) {
    match e {
        RpcEvent::ConnectionArrived => if s.accepting {
            (
                RpcServerState {
                    accepted: (s.accepted + 1) as u64,
                    in_flight: (s.in_flight + 1) as u64,
                    ..s
                },
                RpcAction::AcceptAndServe,
            )
        } else {
            (s, RpcAction::RejectConnection)
        },
        RpcEvent::ShutdownFired => {
            let stopped = RpcServerState { accepting: false, shutdown_seen: true, ..s };
            if s.in_flight == 0 {
                (RpcServerState { completed: true, ..stopped }, RpcAction::CompleteTask)
            } else {
                (stopped, RpcAction::StopAccepting)
            }
        },
        RpcEvent::RequestFinished => {
            let drained = RpcServerState {
                delivered: (s.delivered + 1) as u64,
                in_flight: (s.in_flight - 1) as u64,
                ..s
            };
            if s.shutdown_seen && s.in_flight == 1 {
                (RpcServerState { completed: true, ..drained }, RpcAction::DeliverResponse)
            } else {
                (drained, RpcAction::DeliverResponse)
            }
        },
    }
}

/// The state the task starts in when the supervisor spawns it.
pub open spec fn rpc_initial() -> RpcServerState {
    RpcServerState {
        accepting: true,
        shutdown_seen: false,
        accepted: 0,
        delivered: 0,
        in_flight: 0,
        completed: false,
    }
}

/// The executable initial task state.
pub fn initial_rpc_state() -> (r: RpcServerState)
    ensures
        r == rpc_initial(),
        rpc_wf(r),
{
    RpcServerState {
        accepting: true,
        shutdown_seen: false,
        accepted: 0,
        delivered: 0,
        in_flight: 0,
        completed: false,
    }
}

/// The executable step, exactly the specified transition; well-formedness
/// is preserved.
pub fn rpc_step(s: RpcServerState, e: RpcEvent) -> (r: (RpcServerState, RpcAction))
    requires
        rpc_wf(s),
        rpc_enabled(s, e),
    ensures
        r == rpc_step_spec(s, e),
        rpc_wf(r.0),
{
    match e {
        RpcEvent::ConnectionArrived => if s.accepting {
            (
                RpcServerState { accepted: s.accepted + 1, in_flight: s.in_flight + 1, ..s },
                RpcAction::AcceptAndServe,
            )
        } else {
            (s, RpcAction::RejectConnection)
        },
        RpcEvent::ShutdownFired => {
            let stopped = RpcServerState { accepting: false, shutdown_seen: true, ..s };
            if s.in_flight == 0 {
                (RpcServerState { completed: true, ..stopped }, RpcAction::CompleteTask)
            } else {
                (stopped, RpcAction::StopAccepting)
            }
        },
        RpcEvent::RequestFinished => {
            let drained = RpcServerState {
                delivered: s.delivered + 1,
                in_flight: s.in_flight - 1,
                ..s
            };
            if s.shutdown_seen && s.in_flight == 1 {
                (RpcServerState { completed: true, ..drained }, RpcAction::DeliverResponse)
            } else {
                (drained, RpcAction::DeliverResponse)
            }
        },
    }
}

/// Graceful drain, step by step: once the shutdown signal has been seen,
/// a new connection is rejected and changes nothing, while an already
/// accepted in-flight request still finishes — its response is delivered to
/// its caller, and the task is not yet completed when that delivery happens.
pub proof fn lemma_drain_after_shutdown(s: RpcServerState)
    requires
        rpc_wf(s),
        s.shutdown_seen,
    ensures
        rpc_step_spec(s, RpcEvent::ConnectionArrived) == (s, RpcAction::RejectConnection),
        s.in_flight > 0 ==> rpc_step_spec(s, RpcEvent::RequestFinished).1
            == RpcAction::DeliverResponse,
        s.in_flight > 0 ==> !s.completed,
        s.in_flight > 0 ==> rpc_step_spec(s, RpcEvent::RequestFinished).0.delivered == s.delivered
            + 1,
{
}

/// The signal is never forgotten: every enabled step preserves
/// `shutdown_seen`, so acceptance never resumes after the drain began.
pub proof fn lemma_shutdown_is_permanent(s: RpcServerState, e: RpcEvent)
    requires
        rpc_wf(s),
        rpc_enabled(s, e),
        s.shutdown_seen,
    ensures
        rpc_step_spec(s, e).0.shutdown_seen,
        !rpc_step_spec(s, e).0.accepting,
{
}

/// The task state after a sequence of observed events, ignoring events that
/// cannot reach the task in its current state.
pub open spec fn rpc_run(s: RpcServerState, events: Seq<RpcEvent>) -> RpcServerState
    decreases events.len(),
{
    if events.len() == 0 {
        s
    } else if rpc_enabled(s, events[0]) {
        rpc_run(rpc_step_spec(s, events[0]).0, events.subrange(1, events.len() as int))
    } else {
        rpc_run(s, events.subrange(1, events.len() as int))
    }
}

proof fn lemma_rpc_run_wf_from(s: RpcServerState, events: Seq<RpcEvent>)
    requires
        rpc_wf(s),
    ensures
        rpc_wf(rpc_run(s, events)),
    decreases events.len(),
{
    if events.len() > 0 {
        let rest = events.subrange(1, events.len() as int);
        if rpc_enabled(s, events[0]) {
            lemma_rpc_run_wf_from(rpc_step_spec(s, events[0]).0, rest);
        } else {
            lemma_rpc_run_wf_from(s, rest);
        }
    }
}

/// No response is lost to the drain: however the events interleave, the
/// task state stays well-formed, and if the task has completed, every
/// request it ever accepted had its response delivered first.
pub proof fn lemma_every_accepted_request_answered(events: Seq<RpcEvent>)
    ensures
        rpc_wf(rpc_run(rpc_initial(), events)),
        rpc_run(rpc_initial(), events).completed ==> rpc_run(rpc_initial(), events).delivered
            == rpc_run(rpc_initial(), events).accepted,
{
    lemma_rpc_run_wf_from(rpc_initial(), events);
}

} // verus!

use vstd::prelude::*;

verus! {

/// How many connection attempts the startup sequence makes before it gives
/// up: a bounded retry converts a transient startup race with the database
/// into a deterministic, bounded wait.
pub const MAX_CONNECT_ATTEMPTS: u64 = 5;

/// The fixed pause between two consecutive connection attempts, in seconds.
pub const CONNECT_RETRY_DELAY_SECONDS: u64 = 5;

/// What one connection attempt against the database reported.
#[derive(Clone, Copy, Debug, PartialEq, Eq, Structural)]
pub enum AttemptOutcome {
    /// A pool of connections was established.
    Connected,
    /// The attempt failed; the cause is logged by the I/O shell.
    Unreachable,
}

/// Where the acquisition loop stands.
#[derive(Clone, Copy, Debug, PartialEq, Eq, Structural)]
pub enum ConnectState {
    /// Still trying; this many attempts (the one in flight included) remain.
    Waiting { attempts_left: u64 },
    /// A pool was acquired; startup may proceed.
    Connected,
    /// Every attempt in the budget failed; startup must abort.
    Exhausted,
}

/// What the I/O shell must do after a step of the acquisition loop.
#[derive(Clone, Copy, Debug, PartialEq, Eq, Structural)]
pub enum ConnectAction {
    /// Hand the freshly acquired pool to the supervisor.
    UsePool,
    /// Sleep for the given number of seconds, then attempt again.
    SleepThenRetry { seconds: u64 },
    /// Abort startup with a fatal connect failure.
    FailProcess,
}

/// The state the loop starts in: the full attempt budget remains.
pub open spec fn connect_initial() -> ConnectState {
    ConnectState::Waiting { attempts_left: MAX_CONNECT_ATTEMPTS }
}

/// One step of the acquisition loop: how the state advances and what the
/// I/O shell does next, given the outcome of the attempt just made.
pub open spec fn connect_step_spec(s: ConnectState, o: AttemptOutcome) -> (ConnectState,
    ConnectAction) {
    match s {
        ConnectState::Waiting { attempts_left } => match o {
            AttemptOutcome::Connected => (ConnectState::Connected, ConnectAction::UsePool),
            AttemptOutcome::Unreachable => if attempts_left <= 1 {
                (ConnectState::Exhausted, ConnectAction::FailProcess)
            } else {
                (
                    ConnectState::Waiting { attempts_left: (attempts_left - 1) as u64 },
                    ConnectAction::SleepThenRetry { seconds: CONNECT_RETRY_DELAY_SECONDS },
                )
            },
        },
        // Terminal states take no further step; the loop has ended.
        _ => (s, ConnectAction::FailProcess),
    }
}

/// The state after feeding the loop a sequence of attempt outcomes, one per
/// attempt made, stopping as soon as the loop reaches a terminal state.
pub open spec fn connect_run(s: ConnectState, outcomes: Seq<AttemptOutcome>) -> ConnectState
    decreases outcomes.len(),
{
    if outcomes.len() == 0 || !(s is Waiting) {
        s
    } else {
        connect_run(connect_step_spec(s, outcomes[0]).0, outcomes.subrange(1, outcomes.len() as int))
    }
}

/// The executable acquisition step, exactly the specified transition.
pub fn connect_step(s: ConnectState, o: AttemptOutcome) -> (r: (ConnectState, ConnectAction))
    requires
        s is Waiting,
    ensures
        r == connect_step_spec(s, o),
{
    match s {
        ConnectState::Waiting { attempts_left } => match o {
            AttemptOutcome::Connected => (ConnectState::Connected, ConnectAction::UsePool),
            AttemptOutcome::Unreachable => if attempts_left <= 1 {
                (ConnectState::Exhausted, ConnectAction::FailProcess)
            } else {
                (
                    ConnectState::Waiting { attempts_left: attempts_left - 1 },
                    ConnectAction::SleepThenRetry { seconds: CONNECT_RETRY_DELAY_SECONDS },
                )
            },
        },
        _ => (s, ConnectAction::FailProcess),
    }
}

/// The executable initial state of the acquisition loop.
pub fn initial_connect_state() -> (r: ConnectState)
    ensures
        r == connect_initial(),
{
    ConnectState::Waiting { attempts_left: MAX_CONNECT_ATTEMPTS }
}

proof fn lemma_connect_success_from(left: u64, outcomes: Seq<AttemptOutcome>, i: int)
    requires
        0 <= i < outcomes.len(),
        i < left,
        outcomes[i] is Connected,
        forall|j: int| 0 <= j < i ==> outcomes[j] is Unreachable,
    ensures
        connect_run(ConnectState::Waiting { attempts_left: left }, outcomes)
            is Connected,
    decreases i,
{
    let s = ConnectState::Waiting { attempts_left: left };
    let rest = outcomes.subrange(1, outcomes.len() as int);
    if i == 0 {
        assert(connect_run(ConnectState::Connected, rest) is Connected);
    } else {
        assert(outcomes[0] is Unreachable);
        assert(forall|j: int| 0 <= j < i - 1 ==> rest[j] is Unreachable);
        assert(rest[i - 1] is Connected);
        lemma_connect_success_from((left - 1) as u64, rest, i - 1);
    }
}

/// If some attempt within the budget succeeds while every earlier attempt
/// failed (for instance, the database becomes reachable only on the third
/// attempt), acquisition ends in `Connected` and startup proceeds.
pub proof fn lemma_connect_success(outcomes: Seq<AttemptOutcome>, i: int)
    requires
        0 <= i < outcomes.len(),
        i < MAX_CONNECT_ATTEMPTS,
        outcomes[i] is Connected,
        forall|j: int| 0 <= j < i ==> outcomes[j] is Unreachable,
    ensures
        connect_run(connect_initial(), outcomes) is Connected,
{
    lemma_connect_success_from(MAX_CONNECT_ATTEMPTS, outcomes, i);
}

proof fn lemma_connect_exhaustion_from(left: u64, outcomes: Seq<AttemptOutcome>)
    requires
        left >= 1,
        outcomes.len() >= left,
        forall|j: int| 0 <= j < left ==> outcomes[j] is Unreachable,
    ensures
        connect_run(ConnectState::Waiting { attempts_left: left }, outcomes)
            is Exhausted,
    decreases left,
{
    let rest = outcomes.subrange(1, outcomes.len() as int);
    assert(outcomes[0] is Unreachable);
    if left > 1 {
        assert(forall|j: int| 0 <= j < left - 1 ==> rest[j] is Unreachable);
        lemma_connect_exhaustion_from((left - 1) as u64, rest);
    } else {
        assert(connect_run(ConnectState::Exhausted, rest) is Exhausted);
    }
}

/// If the database stays unreachable through the whole attempt budget,
/// acquisition ends in `Exhausted`: startup fails loudly with a fatal
/// connect error instead of hanging forever (the supervisor then exits
/// before binding any listener).
pub proof fn lemma_connect_exhaustion(outcomes: Seq<AttemptOutcome>)
    requires
        outcomes.len() >= MAX_CONNECT_ATTEMPTS,
        forall|j: int| 0 <= j < MAX_CONNECT_ATTEMPTS ==> outcomes[j] is Unreachable,
    ensures
        connect_run(connect_initial(), outcomes) is Exhausted,
{
    lemma_connect_exhaustion_from(MAX_CONNECT_ATTEMPTS, outcomes);
}

} // verus!

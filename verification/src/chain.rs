//! The chained runner: the composite `run` operation as a state machine from
//! phase and observed exit status to next phase. `run` is start detached,
//! exec a supplied command, then unconditionally attempt stop, so a container
//! is never left running after the exec step failed; the reported status is
//! the first non-zero status encountered. The caller performs each pending
//! step as one external process and feeds the observed status back in.

use vstd::prelude::*;

verus! {

/// One step of the composite `run` operation.
#[derive(Clone, Copy, PartialEq, Eq, Structural, Debug)]
pub enum RunStep {
    /// Start the service detached.
    Start,
    /// Execute the supplied command inside the running service.
    Exec,
    /// Stop the service.
    Stop,
}

/// The state of a `run` chain between external-process calls.
#[derive(Clone, Copy, PartialEq, Eq, Structural, Debug)]
pub enum RunPhase {
    /// Nothing has run yet; the start step is pending.
    BeforeStart,
    /// The start step succeeded; the exec step is pending.
    BeforeExec,
    /// The exec step has run with the recorded status; the stop step is
    /// pending whatever that status was.
    BeforeStop { exec_status: i32 },
    /// The chain is over and reports this status as the whole command's.
    Done { status: i32 },
}

/// Which step the phase asks the caller to run next, if any.
pub open spec fn spec_pending_step(p: RunPhase) -> Option<RunStep> {
    match p {
        RunPhase::BeforeStart => Some(RunStep::Start),
        RunPhase::BeforeExec => Some(RunStep::Exec),
        RunPhase::BeforeStop { .. } => Some(RunStep::Stop),
        RunPhase::Done { .. } => None,
    }
}

/// The step the caller must run next, or nothing once the chain is done.
pub fn pending_step(p: &RunPhase) -> (r: Option<RunStep>)
    ensures
        r == spec_pending_step(*p),
{
    match p {
        RunPhase::BeforeStart => Some(RunStep::Start),
        RunPhase::BeforeExec => Some(RunStep::Exec),
        RunPhase::BeforeStop { .. } => Some(RunStep::Stop),
        RunPhase::Done { .. } => None,
    }
}

/// The next phase after the pending step terminated with `status`: a failed
/// start aborts the chain with its status and later steps never run; the exec
/// status is recorded and stop is attempted whatever it was; after stop the
/// chain reports the exec status where it was non-zero, else the stop status.
pub open spec fn spec_advance(p: RunPhase, status: int) -> RunPhase {
    match p {
        RunPhase::BeforeStart => if status != 0 {
            RunPhase::Done { status: status as i32 }
        } else {
            RunPhase::BeforeExec
        },
        RunPhase::BeforeExec => RunPhase::BeforeStop { exec_status: status as i32 },
        RunPhase::BeforeStop { exec_status } => RunPhase::Done {
            status: if exec_status != 0 {
                exec_status
            } else {
                status as i32
            },
        },
        RunPhase::Done { status: s } => RunPhase::Done { status: s },
    }
}

/// Advance the chain after its pending step terminated with `status`. A done
/// chain stays done.
pub fn advance(p: RunPhase, status: i32) -> (r: RunPhase)
    ensures
        r == spec_advance(p, status as int),
{
    match p {
        RunPhase::BeforeStart => {
            if status != 0 {
                RunPhase::Done { status }
            } else {
                RunPhase::BeforeExec
            }
        },
        RunPhase::BeforeExec => RunPhase::BeforeStop { exec_status: status },
        RunPhase::BeforeStop { exec_status } => {
            RunPhase::Done {
                status: if exec_status != 0 {
                    exec_status
                } else {
                    status
                },
            }
        },
        RunPhase::Done { status: s } => RunPhase::Done { status: s },
    }
}

/// The status the whole chain reports given the statuses of its three steps,
/// when each step that is due actually runs: the first non-zero status, else
/// zero.
pub open spec fn spec_run_result(start: int, exec: int, stop: int) -> int {
    if start != 0 {
        start
    } else if exec != 0 {
        exec
    } else {
        stop
    }
}

/// Law: a failed exec step still leaves the stop step pending — cleanup is
/// mandatory — and once stop has run the chain reports the exec step's
/// non-zero status, not the stop step's.
pub proof fn lemma_cleanup_after_exec_failure(exec_status: i32, stop_status: i32)
    requires
        exec_status != 0,
    ensures
        spec_advance(RunPhase::BeforeExec, exec_status as int) == (RunPhase::BeforeStop {
            exec_status,
        }),
        spec_pending_step(spec_advance(RunPhase::BeforeExec, exec_status as int)) == Some(
            RunStep::Stop,
        ),
        spec_advance(
            spec_advance(RunPhase::BeforeExec, exec_status as int),
            stop_status as int,
        ) == (RunPhase::Done { status: exec_status }),
{
}

/// Law: a failed start step aborts the chain at once with its own status;
/// neither exec nor stop becomes pending.
pub proof fn lemma_start_failure_aborts(status: i32)
    requires
        status != 0,
    ensures
        spec_advance(RunPhase::BeforeStart, status as int) == (RunPhase::Done { status }),
        spec_pending_step(spec_advance(RunPhase::BeforeStart, status as int)) is None,
{
}

/// Law: when the start step succeeds and exec and stop both run, the chain
/// ends reporting the first non-zero status encountered, and zero only when
/// every step succeeded.
pub proof fn lemma_run_chain_result(exec_status: i32, stop_status: i32)
    ensures
        spec_advance(
            spec_advance(spec_advance(RunPhase::BeforeStart, 0), exec_status as int),
            stop_status as int,
        ) == (RunPhase::Done {
            status: spec_run_result(0, exec_status as int, stop_status as int) as i32,
        }),
{
}

} // verus!

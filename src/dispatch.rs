use vstd::prelude::*;

use crate::error::VmmError;

verus! {

/// Why the vCPU returned control to the monitor.
#[derive(Debug)]
pub enum ExitEvent {
    /// The guest executed a halt instruction.
    Halt,
    /// The guest read `width` bytes from an I/O port.
    IoIn { port: u16, width: usize },
    /// The guest wrote `bytes` to an I/O port.
    IoOut { port: u16, bytes: Vec<u8> },
    /// An exit kind the monitor has no policy for.
    Unhandled { description: String },
    /// The host failed to run the vCPU.
    Error { cause: i32 },
}

/// State of the run loop. `Halted` and `Aborted` are terminal.
#[derive(Clone, Copy, Debug, PartialEq, Eq, Structural)]
pub enum RunState {
    Running,
    Halted,
    Aborted(VmmError),
}

#[derive(Clone, Copy, Debug, PartialEq, Eq, Structural)]
pub enum IoDirection {
    In,
    Out,
}

/// An I/O port access made by the guest.
#[derive(Clone, Copy, Debug, PartialEq, Eq, Structural)]
pub struct IoAccess {
    pub port: u16,
    pub direction: IoDirection,
    pub len: usize,
}

/// What the run loop does after an exit.
#[derive(Clone, Copy, Debug, PartialEq, Eq, Structural)]
pub enum Decision {
    /// Record the access (no device is attached) and run the vCPU again.
    EmulateAndContinue(IoAccess),
    /// The guest halted: leave the loop cleanly.
    Halt,
    /// Leave the loop and report the cause.
    Abort(VmmError),
}

pub open spec fn is_terminal(s: RunState) -> bool {
    !(s is Running)
}

/// The decision for an exit taken while running.
pub open spec fn decision_of(e: ExitEvent) -> Decision {
    match e {
        ExitEvent::Halt => Decision::Halt,
        ExitEvent::IoIn { port, width } => Decision::EmulateAndContinue(
            IoAccess { port, direction: IoDirection::In, len: width },
        ),
        ExitEvent::IoOut { port, bytes } => Decision::EmulateAndContinue(
            IoAccess { port, direction: IoDirection::Out, len: bytes@.len() as usize },
        ),
        ExitEvent::Unhandled { .. } => Decision::Abort(VmmError::UnhandledExit),
        ExitEvent::Error { .. } => Decision::Abort(VmmError::VcpuFault),
    }
}

/// The decision that keeps a loop in terminal state `s` stopped.
pub open spec fn stop_decision(s: RunState) -> Decision {
    match s {
        RunState::Aborted(cause) => Decision::Abort(cause),
        _ => Decision::Halt,
    }
}

/// The decision made in state `s` on exit `e`.
pub open spec fn step_decision(s: RunState, e: ExitEvent) -> Decision {
    if s is Running {
        decision_of(e)
    } else {
        stop_decision(s)
    }
}

/// The state the loop moves to from `s` on exit `e`; terminal states stay.
pub open spec fn next_state(s: RunState, e: ExitEvent) -> RunState {
    if is_terminal(s) {
        s
    } else {
        match decision_of(e) {
            Decision::EmulateAndContinue(_) => RunState::Running,
            Decision::Halt => RunState::Halted,
            Decision::Abort(cause) => RunState::Aborted(cause),
        }
    }
}

/// The state reached from `s` after the exits `evs`, in order.
pub open spec fn state_after(s: RunState, evs: Seq<ExitEvent>) -> RunState
    decreases evs.len(),
{
    if evs.len() == 0 {
        s
    } else {
        next_state(state_after(s, evs.drop_last()), evs.last())
    }
}

pub open spec fn is_io_exit(e: ExitEvent) -> bool {
    e is IoIn || e is IoOut
}

/// Maps one exit to the next loop state and the action to take. Depends on
/// nothing but the current state and the exit.
pub fn dispatch(state: RunState, e: &ExitEvent) -> (r: (RunState, Decision))
    ensures
        r.0 == next_state(state, *e),
        r.1 == step_decision(state, *e),
{
    match state {
        RunState::Running => {
            let d = match e {
                ExitEvent::Halt => Decision::Halt,
                ExitEvent::IoIn { port, width } => Decision::EmulateAndContinue(
                    IoAccess { port: *port, direction: IoDirection::In, len: *width },
                ),
                ExitEvent::IoOut { port, bytes } => Decision::EmulateAndContinue(
                    IoAccess { port: *port, direction: IoDirection::Out, len: bytes.len() },
                ),
                ExitEvent::Unhandled { .. } => Decision::Abort(VmmError::UnhandledExit),
                ExitEvent::Error { .. } => Decision::Abort(VmmError::VcpuFault),
            };
            let next = match d {
                Decision::EmulateAndContinue(_) => RunState::Running,
                Decision::Halt => RunState::Halted,
                Decision::Abort(cause) => RunState::Aborted(cause),
            };
            (next, d)
        },
        RunState::Halted => (state, Decision::Halt),
        RunState::Aborted(cause) => (state, Decision::Abort(cause)),
    }
}

/// A terminal state is kept whatever exits follow.
pub proof fn lemma_terminal_state_absorbs(s: RunState, evs: Seq<ExitEvent>)
    requires
        is_terminal(s),
    ensures
        state_after(s, evs) == s,
    decreases evs.len(),
{
    if evs.len() > 0 {
        lemma_terminal_state_absorbs(s, evs.drop_last());
    }
}

/// From `Running`, a run of I/O exits keeps the loop running after each of
/// them, whatever their ports and payloads, and a halt exit that follows them
/// moves it to `Halted`.
pub proof fn lemma_io_exits_keep_running(evs: Seq<ExitEvent>, halt: ExitEvent)
    requires
        forall|i: int| 0 <= i < evs.len() ==> is_io_exit(#[trigger] evs[i]),
        halt is Halt,
    ensures
        forall|k: int| 0 <= k <= evs.len() ==> state_after(RunState::Running, #[trigger] evs.take(k))
            == RunState::Running,
        state_after(RunState::Running, evs.push(halt)) == RunState::Halted,
    decreases evs.len(),
{
    if evs.len() > 0 {
        let init = evs.drop_last();
        lemma_io_exits_keep_running(init, halt);
        assert forall|k: int| 0 <= k <= evs.len() implies state_after(
            RunState::Running,
            #[trigger] evs.take(k),
        ) == RunState::Running by {
            if k < evs.len() {
                assert(evs.take(k) =~= init.take(k));
            } else {
                assert(evs.take(k) =~= evs);
                assert(evs.drop_last() =~= init.take(init.len() as int));
                assert(is_io_exit(evs[evs.len() - 1]));
            }
        }
    }
    assert(evs.take(evs.len() as int) =~= evs);
    assert(state_after(RunState::Running, evs.take(evs.len() as int)) == RunState::Running);
    assert(evs.push(halt).drop_last() =~= evs);
}

} // verus!

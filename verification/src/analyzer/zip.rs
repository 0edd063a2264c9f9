//! The run's control surface: external control signals and the
//! orchestrator's state machine. The driver loop performs the returned
//! action and feeds the following event back in; the machine itself
//! decides every transition.
use vstd::prelude::*;

verus! {

/// An externally driven control signal.
#[derive(Debug, Clone)]
pub enum ControlSignal {
    /// Keep going.
    Continue,
    /// Hold off new work.
    Pause,
    /// Stop; gracefully or not.
    Stop { graceful: bool },
}

/// Where a run stands.
#[derive(Clone, Copy, Debug, PartialEq, Eq, Structural)]
pub enum RunState {
    /// Nothing started yet.
    Idle,
    /// The container structures are being parsed.
    Parsing,
    /// Members are being verified; `next` of `total` is the next to
    /// hand out.
    Decoding { next: u64, total: u64 },
    /// Cancellation was observed; no further work is handed out.
    Cancelled,
    /// The run finished and the report can be emitted.
    Complete,
}

/// What the orchestrator asks the driver to do next.
#[derive(Clone, Copy, Debug, PartialEq, Eq, Structural)]
pub enum RunAction {
    /// Nothing: the run is over.
    Rest,
    /// Locate the end-of-central-directory record and parse the
    /// central directory.
    Parse,
    /// Verify the member with this index.
    Decode(u64),
    /// Emit the report.
    Emit,
}

/// What the driver reports back.
#[derive(Clone, Copy, Debug, PartialEq, Eq, Structural)]
pub enum RunEvent {
    /// The run begins.
    Started,
    /// Parsing yielded this many members.
    Parsed(u64),
    /// Parsing failed at the archive level.
    ParseFailed,
    /// One member's verification finished (passed, skipped or failed).
    EntryDone,
    /// Cancellation was requested from outside.
    CancelRequested,
}

/// A state the run never leaves.
pub open spec fn is_terminal(st: RunState) -> bool {
    st is Cancelled || st is Complete
}

/// The transition relation: one event moves the run one step, and every
/// terminal state absorbs every event.
pub open spec fn spec_step(st: RunState, ev: RunEvent) -> (RunState, RunAction) {
    if is_terminal(st) {
        (st, RunAction::Rest)
    } else if ev is CancelRequested {
        (RunState::Cancelled, RunAction::Rest)
    } else {
        match st {
            RunState::Idle => if ev is Started {
                (RunState::Parsing, RunAction::Parse)
            } else {
                (st, RunAction::Rest)
            },
            RunState::Parsing => match ev {
                RunEvent::Parsed(total) => if total == 0 {
                    (RunState::Complete, RunAction::Emit)
                } else {
                    (RunState::Decoding { next: 0, total }, RunAction::Decode(0))
                },
                RunEvent::ParseFailed => (RunState::Cancelled, RunAction::Rest),
                _ => (st, RunAction::Rest),
            },
            RunState::Decoding { next, total } => if ev is EntryDone {
                if next + 1 < total {
                    (
                        RunState::Decoding { next: (next + 1) as u64, total },
                        RunAction::Decode((next + 1) as u64),
                    )
                } else {
                    (RunState::Complete, RunAction::Emit)
                }
            } else {
                (st, RunAction::Rest)
            },
            _ => (st, RunAction::Rest),
        }
    }
}

/// Advances the run by one event.
///
/// Once cancellation is observed the machine never hands out another
/// decode action, and a terminal state never changes: the driver's
/// join loop runs dry.
pub fn step(st: RunState, ev: RunEvent) -> (r: (RunState, RunAction))
    requires
        st matches RunState::Decoding { next, total } ==> next < total,
    ensures
        r == spec_step(st, ev),
        is_terminal(st) ==> r.0 == st && r.1 == RunAction::Rest,
        ev is CancelRequested ==> is_terminal(r.0),
        st is Cancelled ==> !(r.1 is Decode),
        (r.0 matches RunState::Decoding { next, total } ==> next < total),
{
    if matches!(st, RunState::Cancelled | RunState::Complete) {
        return (st, RunAction::Rest);
    }
    if matches!(ev, RunEvent::CancelRequested) {
        return (RunState::Cancelled, RunAction::Rest);
    }
    match st {
        RunState::Idle => {
            if matches!(ev, RunEvent::Started) {
                (RunState::Parsing, RunAction::Parse)
            } else {
                (st, RunAction::Rest)
            }
        },
        RunState::Parsing => {
            match ev {
                RunEvent::Parsed(total) => {
                    if total == 0 {
                        (RunState::Complete, RunAction::Emit)
                    } else {
                        (RunState::Decoding { next: 0, total }, RunAction::Decode(0))
                    }
                },
                RunEvent::ParseFailed => (RunState::Cancelled, RunAction::Rest),
                _ => (st, RunAction::Rest),
            }
        },
        RunState::Decoding { next, total } => {
            if matches!(ev, RunEvent::EntryDone) {
                if next + 1 < total {
                    (RunState::Decoding { next: next + 1, total }, RunAction::Decode(next + 1))
                } else {
                    (RunState::Complete, RunAction::Emit)
                }
            } else {
                (st, RunAction::Rest)
            }
        },
        _ => (st, RunAction::Rest),
    }
}

} // verus!

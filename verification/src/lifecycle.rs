//! The life of the shell's process: its phases, and the faults that end it
//! before it runs.
use vstd::prelude::*;

verus! {

/// Where the process stands.
#[derive(Clone, Copy, Debug, PartialEq, Eq, Structural)]
pub enum Phase {
    /// Launched, the event loop not yet entered.
    NotStarted,
    /// The event loop runs and the window is shown.
    Running,
    /// The process has ended.
    Terminated,
}

/// A fault that startup cannot recover from. Each ends the process at once
/// with its diagnostic; none is handed back to a caller.
#[derive(Clone, Copy, Debug, PartialEq, Eq, Structural)]
pub enum StartupFault {
    /// The main window did not exist when setup looked for it.
    WindowMissing,
    /// A capability could not be attached, or the event loop did not start.
    RunFailed,
}

/// What moves the process from one phase to the next.
#[derive(Clone, Copy, Debug, PartialEq, Eq, Structural)]
pub enum LifecycleEvent {
    /// Startup completed and the event loop was entered.
    Started,
    /// Startup met a fault.
    Faulted(StartupFault),
    /// The event loop ended, by the user's doing or the program's.
    Exited,
}

/// The diagnostic when the main window is missing.
pub const WINDOW_MISSING: &'static str = "main window not found";

/// The diagnostic when the application cannot be run.
pub const RUN_FAILED: &'static str = "error while running tauri application";

/// The diagnostic of a fault.
pub open spec fn diagnostic_of(fault: StartupFault) -> Seq<char> {
    match fault {
        StartupFault::WindowMissing => WINDOW_MISSING@,
        StartupFault::RunFailed => RUN_FAILED@,
    }
}

/// The phase that follows `phase` on `event`, `None` where the event has no
/// place in that phase. A process starts once, and ends once: from
/// `NotStarted` by starting or by a fault, from `Running` by exiting.
pub open spec fn next_phase(phase: Phase, event: LifecycleEvent) -> Option<Phase> {
    match (phase, event) {
        (Phase::NotStarted, LifecycleEvent::Started) => Some(Phase::Running),
        (Phase::NotStarted, LifecycleEvent::Faulted(_)) => Some(Phase::Terminated),
        (Phase::Running, LifecycleEvent::Exited) => Some(Phase::Terminated),
        _ => None,
    }
}

/// The place of a phase in the order of a process's life.
pub open spec fn phase_rank(phase: Phase) -> int {
    match phase {
        Phase::NotStarted => 0,
        Phase::Running => 1,
        Phase::Terminated => 2,
    }
}

impl StartupFault {
    /// The message the process ends with on this fault.
    pub fn diagnostic(self) -> (message: &'static str)
        ensures
            message@ == diagnostic_of(self),
    {
        match self {
            StartupFault::WindowMissing => WINDOW_MISSING,
            StartupFault::RunFailed => RUN_FAILED,
        }
    }
}

impl Phase {
    /// The phase after `event`, or `None` if the event cannot happen in this
    /// phase.
    pub fn advance(self, event: LifecycleEvent) -> (next: Option<Phase>)
        ensures
            next == next_phase(self, event),
    {
        match self {
            Phase::NotStarted => match event {
                LifecycleEvent::Started => Some(Phase::Running),
                LifecycleEvent::Faulted(_) => Some(Phase::Terminated),
                LifecycleEvent::Exited => None,
            },
            Phase::Running => match event {
                LifecycleEvent::Exited => Some(Phase::Terminated),
                _ => None,
            },
            Phase::Terminated => None,
        }
    }
}

/// The event that the outcome of running the application amounts to: the
/// event loop has ended if the run succeeded, and startup has faulted if it
/// did not.
pub fn run_event(succeeded: bool) -> (event: LifecycleEvent)
    ensures
        event == (if succeeded {
            LifecycleEvent::Exited
        } else {
            LifecycleEvent::Faulted(StartupFault::RunFailed)
        }),
{
    if succeeded {
        LifecycleEvent::Exited
    } else {
        LifecycleEvent::Faulted(StartupFault::RunFailed)
    }
}

/// No event takes a process back: every transition leads to a later phase,
/// and nothing leads out of `Terminated`.
pub proof fn phase_never_goes_back(phase: Phase, event: LifecycleEvent)
    ensures
        next_phase(phase, event) matches Some(next) ==> phase_rank(phase) < phase_rank(next),
        phase == Phase::Terminated ==> next_phase(phase, event) is None,
{
}

/// Every startup fault ends the process: from `NotStarted` a fault leads to
/// `Terminated`, never to `Running`.
pub proof fn fault_terminates(fault: StartupFault)
    ensures
        next_phase(Phase::NotStarted, LifecycleEvent::Faulted(fault)) == Some(Phase::Terminated),
{
}

} // verus!

//! The one-time setup of the main window.
use crate::lifecycle::{next_phase, LifecycleEvent, Phase, StartupFault};
use crate::platform::{flag_of, policy_of, DecorationPolicy, Platform};
use vstd::prelude::*;

verus! {

/// The label under which the host framework holds the main window.
pub const MAIN_WINDOW_LABEL: &'static str = "main";

/// What the host is to do in setup, once it has looked the main window up.
#[derive(Clone, Copy, Debug, PartialEq, Eq, Structural)]
pub enum SetupStep {
    /// Call the window's decoration setter with this flag.
    SetDecorations(bool),
    /// Leave the window's decorations as the framework made them.
    LeaveDecorations,
    /// End the process with the fault's diagnostic.
    Abort(StartupFault),
}

/// The decoration state of the main window, as far as the shell has a hand
/// in it.
#[derive(Clone, Copy, Debug, PartialEq, Eq, Structural)]
pub struct MainWindow {
    /// The flag that was set on the window, `None` while the framework's
    /// default is in force.
    pub decorations: Option<bool>,
}

/// The step setup takes on `platform`. A missing window ends the process on
/// every platform; a window that was found gets the platform's decoration
/// flag, or is left alone where the platform has none.
pub open spec fn step_of(platform: Platform, window_found: bool) -> SetupStep {
    if !window_found {
        SetupStep::Abort(StartupFault::WindowMissing)
    } else {
        match flag_of(policy_of(platform)) {
            Some(flag) => SetupStep::SetDecorations(flag),
            None => SetupStep::LeaveDecorations,
        }
    }
}

/// The window after the host has carried `step` out.
pub open spec fn window_after(window: MainWindow, step: SetupStep) -> MainWindow {
    match step {
        SetupStep::SetDecorations(flag) => MainWindow { decorations: Some(flag) },
        SetupStep::LeaveDecorations => window,
        SetupStep::Abort(_) => window,
    }
}

/// Decides the setup step from the platform and from whether the lookup of
/// the main window found it.
pub fn setup_step(platform: Platform, window_found: bool) -> (step: SetupStep)
    ensures
        step == step_of(platform, window_found),
{
    if !window_found {
        return SetupStep::Abort(StartupFault::WindowMissing);
    }
    match DecorationPolicy::for_platform(platform).flag() {
        Some(flag) => SetupStep::SetDecorations(flag),
        None => SetupStep::LeaveDecorations,
    }
}

impl MainWindow {
    /// A window as the framework creates it, its decorations untouched.
    pub fn new() -> (window: MainWindow)
        ensures
            window.decorations is None,
    {
        MainWindow { decorations: None }
    }

    /// Records that the host has carried `step` out on the window.
    pub fn apply(&mut self, step: SetupStep)
        ensures
            *final(self) == window_after(*old(self), step),
    {
        match step {
            SetupStep::SetDecorations(flag) => {
                self.decorations = Some(flag);
            },
            SetupStep::LeaveDecorations => {},
            SetupStep::Abort(_) => {},
        }
    }
}

/// After setup the decoration flag is the platform's: set on macOS, cleared
/// on Windows, and on every other platform what it was before, which for a
/// window fresh from the framework is no flag at all.
pub proof fn decorations_follow_platform(platform: Platform, window: MainWindow)
    ensures
        window_after(window, step_of(platform, true)).decorations == (match platform {
            Platform::MacOs => Some(true),
            Platform::Windows => Some(false),
            Platform::Other => window.decorations,
        }),
        window.decorations is None ==> window_after(window, step_of(platform, true)).decorations
            == flag_of(policy_of(platform)),
{
}

/// Without a main window setup ends the process, whatever the platform: the
/// step is an abort with the fault of the missing window, and that fault
/// takes the process from `NotStarted` straight to `Terminated`.
pub proof fn missing_window_terminates(platform: Platform)
    ensures
        step_of(platform, false) == SetupStep::Abort(StartupFault::WindowMissing),
        next_phase(Phase::NotStarted, LifecycleEvent::Faulted(StartupFault::WindowMissing))
            == Some(Phase::Terminated),
{
}

/// Setup aborts only for want of a window.
pub proof fn found_window_never_aborts(platform: Platform)
    ensures
        !(step_of(platform, true) is Abort),
{
}

/// Running setup a second time leaves the window as the first run left it.
pub proof fn setup_is_idempotent(platform: Platform, window: MainWindow)
    ensures
        ({
            let step = step_of(platform, true);
            window_after(window_after(window, step), step) == window_after(window, step)
        }),
{
}

} // verus!

use desktop_shell::lifecycle::StartupFault;
use desktop_shell::platform::Platform;
use desktop_shell::setup::{setup_step, MainWindow, SetupStep, MAIN_WINDOW_LABEL};

const PLATFORMS: [Platform; 3] = [Platform::MacOs, Platform::Windows, Platform::Other];

fn after_setup(platform: Platform, mut window: MainWindow) -> MainWindow {
    window.apply(setup_step(platform, true));
    window
}

#[test]
fn main_window_label() {
    assert_eq!(MAIN_WINDOW_LABEL, "main");
}

#[test]
fn macos_sets_native_decorations() {
    assert_eq!(setup_step(Platform::MacOs, true), SetupStep::SetDecorations(true));
}

#[test]
fn windows_clears_decorations() {
    assert_eq!(setup_step(Platform::Windows, true), SetupStep::SetDecorations(false));
}

#[test]
fn other_platforms_leave_decorations() {
    assert_eq!(setup_step(Platform::Other, true), SetupStep::LeaveDecorations);
}

#[test]
fn missing_window_aborts_on_every_platform() {
    for platform in PLATFORMS {
        assert_eq!(
            setup_step(platform, false),
            SetupStep::Abort(StartupFault::WindowMissing),
            "{platform:?}"
        );
    }
}

#[test]
fn found_window_never_aborts() {
    for platform in PLATFORMS {
        assert!(!matches!(setup_step(platform, true), SetupStep::Abort(_)), "{platform:?}");
    }
}

#[test]
fn fresh_window_has_no_flag() {
    assert_eq!(MainWindow::new().decorations, None);
    assert_eq!(MainWindow::new(), MainWindow { decorations: None });
}

#[test]
fn decoration_flag_after_setup_of_a_fresh_window() {
    assert_eq!(after_setup(Platform::MacOs, MainWindow::new()).decorations, Some(true));
    assert_eq!(after_setup(Platform::Windows, MainWindow::new()).decorations, Some(false));
    assert_eq!(after_setup(Platform::Other, MainWindow::new()).decorations, None);
}

#[test]
fn decoration_flag_after_setup_of_a_flagged_window() {
    for before in [Some(true), Some(false)] {
        let window = MainWindow { decorations: before };
        assert_eq!(after_setup(Platform::MacOs, window).decorations, Some(true));
        assert_eq!(after_setup(Platform::Windows, window).decorations, Some(false));
        assert_eq!(after_setup(Platform::Other, window).decorations, before);
    }
}

#[test]
fn apply_carries_each_step_out() {
    let mut window = MainWindow::new();
    window.apply(SetupStep::LeaveDecorations);
    assert_eq!(window.decorations, None);
    window.apply(SetupStep::SetDecorations(false));
    assert_eq!(window.decorations, Some(false));
    window.apply(SetupStep::SetDecorations(true));
    assert_eq!(window.decorations, Some(true));
    window.apply(SetupStep::LeaveDecorations);
    assert_eq!(window.decorations, Some(true));
    window.apply(SetupStep::Abort(StartupFault::WindowMissing));
    assert_eq!(window.decorations, Some(true));
}

#[test]
fn setup_twice_is_setup_once() {
    for platform in PLATFORMS {
        for before in [None, Some(true), Some(false)] {
            let once = after_setup(platform, MainWindow { decorations: before });
            let twice = after_setup(platform, once);
            assert_eq!(twice, once, "{platform:?} {before:?}");
        }
    }
}

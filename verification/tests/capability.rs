use desktop_shell::capability::{
    autostart_config, startup_capabilities, Capability, CapabilityRegistry, MacLauncher,
    MINIMIZED_FLAG,
};

const ALL: [Capability; 10] = [
    Capability::Notification,
    Capability::Autostart,
    Capability::Sql,
    Capability::GlobalShortcut,
    Capability::Filesystem,
    Capability::Dialog,
    Capability::Shell,
    Capability::Http,
    Capability::Process,
    Capability::OsInfo,
];

#[test]
fn startup_list_is_the_ten_capabilities_in_attach_order() {
    assert_eq!(startup_capabilities(), ALL.to_vec());
}

#[test]
fn startup_list_has_no_omission_and_no_repetition() {
    let list = startup_capabilities();
    assert_eq!(list.len(), 10);
    for capability in ALL {
        assert_eq!(list.iter().filter(|c| **c == capability).count(), 1, "{capability:?}");
    }
}

#[test]
fn autostart_launches_with_the_minimized_flag_alone() {
    let config = autostart_config();
    assert_eq!(config.args, vec!["--minimized"]);
    assert_eq!(config.args.len(), 1);
}

#[test]
fn autostart_uses_a_launch_agent() {
    assert_eq!(autostart_config().launcher, MacLauncher::LaunchAgent);
    assert_ne!(autostart_config().launcher, MacLauncher::AppleScript);
}

#[test]
fn minimized_flag_text() {
    assert_eq!(MINIMIZED_FLAG, "--minimized");
}

#[test]
fn new_registry_is_empty() {
    let registry = CapabilityRegistry::new();
    assert_eq!(registry.len(), 0);
    assert_eq!(registry.to_vec(), Vec::<Capability>::new());
    for capability in ALL {
        assert!(!registry.is_enabled(capability));
    }
}

#[test]
fn enable_adds_a_capability_once() {
    let mut registry = CapabilityRegistry::new();
    assert!(registry.enable(Capability::Http));
    assert!(registry.is_enabled(Capability::Http));
    assert!(!registry.is_enabled(Capability::Sql));
    assert_eq!(registry.to_vec(), vec![Capability::Http]);
    assert!(!registry.enable(Capability::Http));
    assert_eq!(registry.to_vec(), vec![Capability::Http]);
    assert_eq!(registry.len(), 1);
}

#[test]
fn enable_keeps_the_order_of_first_enabling() {
    let mut registry = CapabilityRegistry::new();
    assert!(registry.enable(Capability::Shell));
    assert!(registry.enable(Capability::Dialog));
    assert!(!registry.enable(Capability::Shell));
    assert!(registry.enable(Capability::Notification));
    assert_eq!(
        registry.to_vec(),
        vec![Capability::Shell, Capability::Dialog, Capability::Notification]
    );
}

#[test]
fn enabling_in_either_order_enables_the_same_capabilities() {
    let mut one = CapabilityRegistry::new();
    one.enable(Capability::Process);
    one.enable(Capability::Filesystem);
    let mut other = CapabilityRegistry::new();
    other.enable(Capability::Filesystem);
    other.enable(Capability::Process);
    assert_eq!(one.len(), other.len());
    for capability in ALL {
        assert_eq!(one.is_enabled(capability), other.is_enabled(capability), "{capability:?}");
    }
}

#[test]
fn enable_all_skips_what_is_enabled() {
    let mut registry = CapabilityRegistry::new();
    registry.enable(Capability::Sql);
    registry.enable_all(&vec![
        Capability::Http,
        Capability::Sql,
        Capability::Http,
        Capability::OsInfo,
    ]);
    assert_eq!(
        registry.to_vec(),
        vec![Capability::Sql, Capability::Http, Capability::OsInfo]
    );
}

#[test]
fn enable_all_of_nothing_changes_nothing() {
    let mut registry = CapabilityRegistry::new();
    registry.enable(Capability::Dialog);
    registry.enable_all(&Vec::new());
    assert_eq!(registry.to_vec(), vec![Capability::Dialog]);
}

#[test]
fn startup_registry_holds_the_startup_list() {
    let registry = CapabilityRegistry::startup();
    assert_eq!(registry.to_vec(), ALL.to_vec());
    assert_eq!(registry.len(), 10);
    for capability in ALL {
        assert!(registry.is_enabled(capability), "{capability:?}");
    }
}

#[test]
fn enabling_the_startup_list_again_changes_nothing() {
    let mut registry = CapabilityRegistry::startup();
    registry.enable_all(&startup_capabilities());
    assert_eq!(registry.to_vec(), ALL.to_vec());
    for capability in ALL {
        assert!(!registry.enable(capability), "{capability:?}");
    }
    assert_eq!(registry.to_vec(), ALL.to_vec());
}

#[test]
fn enabling_the_startup_list_backwards_enables_the_same_set() {
    let mut backwards = startup_capabilities();
    backwards.reverse();
    let mut registry = CapabilityRegistry::new();
    registry.enable_all(&backwards);
    assert_eq!(registry.to_vec(), backwards);
    assert_eq!(registry.len(), 10);
    for capability in ALL {
        assert!(registry.is_enabled(capability), "{capability:?}");
    }
}

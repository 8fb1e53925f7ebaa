//! The capabilities the shell enables, and the registry that holds them.
use vstd::prelude::*;

verus! {

/// An ability that the shell grants to the application by attaching a
/// plugin of the host framework.
#[derive(Clone, Copy, Debug, PartialEq, Eq, Structural)]
pub enum Capability {
    /// Delivery of desktop notifications.
    Notification,
    /// Launching the application when the user logs in.
    Autostart,
    /// Access to a local SQL database.
    Sql,
    /// Registration of global keyboard shortcuts.
    GlobalShortcut,
    /// Access to the file system.
    Filesystem,
    /// Native file and message dialogs.
    Dialog,
    /// Execution of shell commands.
    Shell,
    /// Outbound HTTP requests.
    Http,
    /// Control over the application's own process.
    Process,
    /// Queries about the operating system.
    OsInfo,
}

/// How the autostart capability registers the application on macOS.
#[derive(Clone, Copy, Debug, PartialEq, Eq, Structural)]
pub enum MacLauncher {
    /// A launch agent that the system starts at login.
    LaunchAgent,
    /// A login item added through AppleScript.
    AppleScript,
}

/// The configuration handed to the autostart capability.
#[derive(Debug, PartialEq, Eq)]
pub struct AutostartConfig {
    /// The registration strategy on macOS.
    pub launcher: MacLauncher,
    /// The arguments the application is launched with at login.
    pub args: Vec<&'static str>,
}

/// The capabilities enabled at startup, in the order in which they are
/// attached.
pub open spec fn capability_list() -> Seq<Capability> {
    seq![
        Capability::Notification,
        Capability::Autostart,
        Capability::Sql,
        Capability::GlobalShortcut,
        Capability::Filesystem,
        Capability::Dialog,
        Capability::Shell,
        Capability::Http,
        Capability::Process,
        Capability::OsInfo,
    ]
}

/// The flag that asks the application to start minimized.
pub const MINIMIZED_FLAG: &'static str = "--minimized";

/// The capabilities to attach at startup, in attach order.
pub fn startup_capabilities() -> (list: Vec<Capability>)
    ensures
        list@ == capability_list(),
{
    vec![
        Capability::Notification,
        Capability::Autostart,
        Capability::Sql,
        Capability::GlobalShortcut,
        Capability::Filesystem,
        Capability::Dialog,
        Capability::Shell,
        Capability::Http,
        Capability::Process,
        Capability::OsInfo,
    ]
}

/// The configuration of the autostart capability: a launch agent on macOS,
/// and a launch with the minimized-start flag as its only argument.
pub fn autostart_config() -> (config: AutostartConfig)
    ensures
        config.launcher == MacLauncher::LaunchAgent,
        config.args@.len() == 1,
        config.args@[0]@ == MINIMIZED_FLAG@,
{
    AutostartConfig { launcher: MacLauncher::LaunchAgent, args: vec![MINIMIZED_FLAG] }
}

/// The enabled capabilities after `capability` is enabled: it is appended
/// unless it is enabled already.
pub open spec fn with_enabled(
    enabled: Seq<Capability>,
    capability: Capability,
) -> Seq<Capability> {
    if enabled.contains(capability) {
        enabled
    } else {
        enabled.push(capability)
    }
}

/// The enabled capabilities after each capability of `list` is enabled in
/// turn, first to last.
pub open spec fn with_all_enabled(
    enabled: Seq<Capability>,
    list: Seq<Capability>,
) -> Seq<Capability>
    decreases list.len(),
{
    if list.len() == 0 {
        enabled
    } else {
        with_enabled(with_all_enabled(enabled, list.drop_last()), list.last())
    }
}

/// The capabilities that are enabled, in the order in which they were first
/// enabled. No capability is held twice.
pub struct CapabilityRegistry {
    enabled: Vec<Capability>,
}

impl View for CapabilityRegistry {
    type V = Seq<Capability>;

    closed spec fn view(&self) -> Seq<Capability> {
        self.enabled@
    }
}

impl CapabilityRegistry {
    #[verifier::type_invariant]
    spec fn distinct(&self) -> bool {
        self.enabled@.no_duplicates()
    }

    /// A registry with nothing enabled.
    pub fn new() -> (registry: Self)
        ensures
            registry@ == Seq::<Capability>::empty(),
    {
        CapabilityRegistry { enabled: Vec::new() }
    }

    /// The registry as it stands once startup has attached every capability
    /// of the startup list.
    pub fn startup() -> (registry: Self)
        ensures
            registry@ == capability_list(),
    {
        let list = startup_capabilities();
        let mut registry = CapabilityRegistry::new();
        registry.enable_all(&list);
        proof {
            startup_list_is_exact();
        }
        registry
    }

    /// The number of enabled capabilities.
    pub fn len(&self) -> (n: usize)
        ensures
            n == self@.len(),
    {
        self.enabled.len()
    }

    /// Whether `capability` is enabled.
    pub fn is_enabled(&self, capability: Capability) -> (found: bool)
        ensures
            found == self@.contains(capability),
    {
        let mut i: usize = 0;
        while i < self.enabled.len()
            invariant
                i <= self.enabled.len(),
                forall|j: int| 0 <= j < i ==> self.enabled@[j] != capability,
            decreases self.enabled.len() - i,
        {
            if self.enabled[i] == capability {
                return true;
            }
            i += 1;
        }
        false
    }

    /// Enables `capability`. Returns whether it was newly enabled; enabling
    /// it again changes nothing.
    pub fn enable(&mut self, capability: Capability) -> (added: bool)
        ensures
            final(self)@ == with_enabled(old(self)@, capability),
            added == !old(self)@.contains(capability),
    {
        proof {
            use_type_invariant(&*self);
        }
        if self.is_enabled(capability) {
            false
        } else {
            let mut list: Vec<Capability> = Vec::new();
            std::mem::swap(&mut self.enabled, &mut list);
            list.push(capability);
            self.enabled = list;
            true
        }
    }

    /// Enables each capability of `list`, first to last.
    pub fn enable_all(&mut self, list: &Vec<Capability>)
        ensures
            final(self)@ == with_all_enabled(old(self)@, list@),
    {
        let mut i: usize = 0;
        while i < list.len()
            invariant
                i <= list.len(),
                self@ == with_all_enabled(old(self)@, list@.take(i as int)),
            decreases list.len() - i,
        {
            proof {
                let next = list@.take(i + 1);
                assert(next.drop_last() == list@.take(i as int));
                assert(next.last() == list@[i as int]);
            }
            self.enable(list[i]);
            i += 1;
        }
        proof {
            assert(list@.take(i as int) == list@);
        }
    }

    /// The enabled capabilities in the order in which they were first
    /// enabled, each of them once.
    pub fn to_vec(&self) -> (list: Vec<Capability>)
        ensures
            list@ == self@,
            list@.no_duplicates(),
    {
        proof {
            use_type_invariant(self);
        }
        let mut list: Vec<Capability> = Vec::new();
        let mut i: usize = 0;
        while i < self.enabled.len()
            invariant
                i <= self.enabled.len(),
                list@ == self.enabled@.take(i as int),
            decreases self.enabled.len() - i,
        {
            list.push(self.enabled[i]);
            i += 1;
        }
        proof {
            assert(self.enabled@.take(i as int) == self.enabled@);
        }
        list
    }
}

/// Enabling a capability twice leaves what enabling it once left.
pub proof fn enabling_is_idempotent(enabled: Seq<Capability>, capability: Capability)
    ensures
        with_enabled(with_enabled(enabled, capability), capability) == with_enabled(
            enabled,
            capability,
        ),
{
    if !enabled.contains(capability) {
        assert(enabled.push(capability)[enabled.len() as int] == capability);
    }
}

/// Enabling never drops or repeats a capability: the enabled set grows by
/// exactly the capability asked for, and a list without repetitions stays so.
pub proof fn enabling_adds_one(enabled: Seq<Capability>, capability: Capability)
    ensures
        with_enabled(enabled, capability).to_set() == enabled.to_set().insert(capability),
        enabled.no_duplicates() ==> with_enabled(enabled, capability).no_duplicates(),
{
    if enabled.contains(capability) {
        assert(enabled.to_set().insert(capability) =~= enabled.to_set());
    } else {
        enabled.lemma_push_to_set_commute(capability);
    }
}

/// The order in which two capabilities are enabled does not change which
/// capabilities are enabled.
pub proof fn enabling_commutes(enabled: Seq<Capability>, first: Capability, second: Capability)
    ensures
        with_enabled(with_enabled(enabled, first), second).to_set() == with_enabled(
            with_enabled(enabled, second),
            first,
        ).to_set(),
{
    enabling_adds_one(enabled, first);
    enabling_adds_one(enabled, second);
    enabling_adds_one(with_enabled(enabled, first), second);
    enabling_adds_one(with_enabled(enabled, second), first);
    assert(enabled.to_set().insert(first).insert(second) =~= enabled.to_set().insert(
        second,
    ).insert(first));
}

/// After a list is enabled, the enabled set is what was enabled before
/// together with the members of the list, whatever the order of the list; and
/// no capability is held twice if none was before.
pub proof fn enabling_all_adds_members(enabled: Seq<Capability>, list: Seq<Capability>)
    ensures
        with_all_enabled(enabled, list).to_set() == enabled.to_set().union(list.to_set()),
        enabled.no_duplicates() ==> with_all_enabled(enabled, list).no_duplicates(),
    decreases list.len(),
{
    if list.len() == 0 {
        assert(enabled.to_set().union(list.to_set()) =~= enabled.to_set());
    } else {
        let front = list.drop_last();
        enabling_all_adds_members(enabled, front);
        enabling_adds_one(with_all_enabled(enabled, front), list.last());
        assert(list.to_set() == front.to_set().insert(list.last())) by {
            assert(list == front.push(list.last()));
            front.lemma_push_to_set_commute(list.last());
        }
        assert(enabled.to_set().union(front.to_set()).insert(list.last())
            =~= enabled.to_set().union(list.to_set()));
    }
}

/// Enabling a list whose members are all enabled already changes nothing.
pub proof fn enabling_enabled_changes_nothing(enabled: Seq<Capability>, list: Seq<Capability>)
    requires
        forall|i: int| 0 <= i < list.len() ==> enabled.contains(#[trigger] list[i]),
    ensures
        with_all_enabled(enabled, list) == enabled,
    decreases list.len(),
{
    if list.len() > 0 {
        let front = list.drop_last();
        assert forall|i: int| 0 <= i < front.len() implies enabled.contains(
            #[trigger] front[i],
        ) by {
            assert(front[i] == list[i]);
        }
        enabling_enabled_changes_nothing(enabled, front);
        assert(enabled.contains(list[list.len() - 1]));
    }
}

/// Enabling the same list a second time leaves what the first time left.
pub proof fn enabling_all_is_idempotent(enabled: Seq<Capability>, list: Seq<Capability>)
    ensures
        with_all_enabled(with_all_enabled(enabled, list), list) == with_all_enabled(
            enabled,
            list,
        ),
{
    let once = with_all_enabled(enabled, list);
    enabling_all_adds_members(enabled, list);
    assert forall|i: int| 0 <= i < list.len() implies once.contains(#[trigger] list[i]) by {
        assert(list.to_set().contains(list[i]));
        assert(once.to_set().contains(list[i]));
    }
    enabling_enabled_changes_nothing(once, list);
}

/// Enabling a list without repetitions on an empty registry leaves exactly
/// that list, in its order.
pub proof fn enabling_distinct_from_empty(list: Seq<Capability>)
    requires
        list.no_duplicates(),
    ensures
        with_all_enabled(Seq::<Capability>::empty(), list) == list,
    decreases list.len(),
{
    if list.len() > 0 {
        let front = list.drop_last();
        enabling_distinct_from_empty(front);
        assert(!front.contains(list.last())) by {
            if front.contains(list.last()) {
                let i = front.lemma_contains_to_index(list.last());
                assert(list[i] == list[list.len() - 1]);
            }
        }
        assert(front.push(list.last()) == list);
    }
}

/// The startup list names every capability, and each of them once: after
/// startup all ten are enabled, none is missing and none is extra.
pub proof fn startup_list_is_exact()
    ensures
        capability_list().len() == 10,
        capability_list().no_duplicates(),
        forall|capability: Capability| capability_list().contains(capability),
        with_all_enabled(Seq::<Capability>::empty(), capability_list()) == capability_list(),
{
    let list = capability_list();
    assert forall|capability: Capability| list.contains(capability) by {
        match capability {
            Capability::Notification => assert(list[0] == capability),
            Capability::Autostart => assert(list[1] == capability),
            Capability::Sql => assert(list[2] == capability),
            Capability::GlobalShortcut => assert(list[3] == capability),
            Capability::Filesystem => assert(list[4] == capability),
            Capability::Dialog => assert(list[5] == capability),
            Capability::Shell => assert(list[6] == capability),
            Capability::Http => assert(list[7] == capability),
            Capability::Process => assert(list[8] == capability),
            Capability::OsInfo => assert(list[9] == capability),
        }
    }
    enabling_distinct_from_empty(list);
}

} // verus!

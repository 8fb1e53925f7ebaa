//! Host platforms and the window decoration each of them gets.
use crate::text::same_text;
use vstd::prelude::*;

verus! {

/// The operating systems the shell tells apart.
#[derive(Clone, Copy, Debug, PartialEq, Eq, Structural)]
pub enum Platform {
    MacOs,
    Windows,
    /// Any other operating system.
    Other,
}

/// How the main window's chrome is drawn.
#[derive(Clone, Copy, Debug, PartialEq, Eq, Structural)]
pub enum DecorationPolicy {
    /// The operating system draws title bar and borders.
    Native,
    /// The application draws its own title bar.
    Custom,
    /// The shell leaves the window as the framework created it.
    PlatformDefault,
}

/// The platform that an operating system name stands for. The names are
/// those of `std::env::consts::OS`.
pub open spec fn platform_of(name: Seq<char>) -> Platform {
    if name == "macos"@ {
        Platform::MacOs
    } else if name == "windows"@ {
        Platform::Windows
    } else {
        Platform::Other
    }
}

/// The decoration policy of a platform.
pub open spec fn policy_of(platform: Platform) -> DecorationPolicy {
    match platform {
        Platform::MacOs => DecorationPolicy::Native,
        Platform::Windows => DecorationPolicy::Custom,
        Platform::Other => DecorationPolicy::PlatformDefault,
    }
}

/// The decoration flag a policy sets, `None` where it sets none.
pub open spec fn flag_of(policy: DecorationPolicy) -> Option<bool> {
    match policy {
        DecorationPolicy::Native => Some(true),
        DecorationPolicy::Custom => Some(false),
        DecorationPolicy::PlatformDefault => None,
    }
}

impl Platform {
    /// Tells the platform from the operating system's name: `"macos"` and
    /// `"windows"` are known, every other name is `Other`.
    pub fn from_os_name(name: &str) -> (platform: Platform)
        ensures
            platform == platform_of(name@),
    {
        if same_text(name, "macos") {
            Platform::MacOs
        } else if same_text(name, "windows") {
            Platform::Windows
        } else {
            Platform::Other
        }
    }
}

impl DecorationPolicy {
    /// The policy that applies on `platform`.
    pub fn for_platform(platform: Platform) -> (policy: DecorationPolicy)
        ensures
            policy == policy_of(platform),
    {
        match platform {
            Platform::MacOs => DecorationPolicy::Native,
            Platform::Windows => DecorationPolicy::Custom,
            Platform::Other => DecorationPolicy::PlatformDefault,
        }
    }

    /// The value to hand to the window's decoration setter, or `None` when
    /// the setter is not to be called.
    pub fn flag(self) -> (flag: Option<bool>)
        ensures
            flag == flag_of(self),
    {
        match self {
            DecorationPolicy::Native => Some(true),
            DecorationPolicy::Custom => Some(false),
            DecorationPolicy::PlatformDefault => None,
        }
    }
}

} // verus!

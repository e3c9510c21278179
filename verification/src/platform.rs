//! The platform a command runs on, and whether launching is offered there.

use vstd::prelude::*;

verus! {

/// The operating system family the host was built for.
#[derive(Clone, Copy, Debug, PartialEq, Eq, Structural)]
pub enum Platform {
    /// Microsoft Windows, the one platform on which processes are launched.
    Windows,
    /// Every other operating system.
    Other,
}

impl Platform {
    /// Whether the commands launch anything on this platform.
    pub open spec fn supports_launch(self) -> bool {
        self is Windows
    }

    /// The operating-system name under which the supported platform is known.
    pub open spec fn supported_os_name() -> Seq<char> {
        "windows"@
    }

    /// Classifies an operating-system name such as `"windows"`, `"linux"` or
    /// `"macos"`. The comparison is exact: no case folding, no trimming.
    pub fn from_os_name(name: &str) -> (platform: Platform)
        ensures
            platform.supports_launch() <==> name@ == Self::supported_os_name(),
    {
        let given = name.to_owned();
        let supported = "windows".to_owned();
        if given == supported {
            Platform::Windows
        } else {
            Platform::Other
        }
    }

    /// Executable form of [`Platform::supports_launch`].
    pub fn can_launch(&self) -> (supported: bool)
        ensures
            supported == self.supports_launch(),
    {
        match self {
            Platform::Windows => true,
            Platform::Other => false,
        }
    }
}

} // verus!

//! Classification of the operating-system family reported by the runtime.

use vstd::prelude::*;

verus! {

/// The closed set of operating-system families the probes know how to
/// handle. Every string that is not one of the three recognized names maps
/// to `Other`, for which no probing is attempted.
#[derive(Clone, Copy, Debug, PartialEq, Eq, Structural)]
pub enum Platform {
    Linux,
    MacOS,
    Windows,
    Other,
}

/// Which platform a given operating-system identifier string denotes.
pub open spec fn platform_of(os: Seq<char>) -> Platform {
    if os == "linux"@ {
        Platform::Linux
    } else if os == "macos"@ {
        Platform::MacOS
    } else if os == "windows"@ {
        Platform::Windows
    } else {
        Platform::Other
    }
}

impl Platform {
    /// A platform is recognized when a probing strategy exists for it.
    pub open spec fn is_recognized(self) -> bool {
        self !is Other
    }

    /// Classify the operating-system identifier string handed over by the
    /// runtime environment.
    pub fn from_os_str(os: &str) -> (p: Platform)
        ensures
            p == platform_of(os@),
    {
        let s = String::from_str(os);
        if s == String::from_str("linux") {
            Platform::Linux
        } else if s == String::from_str("macos") {
            Platform::MacOS
        } else if s == String::from_str("windows") {
            Platform::Windows
        } else {
            Platform::Other
        }
    }
}

} // verus!

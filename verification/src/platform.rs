//! The two platform families the launcher distinguishes, and what differs
//! between them: the wrapper script's file name, the path separator, and
//! whether the launcher itself has to swallow an interrupt.

use vstd::prelude::*;

verus! {

/// The file name of the wrapper script on POSIX-like systems.
pub const GRADLEW: &'static str = "gradlew";

/// The file name of the wrapper script on Windows.
pub const GRADLEW_BAT: &'static str = "gradlew.bat";

/// The platform family the launcher runs on, chosen once at startup.
#[derive(Clone, Copy, Debug, PartialEq, Eq, Structural)]
pub enum Platform {
    Posix,
    Windows,
}

impl Platform {
    /// The file name of the wrapper script on this platform.
    pub open spec fn spec_wrapper_name(self) -> Seq<char> {
        match self {
            Platform::Posix => GRADLEW@,
            Platform::Windows => GRADLEW_BAT@,
        }
    }

    /// The text that separates two names of a path on this platform.
    pub open spec fn spec_separator(self) -> Seq<char> {
        match self {
            Platform::Posix => "/"@,
            Platform::Windows => "\\"@,
        }
    }

    /// The file name of the wrapper script on this platform.
    pub fn wrapper_name(self) -> (name: &'static str)
        ensures
            name@ == self.spec_wrapper_name(),
    {
        match self {
            Platform::Posix => GRADLEW,
            Platform::Windows => GRADLEW_BAT,
        }
    }

    /// The text that separates two names of a path on this platform.
    pub fn separator(self) -> (sep: &'static str)
        ensures
            sep@ == self.spec_separator(),
    {
        match self {
            Platform::Posix => "/",
            Platform::Windows => "\\",
        }
    }

    /// Whether the launcher must ignore an interrupt itself, so that the
    /// delegate gets to answer it: only the Windows batch wrapper asks the
    /// user before it terminates.
    pub fn shields_interrupt(self) -> (shield: bool)
        ensures
            shield == (self == Platform::Windows),
    {
        match self {
            Platform::Posix => false,
            Platform::Windows => true,
        }
    }
}

} // verus!

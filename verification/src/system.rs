//! Platform identities.

use vstd::prelude::*;

verus! {

/// The platform a step is built on, runs on, or generates code for.
#[allow(non_camel_case_types)]
#[derive(Clone, Copy, Debug, PartialEq, Eq, Structural)]
pub enum System {
    x86_64_linux,
    i686_linux,
    aarch64_linux,
    x86_64_darwin,
    aarch64_darwin,
}

impl System {
    /// The platform written as `<cpu>-<kernel>`.
    pub open spec fn name(self) -> Seq<char> {
        match self {
            System::x86_64_linux => "x86_64-linux"@,
            System::i686_linux => "i686-linux"@,
            System::aarch64_linux => "aarch64-linux"@,
            System::x86_64_darwin => "x86_64-darwin"@,
            System::aarch64_darwin => "aarch64-darwin"@,
        }
    }

    /// Renders the platform as the string that a compiled step carries.
    pub fn to_string(&self) -> (s: String)
        ensures
            s@ == self.name(),
    {
        match self {
            System::x86_64_linux => String::from_str("x86_64-linux"),
            System::i686_linux => String::from_str("i686-linux"),
            System::aarch64_linux => String::from_str("aarch64-linux"),
            System::x86_64_darwin => String::from_str("x86_64-darwin"),
            System::aarch64_darwin => String::from_str("aarch64-darwin"),
        }
    }
}

} // verus!

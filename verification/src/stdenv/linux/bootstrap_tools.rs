//! The unpacked bootstrap tools: the one step that every other step of the
//! bootstrap draws its tools from.

pub mod glibc;

use crate::drv::Drv;
use crate::stdenv::linux::bootstrap_files::BootstrapFiles;
use crate::system::System;
use vstd::prelude::*;

verus! {

/// The bootstrap tools of one platform, for one choice of C library.
pub struct BootstrapTools {
    pub bootstrap_files: BootstrapFiles,
    pub system: System,
    pub glibc: bool,
}

impl BootstrapTools {
    /// Describes the step that unpacks the tools. Only the GNU C library
    /// is supported.
    pub fn into_drv(self) -> (drv: Drv)
        requires
            self.glibc,
        ensures
            drv@ == glibc::unpack_step(self.system, self.bootstrap_files@),
    {
        glibc::BootstrapTools { system: self.system, bootstrap_files: self.bootstrap_files }.into_drv()
    }
}

} // verus!

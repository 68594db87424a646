//! The pre-built files that the bootstrap starts from.

pub mod i686_unknown_linux;
pub mod x86_64_unknown_linux;

use crate::builtins::{FetchUrl, FetchUrlView};
use crate::drv::{LazyDrv, ThunkView};
use vstd::prelude::*;

verus! {

/// Handles to the two files of one platform: the archive of tools, and the
/// busybox binary that unpacks it.
pub struct BootstrapFiles {
    pub tools: LazyDrv,
    pub busybox: LazyDrv,
}

/// `BootstrapFiles` as a mathematical value: every string a sequence of characters,
/// every list a sequence.
pub struct BootstrapFilesView {
    pub tools: ThunkView,
    pub busybox: ThunkView,
}

impl View for BootstrapFiles {
    type V = BootstrapFilesView;

    open spec fn view(&self) -> BootstrapFilesView {
        BootstrapFilesView { tools: self.tools@, busybox: self.busybox@ }
    }
}

/// One bootstrap file: where it is fetched from, the hash it must have, and
/// whether it is to be executable.
pub struct FetchBootstrapFile {
    pub url: &'static str,
    pub hash: crate::hash::Hash,
    pub executable: bool,
}

/// The download of one bootstrap file by the engine's own fetcher: under no
/// name of its own, not unpacked.
pub open spec fn bootstrap_fetch(url: Seq<char>, hash: Seq<char>, executable: bool) -> FetchUrlView {
    FetchUrlView { name: None, url, hash, unpack: false, executable }
}

impl FetchBootstrapFile {
    /// The download that brings the file.
    pub fn into_fetch(self) -> (fetch: FetchUrl)
        ensures
            fetch@ == bootstrap_fetch(self.url@, self.hash@, self.executable),
    {
        FetchUrl {
            name: None,
            url: String::from_str(self.url),
            hash: self.hash,
            unpack: false,
            executable: self.executable,
        }
    }
}

} // verus!

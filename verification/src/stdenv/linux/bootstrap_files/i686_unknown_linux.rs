//! The bootstrap files for Linux on 32-bit x86.

use crate::builtins::{FetchUrl, FetchUrlView};
use crate::stdenv::linux::bootstrap_files::{bootstrap_fetch, FetchBootstrapFile};
use vstd::prelude::*;

verus! {

pub const TOOLS_URL: &'static str =
    "http://tarballs.nixos.org/stdenv/i686-unknown-linux-gnu/125cefd4cf8f857e5ff1aceaef9230ba578a033d/bootstrap-tools.tar.xz";

pub const TOOLS_HASH: &'static str =
    "sha512:YzJSc1lXcHFabXhyWVhOa2FtWnNZWE5xWm14ellXcG1jMjNSc2FtWnNjMlJxYkdaaGFuTnNhMlpoYzJSclphcw";

pub const BUSYBOX_URL: &'static str =
    "http://tarballs.nixos.org/stdenv/i686-unknown-linux-gnu/125cefd4cf8f857e5ff1aceaef9230ba578a033d/busybox";

pub const BUSYBOX_HASH: &'static str =
    "sha512:YzJSc1lXcHFabXhyWVhOa2FtWnNZWE5xWm14ellXcG1jMjNSc2FtWnNjMlJxYkdaaGFuTnNhMlpoYzJSclphcw";

/// The archive of pre-built tools.
pub struct BootstrapTools;

impl BootstrapTools {
    /// The download of the archive.
    pub open spec fn fetch() -> FetchUrlView {
        bootstrap_fetch(TOOLS_URL@, TOOLS_HASH@, false)
    }

    /// The download that brings the archive.
    pub fn into_fetch(self) -> (fetch: FetchUrl)
        ensures
            fetch@ == Self::fetch(),
    {
        FetchBootstrapFile {
            url: TOOLS_URL,
            hash: crate::hash::Hash::new(TOOLS_HASH),
            executable: false,
        }.into_fetch()
    }
}

/// The busybox binary, fetched as an executable.
pub struct Busybox;

impl Busybox {
    /// The download of the binary.
    pub open spec fn fetch() -> FetchUrlView {
        bootstrap_fetch(BUSYBOX_URL@, BUSYBOX_HASH@, true)
    }

    /// The download that brings the binary.
    pub fn into_fetch(self) -> (fetch: FetchUrl)
        ensures
            fetch@ == Self::fetch(),
    {
        FetchBootstrapFile {
            url: BUSYBOX_URL,
            hash: crate::hash::Hash::new(BUSYBOX_HASH),
            executable: true,
        }.into_fetch()
    }
}

} // verus!

//! The bootstrap files for Linux on 64-bit x86.

use crate::builtins::{FetchUrl, FetchUrlView};
use crate::stdenv::linux::bootstrap_files::{bootstrap_fetch, FetchBootstrapFile};
use vstd::prelude::*;

verus! {

pub const TOOLS_URL: &'static str =
    "http://tarballs.nixos.org/stdenv/x86_64-unknown-linux-gnu/82b583ba2ba2e5706b35dbe23f31362e62be2a9d/bootstrap-tools.tar.xz";

pub const TOOLS_HASH: &'static str =
    "sha512:rE3awurje4X3WxwmSf03-Acb8O8DBSBOmNk2f094EfVd5y9x8wt0nhenj14vp_jGtkMTTo64dpelx2V7TcluJA";

pub const BUSYBOX_URL: &'static str =
    "http://tarballs.nixos.org/stdenv/x86_64-unknown-linux-gnu/82b583ba2ba2e5706b35dbe23f31362e62be2a9d/busybox";

pub const BUSYBOX_HASH: &'static str =
    "sha512:j3Egq7E25ffdZsvHZNEHkISHyzaj_XGasw4VRd1O4D-5b0ME3ASGT6Yij_ESgu8ry5gjqQMLEb-6PKPwceOH6Q";

/// The archive of pre-built tools.
pub struct BootstrapTools;

impl BootstrapTools {
    /// The download of the archive.
    pub open spec fn fetch() -> FetchUrlView {
        bootstrap_fetch(TOOLS_URL@, TOOLS_HASH@, false)
    }

    /// The download that brings the archive.
    pub fn into_fetch(self) -> (fetch: FetchUrl)
        ensures
            fetch@ == Self::fetch(),
    {
        FetchBootstrapFile {
            url: TOOLS_URL,
            hash: crate::hash::Hash::new(TOOLS_HASH),
            executable: false,
        }.into_fetch()
    }
}

/// The busybox binary, fetched as an executable.
pub struct Busybox;

impl Busybox {
    /// The download of the binary.
    pub open spec fn fetch() -> FetchUrlView {
        bootstrap_fetch(BUSYBOX_URL@, BUSYBOX_HASH@, true)
    }

    /// The download that brings the binary.
    pub fn into_fetch(self) -> (fetch: FetchUrl)
        ensures
            fetch@ == Self::fetch(),
    {
        FetchBootstrapFile {
            url: BUSYBOX_URL,
            hash: crate::hash::Hash::new(BUSYBOX_HASH),
            executable: true,
        }.into_fetch()
    }
}

} // verus!

//! The pkg-config tool.

use crate::build::fetchurl::{FetchUrl, FetchUrlView};
use crate::drv::{Drv, DrvView, LazyDrv, ThunkView};
use crate::expr::{local_file, Expr, ExprView};
use crate::stdenv::generic::deps::Slot;
use crate::stdenv::{Stdenv, StdenvBuilder, StdenvBuilderView, StdenvDrvView};
use crate::text::{only_if, only_if_of};
use vstd::prelude::*;

verus! {

pub const NAME: &'static str = "pkg-config";

pub const VERSION: &'static str = "0.29.2";

pub const HASH: &'static str =
    "sha512:YzJSc1lXcHFabXhyWVhOa2FtWnNZWE5xWm14ellXcG1jMjNSc2FtWnNjMlJxYkdaaGFuTnNhMlpoYzJSclphcw";

/// Makes the configure scripts find `uname` on the search path.
pub const FIX_UNAME: &'static str =
    "substituteInPlace ./config.guess ./glib/config.guess --replace-fail /usr/bin/uname uname\n";

/// Removes the tests that the patch for private requirements breaks.
pub const DROP_TESTS: &'static str =
    "rm -f check/check-requires-private check/check-gtk check/missing";

/// Removes the copies of the tool that carry the platform in their name.
pub const POST_INSTALL: &'static str = r#"rm -f "$out"/bin/*-pkg-config"#;

/// The tool. Unless `vanilla` is chosen it carries the patch that leaves
/// private requirements out of what it reports.
pub struct PkgConfig {
    pub stdenv: Stdenv,
    pub fetchurl: FetchUrl,
    pub libiconv: LazyDrv,
    pub vanilla: Option<bool>,
}

/// Where the source archive is fetched from.
pub open spec fn url() -> Seq<char> {
    "https://pkg-config.freedesktop.org/releases/"@ + NAME@ + "-"@ + VERSION@ + ".tar.gz"@
}

/// The script that runs after the patches are applied.
pub open spec fn post_patch(vanilla: bool) -> Seq<char> {
    FIX_UNAME@ + only_if_of(!vanilla, DROP_TESTS@)
}

/// The step that builds the tool.
#[verifier::opaque]
pub open spec fn step(
    stdenv: StdenvDrvView,
    fetchurl: FetchUrlView,
    libiconv: ThunkView,
    vanilla: Option<bool>,
) -> DrvView {
    let vanilla = vanilla.unwrap_or(false);
    let b = StdenvBuilderView::new(stdenv).name(NAME@).version(VERSION@).src(
        fetchurl.fetch(url(), HASH@).expr(),
    ).out("out"@).out("man"@).out("doc"@).input_bool("STRICT_DEPS"@, true);
    let b = if !vanilla {
        b.patch(ExprView::File("requires-private.patch"@))
    } else {
        b
    };
    b.post_patch(post_patch(vanilla)).dep(Slot::BuildHost, libiconv.expr()).configure_flags(
        "--with-internal-glib"@,
    ).input_bool("ENABLE_PARALLEL_BUILDING"@, true).do_check().post_install(POST_INSTALL@).compile()
}

/// Adds the patch that leaves private requirements out.
fn private_requires_patch(builder: StdenvBuilder) -> (b: StdenvBuilder)
    ensures
        b@ == builder@.patch(ExprView::File("requires-private.patch"@)),
{
    builder.patch(local_file("requires-private.patch"))
}

fn source_url() -> (s: String)
    ensures
        s@ == url(),
{
    String::from_str("https://pkg-config.freedesktop.org/releases/").concat(NAME).concat("-").concat(
        VERSION,
    ).concat(".tar.gz")
}

impl PkgConfig {
    pub open spec fn step(&self) -> DrvView {
        step(self.stdenv@, self.fetchurl@, self.libiconv@, self.vanilla)
    }

    /// Describes the step that builds the tool.
    pub fn into_drv(self) -> (drv: Drv)
        ensures
            drv@ == self.step(),
    {
        proof {
            reveal(step);
        }
        let vanilla = self.vanilla.unwrap_or(false);
        let post_patch = String::from_str(FIX_UNAME).concat(only_if(!vanilla, DROP_TESTS));
        self.stdenv.make_derivation().name(NAME).version(VERSION).src(
            Expr::drv(self.fetchurl.fetch(source_url().as_str(), crate::hash::Hash::new(HASH))),
        ).out("out").out("man").out("doc").input_bool("STRICT_DEPS", true).optional(
            !vanilla,
            private_requires_patch,
        ).post_patch(post_patch.as_str()).dep_build_host(Expr::drv(self.libiconv)).configure_flags(
            "--with-internal-glib",
        ).input_bool("ENABLE_PARALLEL_BUILDING", true).do_check().post_install(POST_INSTALL).build()
    }
}

} // verus!

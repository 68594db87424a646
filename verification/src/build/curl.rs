//! The curl transfer tool.

use crate::build::fetchurl::{FetchUrl, FetchUrlView};
use crate::drv::{Drv, DrvView, LazyDrv, ThunkView};
use crate::expr::{Expr, ExprView};
use crate::stdenv::generic::deps::Slot;
use crate::stdenv::{Stdenv, StdenvBuilderView, StdenvDrvView};
use crate::text::{join, join_of};
use vstd::prelude::*;

verus! {

pub const VERSION: &'static str = "8.14.1";

pub const HASH: &'static str =
    "sha512:YzJSc1lXcHFabXhyWVhOa2FtWnNZWE5xWm14ellXcG1jMjNSc2FtWnNjMlJxYkdaaGFuTnNhMlpoYzJSclphcw";

/// What stands before the names of the compiler commands. A cross build
/// would put the target's prefix here.
pub const COMPILER_PREFIX: &'static str = "TODO";

pub const POST_PATCH: &'static str = r"substituteInPlace ./config.guess --replace-fail /usr/bin/uname uname
patchShebangs scripts";

pub const PRE_CONFIGURE: &'static str = r"sed -e 's|/usr/bin|/no-such-path|g' -i.bak configure
rm src/tool_hugehelp.c";

pub const POST_INSTALL: &'static str = r#"moveToOutput bin/curl-config "$dev"
# Install completions
make -C scripts install"#;

/// The tool, built with pkg-config and perl at hand.
pub struct Curl {
    pub stdenv: Stdenv,
    pub fetchurl: FetchUrl,
    pub pkg_config: LazyDrv,
    pub perl: LazyDrv,
}

/// Where the source archive is fetched from.
pub open spec fn url() -> Seq<char> {
    "https://curl.haxx.se/download/curl-"@ + VERSION@ + ".tar.xz"@
}

/// The flags handed to the configure script.
pub open spec fn configure_flags() -> Seq<char> {
    join_of(seq!["--enable-versioned-symbols"@, "--disable-manual"@], " "@)
}

/// The step that builds the tool.
#[verifier::opaque]
pub open spec fn step(
    stdenv: StdenvDrvView,
    fetchurl: FetchUrlView,
    pkg_config: ThunkView,
    perl: ThunkView,
) -> DrvView {
    StdenvBuilderView::new(stdenv).name("curl"@).version(VERSION@).src(
        fetchurl.fetch(url(), HASH@).expr(),
    ).post_patch(POST_PATCH@).out("bin"@).out("dev"@).out("out"@).out("man"@).out("devdoc"@).input(
        "ENABLE_PARALLEL_BUILDING"@,
        ExprView::Str("1"@),
    ).input("STRICT_DEPS"@, ExprView::Str("1"@)).dep(Slot::BuildHost, pkg_config.expr()).dep(
        Slot::BuildHost,
        perl.expr(),
    ).pre_configure(PRE_CONFIGURE@).configure_flags(configure_flags()).input(
        "CXX"@,
        ExprView::Str(COMPILER_PREFIX@ + "c++"@),
    ).input("CXXCPP"@, ExprView::Str(COMPILER_PREFIX@ + "c++ -E"@)).do_check().pre_check(
        "patchShebangs tests/"@,
    ).post_install(POST_INSTALL@).compile()
}

fn source_url() -> (s: String)
    ensures
        s@ == url(),
{
    String::from_str("https://curl.haxx.se/download/curl-").concat(VERSION).concat(".tar.xz")
}

fn configure_flags_text() -> (s: String)
    ensures
        s@ == configure_flags(),
{
    let flags: Vec<&str> = vec!["--enable-versioned-symbols", "--disable-manual"];
    assert(crate::text::strs_view(flags@) =~= seq![
        "--enable-versioned-symbols"@,
        "--disable-manual"@,
    ]);
    join(&flags, " ")
}

impl Curl {
    pub open spec fn step(&self) -> DrvView {
        step(self.stdenv@, self.fetchurl@, self.pkg_config@, self.perl@)
    }

    /// Describes the step that builds the tool.
    pub fn into_drv(self) -> (drv: Drv)
        ensures
            drv@ == self.step(),
    {
        proof {
            reveal(step);
        }
        self.stdenv.make_derivation().name("curl").version(VERSION).src(
            Expr::drv(self.fetchurl.fetch(source_url().as_str(), crate::hash::Hash::new(HASH))),
        ).post_patch(POST_PATCH).out("bin").out("dev").out("out").out("man").out("devdoc").input(
            "ENABLE_PARALLEL_BUILDING",
            Expr::str("1"),
        ).input("STRICT_DEPS", Expr::str("1")).dep_build_host(
            Expr::drv(self.pkg_config),
        ).dep_build_host(Expr::drv(self.perl)).pre_configure(PRE_CONFIGURE).configure_flags(
            configure_flags_text().as_str(),
        ).input("CXX", Expr::Str(String::from_str(COMPILER_PREFIX).concat("c++"))).input(
            "CXXCPP",
            Expr::Str(String::from_str(COMPILER_PREFIX).concat("c++ -E")),
        ).do_check().pre_check("patchShebangs tests/").post_install(POST_INSTALL).build()
    }
}

} // verus!

//! GNU hello, the package that exercises every hook.

use crate::build::fetchurl::{FetchUrl, FetchUrlView};
use crate::drv::{Drv, DrvView};
use crate::expr::Expr;
use crate::stdenv::{Stdenv, StdenvBuilderView, StdenvDrvView};
use vstd::prelude::*;

verus! {

pub const VERSION: &'static str = "2.12.1";

pub const HASH: &'static str =
    "sha512:YzJSc1lXcHFabXhyWVhOa2FtWnNZWE5xWm14ellXcG1jMjNSc2FtWnNjMlJxYkdaaGFuTnNhMlpoYzJSclphcw";

/// Looks for the installed program.
pub const STAT_PROGRAM: &'static str = r#"
                stat "out/bin/hello"
                "#;

/// The program. Both test phases run, and every phase has a hook before
/// and after it that says so.
pub struct Hello {
    pub fetchurl: FetchUrl,
    pub stdenv: Stdenv,
}

/// Where the source archive is fetched from.
pub open spec fn url() -> Seq<char> {
    "mirror://gnu/hello/hello-"@ + VERSION@ + ".tar.gz"@
}

/// The step that builds the program. The hook after the install check is
/// set twice; the later setting stands.
#[verifier::opaque]
pub open spec fn step(stdenv: StdenvDrvView, fetchurl: FetchUrlView) -> DrvView {
    StdenvBuilderView::new(stdenv).name("hello"@).version(VERSION@).src(
        fetchurl.fetch(url(), HASH@).expr(),
    ).do_check().do_install_check().post_install_check(STAT_PROGRAM@).pre_unpack(
        r#"echo "hello pre unpack""#@,
    ).post_unpack(
        r#"echo "hello post unpack""#@,
    ).pre_patch(
        r#"echo "hello pre patch""#@,
    ).post_patch(
        r#"echo "hello post patch""#@,
    ).pre_configure(
        r#"echo "hello pre configure""#@,
    ).post_configure(
        r#"echo "hello post configure""#@,
    ).pre_build(
        r#"echo "hello pre build""#@,
    ).post_build(
        r#"echo "hello post build""#@,
    ).pre_check(
        r#"echo "hello pre check""#@,
    ).post_check(
        r#"echo "hello post check""#@,
    ).pre_install(
        r#"echo "hello pre install""#@,
    ).post_install(
        r#"echo "hello post install""#@,
    ).pre_fix(
        r#"echo "hello pre fix""#@,
    ).post_fix(
        r#"echo "hello post fix""#@,
    ).pre_install_check(
        r#"echo "hello pre install check""#@,
    ).post_install_check(
        r#"echo "hello post install check""#@,
    ).compile()
}

fn source_url() -> (s: String)
    ensures
        s@ == url(),
{
    String::from_str("mirror://gnu/hello/hello-").concat(VERSION).concat(".tar.gz")
}

impl Hello {
    pub open spec fn step(&self) -> DrvView {
        step(self.stdenv@, self.fetchurl@)
    }

    /// Describes the step that builds the program.
    pub fn into_drv(self) -> (drv: Drv)
        ensures
            drv@ == self.step(),
    {
        proof {
            reveal(step);
        }
        self.stdenv.make_derivation().name("hello").version(VERSION).src(
            Expr::drv(self.fetchurl.fetch(source_url().as_str(), crate::hash::Hash::new(HASH))),
        ).do_check().do_install_check().post_install_check(STAT_PROGRAM).pre_unpack(
            r#"echo "hello pre unpack""#,
        ).post_unpack(
            r#"echo "hello post unpack""#,
        ).pre_patch(
            r#"echo "hello pre patch""#,
        ).post_patch(
            r#"echo "hello post patch""#,
        ).pre_configure(
            r#"echo "hello pre configure""#,
        ).post_configure(
            r#"echo "hello post configure""#,
        ).pre_build(
            r#"echo "hello pre build""#,
        ).post_build(
            r#"echo "hello post build""#,
        ).pre_check(
            r#"echo "hello pre check""#,
        ).post_check(
            r#"echo "hello post check""#,
        ).pre_install(
            r#"echo "hello pre install""#,
        ).post_install(
            r#"echo "hello post install""#,
        ).pre_fix(
            r#"echo "hello pre fix""#,
        ).post_fix(
            r#"echo "hello post fix""#,
        ).pre_install_check(
            r#"echo "hello pre install check""#,
        ).post_install_check(
            r#"echo "hello post install check""#,
        ).build()
    }
}

} // verus!

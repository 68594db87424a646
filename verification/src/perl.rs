//! A stand-in for the interpreter: a step that writes a greeting where the
//! interpreter would be. It serves where a package set is tried out and the
//! real interpreter is not wanted.

use crate::drv::{Drv, DrvBuilder, DrvBuilderView, DrvView};
use crate::expr::{Expr, ExprView};
use crate::fetchers::fetchurl::FetchUrl;
use crate::stdenv::Stdenv;
use vstd::prelude::*;

verus! {

/// What the step runs.
pub const COMMAND: &'static str = r#"echo "---hello from perl---" > $bin"#;

/// The stand-in. It uses neither the environment nor the fetcher it is
/// given.
pub struct Perl {
    pub stdenv: Stdenv,
    pub fetchurl: FetchUrl,
}

/// The step of the stand-in, with `bin` as its one output.
pub open spec fn step() -> DrvView {
    DrvBuilderView::empty().name("perl"@).out("bin"@).builder(ExprView::Str("/bin/sh"@)).arg(
        ExprView::Str("-c"@),
    ).arg(ExprView::Str(COMMAND@)).build()
}

impl Perl {
    /// Describes the step of the stand-in.
    pub fn into_drv(self) -> (drv: Drv)
        ensures
            drv@ == step(),
    {
        DrvBuilder::new().name("perl").out("bin").builder(Expr::str("/bin/sh")).arg(
            Expr::str("-c"),
        ).arg(Expr::str(COMMAND)).build()
    }
}

} // verus!

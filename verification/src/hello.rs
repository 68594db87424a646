//! A hello that is built by a script of its own, without the phases of the
//! standard environment. It shows every kind of value that a variable can
//! hold.

use crate::drv::{Drv, DrvBuilder, DrvBuilderView, DrvView, LazyDrv, ThunkView};
use crate::expr::{exprs_view, local_file, Expr, ExprView};
use crate::fetchers::fetchurl::{fetch_step, FetchUrl};
use crate::stdenv::Stdenv;
use vstd::prelude::*;

verus! {

pub const SRC_URL: &'static str = "https://fake.url.com/test2/testurl-1.0";

pub const SRC_HASH: &'static str = "sha256:abcdefghabcdefghabcdefghabcdefghabcdefghijk";

/// The program, with the interpreter that its script runs.
pub struct Hello {
    pub fetchurl: FetchUrl,
    pub stdenv: Stdenv,
    pub perl: LazyDrv,
}

/// The patches, in the order in which they are applied.
pub open spec fn patches() -> Seq<ExprView> {
    seq![ExprView::File("patches/abcd.patch"@), ExprView::File("patches/efgh.patch"@)]
}

/// The users: two names, then a list of two more.
pub open spec fn users() -> Seq<ExprView> {
    seq![
        ExprView::Str("alice"@),
        ExprView::Str("bob"@),
        ExprView::List(seq![ExprView::Str("eve"@), ExprView::Str("john \"doe\""@)]),
    ]
}

/// The step that builds the program.
pub open spec fn step(fetchurl: ThunkView, perl: ThunkView) -> DrvView {
    DrvBuilderView::empty().name("hello-0.0.1"@).builder(ExprView::File("builder.sh"@)).input(
        "perl"@,
        ExprView::Drv(perl.out("bin"@).suff("/bin/perl"@)),
    ).input(
        "src"@,
        ThunkView::Step(fetch_step(fetchurl, SRC_URL@, SRC_HASH@)).expr(),
    ).input("patches"@, ExprView::List(patches())).input("usrs"@, ExprView::List(users())).build()
}

impl Hello {
    pub open spec fn step(&self) -> DrvView {
        step(self.fetchurl@, self.perl@)
    }

    /// Describes the step that builds the program.
    pub fn into_drv(self) -> (drv: Drv)
        ensures
            drv@ == self.step(),
    {
        let files: Vec<Expr> = vec![
            local_file("patches/abcd.patch"),
            local_file("patches/efgh.patch"),
        ];
        assert(exprs_view(files@) =~= patches());
        let more: Vec<Expr> = vec![Expr::str("eve"), Expr::str("john \"doe\"")];
        assert(exprs_view(more@) =~= seq![ExprView::Str("eve"@), ExprView::Str("john \"doe\""@)]);
        let names: Vec<Expr> = vec![Expr::str("alice"), Expr::str("bob"), Expr::list(more)];
        assert(exprs_view(names@) =~= users());
        DrvBuilder::new().name("hello-0.0.1").builder(local_file("builder.sh")).input(
            "perl",
            Expr::Drv(self.perl.out("bin").suff("/bin/perl")),
        ).input(
            "src",
            Expr::drv(self.fetchurl.fetch(SRC_URL, crate::hash::Hash::new(SRC_HASH))),
        ).input("patches", Expr::list(files)).input("usrs", Expr::list(names)).build()
    }
}

} // verus!

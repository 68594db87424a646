//! The bootstrap tools built against the GNU C library.

use crate::drv::{Drv, DrvBuilder, DrvBuilderView, DrvView};
use crate::expr::{exprs_view, local_file, Expr, ExprView};
use crate::stdenv::linux::bootstrap_files::{BootstrapFiles, BootstrapFilesView};
use crate::system::System;
use vstd::prelude::*;

verus! {

pub struct BootstrapTools {
    pub system: System,
    pub bootstrap_files: BootstrapFiles,
}

/// The hardening flags that the bootstrap compiler does not know.
pub open spec fn unsupported_hardening_flags() -> Seq<ExprView> {
    seq![
        ExprView::Str("fortify3"@),
        ExprView::Str("shadowstack"@),
        ExprView::Str("pacret"@),
        ExprView::Str("stackclashprotection"@),
        ExprView::Str("trivialautovarinit"@),
        ExprView::Str("zerocallusedregs"@),
    ]
}

/// The step that unpacks the archive of tools: busybox runs the unpack
/// script on the archive.
pub open spec fn unpack_step(system: System, files: BootstrapFilesView) -> DrvView {
    DrvBuilderView::empty().name("bootstrap-tools"@).builder(files.busybox.expr()).arg(
        ExprView::Str("ash"@),
    ).arg(ExprView::Str("-e"@)).arg(ExprView::File("glibc-unpack-bootstrap-tools.sh"@)).system(
        system,
    ).input("tarball"@, files.tools.expr()).input("langC"@, ExprView::Str("1"@)).input(
        "langCC"@,
        ExprView::Str("1"@),
    ).input("isGNU"@, ExprView::Str("1"@)).input(
        "hardeningunsupportedflags"@,
        ExprView::List(unsupported_hardening_flags()),
    ).build()
}

impl BootstrapTools {
    /// Describes the step that unpacks the tools.
    pub fn into_drv(self) -> (drv: Drv)
        ensures
            drv@ == unpack_step(self.system, self.bootstrap_files@),
    {
        let flags: Vec<Expr> = vec![
            Expr::str("fortify3"),
            Expr::str("shadowstack"),
            Expr::str("pacret"),
            Expr::str("stackclashprotection"),
            Expr::str("trivialautovarinit"),
            Expr::str("zerocallusedregs"),
        ];
        assert(exprs_view(flags@) =~= unsupported_hardening_flags());
        DrvBuilder::new().name("bootstrap-tools").builder(
            Expr::drv(self.bootstrap_files.busybox),
        ).arg(Expr::str("ash")).arg(Expr::str("-e")).arg(
            local_file("glibc-unpack-bootstrap-tools.sh"),
        ).system(self.system).input("tarball", Expr::drv(self.bootstrap_files.tools)).input(
            "langC",
            Expr::str("1"),
        ).input("langCC", Expr::str("1")).input("isGNU", Expr::str("1")).input(
            "hardeningunsupportedflags",
            Expr::list(flags),
        ).build()
    }
}

} // verus!

//! The libiconv character-set conversion library.

use crate::build::fetchurl::{FetchUrl, FetchUrlView};
use crate::drv::{Drv, DrvView};
use crate::expr::{exprs_view, local_file, Expr, ExprView};
use crate::stdenv::{Stdenv, StdenvBuilderView, StdenvDrvView};
use crate::text::{only_if, only_if_of};
use vstd::prelude::*;

verus! {

pub const NAME: &'static str = "libiconv";

pub const VERSION: &'static str = "1.17";

pub const HASH: &'static str =
    "sha512:tV3EG2q4Dl4Z_KqSDqaQcMRHakko0t9aNhFfnpM-Semzv05RLy5zbhHAPqxIrV3cmNdDdahkRYtwn166fZdyHA";

/// Takes the preloadable library out of the makefile. It cannot be built
/// without shared libraries.
pub const DROP_PRELOAD: &'static str = "sed -i -e '/preload/d' Makefile.in";

/// The library. `static_lib` decides both kinds of library: left unset,
/// only the shared one is built; set, the shared one is built exactly when
/// the static one is. `shared` and `update_autotools_gnu_config_scripts`
/// are carried and not consulted.
pub struct LibIConv {
    pub stdenv: Stdenv,
    pub fetchurl: FetchUrl,
    pub update_autotools_gnu_config_scripts: Expr,
    pub static_lib: Option<bool>,
    pub shared: Option<bool>,
}

/// Where the source archive is fetched from.
pub open spec fn url() -> Seq<char> {
    "mirror://gnu/libiconv/"@ + NAME@ + "-"@ + VERSION@ + ".tar.gz"@
}

/// `enable` or `disable`.
pub open spec fn enable_of(on: bool) -> Seq<char> {
    if on {
        "enable"@
    } else {
        "disable"@
    }
}

/// The flags handed to the configure script: one for each kind of library.
pub open spec fn configure_flags(static_lib: bool, shared: bool) -> Seq<char> {
    enable_of(static_lib) + "-static "@ + enable_of(shared) + "-shared"@
}

/// The hooks that set the library up for steps that depend on it.
pub open spec fn setup_hooks() -> Seq<ExprView> {
    seq![
        ExprView::File("../../../build/setup-hooks/role.bash"@),
        ExprView::File("setup-hook.sh"@),
    ]
}

/// The step that builds the library.
#[verifier::opaque]
pub open spec fn step(
    stdenv: StdenvDrvView,
    fetchurl: FetchUrlView,
    static_lib: Option<bool>,
) -> DrvView {
    let shared = static_lib.unwrap_or(true);
    let static_lib = static_lib.unwrap_or(false);
    StdenvBuilderView::new(stdenv).name(NAME@).version(VERSION@).src(
        fetchurl.fetch(url(), HASH@).expr(),
    ).input_bool("ENABLE_PARALLEL_BUILDING"@, true).input(
        "SETUP_HOOKS"@,
        ExprView::List(setup_hooks()),
    ).post_patch(only_if_of(!shared, DROP_PRELOAD@)).configure_flags(
        configure_flags(static_lib, shared),
    ).compile()
}

fn source_url() -> (s: String)
    ensures
        s@ == url(),
{
    String::from_str("mirror://gnu/libiconv/").concat(NAME).concat("-").concat(VERSION).concat(
        ".tar.gz",
    )
}

fn enable(on: bool) -> (s: &'static str)
    ensures
        s@ == enable_of(on),
{
    if on {
        "enable"
    } else {
        "disable"
    }
}

fn configure_flags_text(static_lib: bool, shared: bool) -> (s: String)
    ensures
        s@ == configure_flags(static_lib, shared),
{
    String::from_str(enable(static_lib)).concat("-static ").concat(enable(shared)).concat("-shared")
}

impl LibIConv {
    pub open spec fn step(&self) -> DrvView {
        step(self.stdenv@, self.fetchurl@, self.static_lib)
    }

    /// Describes the step that builds the library.
    pub fn into_drv(self) -> (drv: Drv)
        ensures
            drv@ == self.step(),
    {
        proof {
            reveal(step);
        }
        let static_lib = self.static_lib.unwrap_or(false);
        let shared = self.static_lib.unwrap_or(true);
        let hooks: Vec<Expr> = vec![
            local_file("../../../build/setup-hooks/role.bash"),
            local_file("setup-hook.sh"),
        ];
        assert(exprs_view(hooks@) =~= setup_hooks());
        self.stdenv.make_derivation().name(NAME).version(VERSION).src(
            Expr::drv(self.fetchurl.fetch(source_url().as_str(), crate::hash::Hash::new(HASH))),
        ).input_bool("ENABLE_PARALLEL_BUILDING", true).input(
            "SETUP_HOOKS",
            Expr::list(hooks),
        ).post_patch(only_if(!shared, DROP_PRELOAD)).configure_flags(
            configure_flags_text(static_lib, shared).as_str(),
        ).build()
    }
}

} // verus!

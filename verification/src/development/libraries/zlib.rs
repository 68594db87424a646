//! The zlib compression library.

use crate::build::fetchurl::{FetchUrl, FetchUrlView};
use crate::drv::{Drv, DrvView};
use crate::expr::{Expr, ExprView};
use crate::stdenv::generic::builder::versioned_name;
use crate::stdenv::generic::laws::law_compiled_values;
use crate::stdenv::generic::names::lemma_codes;
use crate::stdenv::{Stdenv, StdenvBuilder, StdenvBuilderView, StdenvDrvView};
use crate::text::{only_if, only_if_of};
use crate::vars::value_of;
use vstd::prelude::*;

verus! {

pub const VERSION: &'static str = "1.3.1";

pub const HASH: &'static str =
    "sha512:vUFhtqfzz1sc1ZrLRgf5N5tgEXZmVUiOz98ArlTJJkRE3wkwnPxOaZKbZlNaFwFpJZTF0ppe5awPrKPUKpHm_g";

/// Moves the static library to the output of its own.
pub const MOVE_STATIC: &'static str = r#"moveToOutput lib/libz.a "$static""#;

/// The library. Each choice left unset takes its default: both the shared
/// and the static library are built, and the static one gets an output of
/// its own exactly when both are built.
pub struct Zlib {
    pub stdenv: Stdenv,
    pub fetchurl: FetchUrl,
    pub shared: Option<bool>,
    pub static_lib: Option<bool>,
    pub split_static_out: Option<bool>,
}

/// Where the source archive is fetched from.
pub open spec fn url() -> Seq<char> {
    "https://www.zlib.net/fossils/zlib-"@ + VERSION@ + ".tar.gz"@
}

/// The flags handed to the configure script: the one for the static
/// library, then the one for the shared library, with nothing between
/// them.
pub open spec fn configure_flags(shared: bool, static_lib: bool) -> Seq<char> {
    only_if_of(static_lib, "--static"@) + only_if_of(shared, "--shared"@)
}

/// The step that builds the library, with every choice made.
#[verifier::opaque]
pub open spec fn step_with(
    stdenv: StdenvDrvView,
    fetchurl: FetchUrlView,
    shared: bool,
    static_lib: bool,
    split_static_out: bool,
) -> DrvView {
    let outputs = StdenvBuilderView::new(stdenv).name("zlib"@).version("1.3.1"@).src(
        fetchurl.fetch(url(), HASH@).expr(),
    ).input_bool("STRICT_DEPS"@, true).out("out"@).out("dev"@);
    let outputs = if split_static_out {
        outputs.out("static"@)
    } else {
        outputs
    };
    outputs.configure_flags(configure_flags(shared, static_lib)).input_bool(
        "DONT_DISABLE_STATIC"@,
        true,
    ).input_bool("DONT_ADD_STATIC_CONFIGURE_FLAGS"@, true).input_bool(
        "SET_OUTPUT_FLAG"@,
        false,
    ).input("OUTPUT_DOC"@, ExprView::Str("dev"@)).post_install(
        only_if_of(split_static_out, MOVE_STATIC@),
    ).input_bool("ENABLE_PARALLEL_BUILDING"@, true).do_check().make_flags(
        only_if_of(shared, "SHARED_MODE=1"@),
    ).compile()
}

/// The step that builds the library.
pub open spec fn step(
    stdenv: StdenvDrvView,
    fetchurl: FetchUrlView,
    shared: Option<bool>,
    static_lib: Option<bool>,
    split_static_out: Option<bool>,
) -> DrvView {
    let shared = shared.unwrap_or(true);
    let static_lib = static_lib.unwrap_or(true);
    step_with(
        stdenv,
        fetchurl,
        shared,
        static_lib,
        split_static_out.unwrap_or(shared && static_lib),
    )
}

/// Whatever is chosen, the step is named after the library and its
/// version, it runs the test suite, and its configure flags are the flag for
/// the static library followed at once by the flag for the shared one, each
/// where that kind of library is built.
pub proof fn law_zlib_step(
    stdenv: StdenvDrvView,
    fetchurl: FetchUrlView,
    shared: bool,
    static_lib: bool,
    split_static_out: bool,
)
    ensures
        ({
            let drv = step_with(stdenv, fetchurl, shared, static_lib, split_static_out);
            &&& drv.name == versioned_name("zlib"@, Some("1.3.1"@))
            &&& value_of(drv.inputs, "CHECK"@) == Some(ExprView::Str("1"@))
            &&& value_of(drv.inputs, "CONFIGURE_FLAGS"@) == Some(
                ExprView::Str(configure_flags(shared, static_lib)),
            )
            &&& drv.outputs == if split_static_out {
                seq!["out"@, "dev"@, "static"@]
            } else {
                seq!["out"@, "dev"@]
            }
        }),
        configure_flags(true, true) == "--static"@ + "--shared"@,
        configure_flags(false, false) == Seq::<char>::empty(),
{
    reveal(step_with);
    reveal(StdenvBuilderView::compile);
    lemma_codes();
    let outputs = StdenvBuilderView::new(stdenv).name("zlib"@).version("1.3.1"@).src(
        fetchurl.fetch(url(), HASH@).expr(),
    ).input_bool("STRICT_DEPS"@, true).out("out"@).out("dev"@);
    let outputs = if split_static_out {
        outputs.out("static"@)
    } else {
        outputs
    };
    let b = outputs.configure_flags(configure_flags(shared, static_lib)).input_bool(
        "DONT_DISABLE_STATIC"@,
        true,
    ).input_bool("DONT_ADD_STATIC_CONFIGURE_FLAGS"@, true).input_bool(
        "SET_OUTPUT_FLAG"@,
        false,
    ).input("OUTPUT_DOC"@, ExprView::Str("dev"@)).post_install(
        only_if_of(split_static_out, MOVE_STATIC@),
    ).input_bool("ENABLE_PARALLEL_BUILDING"@, true).do_check().make_flags(
        only_if_of(shared, "SHARED_MODE=1"@),
    );
    law_compiled_values(b, "CHECK"@);
    law_compiled_values(b, "CONFIGURE_FLAGS"@);
    assert(b.compile().outputs =~= if split_static_out {
        seq!["out"@, "dev"@, "static"@]
    } else {
        seq!["out"@, "dev"@]
    });
    assert(configure_flags(false, false) =~= Seq::<char>::empty());
}

/// Gives the static library an output of its own.
fn static_out(builder: StdenvBuilder) -> (b: StdenvBuilder)
    ensures
        b@ == builder@.out("static"@),
{
    builder.out("static")
}

fn source_url() -> (s: String)
    ensures
        s@ == url(),
{
    String::from_str("https://www.zlib.net/fossils/zlib-").concat(VERSION).concat(".tar.gz")
}

fn configure_flags_text(shared: bool, static_lib: bool) -> (s: String)
    ensures
        s@ == configure_flags(shared, static_lib),
{
    String::from_str(only_if(static_lib, "--static")).concat(only_if(shared, "--shared"))
}

impl Zlib {
    pub open spec fn step(&self) -> DrvView {
        step(self.stdenv@, self.fetchurl@, self.shared, self.static_lib, self.split_static_out)
    }

    /// Describes the step that builds the library.
    pub fn into_drv(self) -> (drv: Drv)
        ensures
            drv@ == self.step(),
    {
        proof {
            reveal(step_with);
        }
        let shared = self.shared.unwrap_or(true);
        let static_lib = self.static_lib.unwrap_or(true);
        let split_static_out = self.split_static_out.unwrap_or(shared && static_lib);
        self.stdenv.make_derivation().name("zlib").version("1.3.1").src(
            Expr::drv(self.fetchurl.fetch(source_url().as_str(), crate::hash::Hash::new(HASH))),
        ).input_bool("STRICT_DEPS", true).out("out").out("dev").optional(
            split_static_out,
            static_out,
        ).configure_flags(configure_flags_text(shared, static_lib).as_str()).input_bool(
            "DONT_DISABLE_STATIC",
            true,
        ).input_bool("DONT_ADD_STATIC_CONFIGURE_FLAGS", true).input_bool(
            "SET_OUTPUT_FLAG",
            false,
        ).input("OUTPUT_DOC", Expr::str("dev")).post_install(
            only_if(split_static_out, MOVE_STATIC),
        ).input_bool("ENABLE_PARALLEL_BUILDING", true).do_check().make_flags(
            only_if(shared, "SHARED_MODE=1"),
        ).build()
    }
}

} // verus!

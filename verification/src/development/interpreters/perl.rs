//! The Perl interpreter.

use crate::build::fetchurl::{FetchUrl, FetchUrlView};
use crate::drv::{Drv, DrvView, LazyDrv, Missing, ThunkView};
use crate::expr::{local_file, Expr, ExprView};
use crate::stdenv::{Stdenv, StdenvBuilderView, StdenvDrvView};
use crate::text::{join, join_of};
use crate::vars::drv_opt;
use vstd::prelude::*;

verus! {

pub const VERSION: &'static str = "5.40.0";

pub const HASH: &'static str =
    "sha512:fq6a0PymjshE-2APytfavrpCdpV8y0oXomFi8Icb-eRgqyENgsaf_CcLYkYQxxqnZO_pvr5pZzSQG016MKdTEg";

pub const POST_PATCH: &'static str = r#"postPatch =
substituteInPlace dist/PathTools/Cwd.pm \
    --replace "/bin/pwd" "$(type -P pwd)"
unset src
"#;

pub const PRE_CONFIGURE: &'static str = r#"
cat > config.over <<EOF
osvers="gnulinux"
myuname="nixpkgs"
myhostname="nixpkgs"
cf_by="nixpkgs"
cf_time="$(date -d "@$SOURCE_DATE_EPOCH")"
EOF

# Compress::Raw::Zlib should use our zlib package instead of the one
# included with the distribution
cat > ./cpan/Compress-Raw-Zlib/config.in <<EOF
BUILD_ZLIB   = False
INCLUDE      = $zlibDev/include
LIB          = $zlibOut/lib
OLD_ZLIB     = False
GZIP_OS_CODE = AUTO_DETECT
USE_ZLIB_NG  = False
ZLIB_INCLUDE = $zlibDev/include
ZLIB_LIB     = $zlibOut/lib
EOF"#;

pub const POST_INSTALL: &'static str = r#"# Remove dependency between "out" and "man" outputs.
rm "$out"/lib/perl5/*/*/.packlist

# Remove dependencies on glibc and gcc
sed "/ *libpth =>/c    libpth => ' '," \
  -i "$out"/lib/perl5/*/*/Config.pm
# TODO: removing those paths would be cleaner than overwriting with nonsense.
substituteInPlace "$out"/lib/perl5/*/*/Config_heavy.pl \
  --replace "$libcInc" /no-such-path \
  --replace "$cc" else "/no-such-path" /no-such-path \
  --replace "$man" /no-such-path"#;

/// The interpreter, built against `stdenv` and linked with `zlib`.
pub struct Perl {
    pub stdenv: Stdenv,
    pub fetchurl: FetchUrl,
    pub zlib: LazyDrv,
    pub enable_threading: bool,
}

/// Where the source archive is fetched from.
pub open spec fn url() -> Seq<char> {
    "mirror://cpan/src/5.0/perl-"@ + VERSION@ + ".tar.gz"@
}

/// The flags handed to the interpreter's `Configure`: the fixed ones, then
/// the one for threads where threading is asked for.
pub open spec fn configure_flags(enable_threading: bool) -> Seq<Seq<char>> {
    let flags = seq![
        "-de"@,
        "-Dprefix=$out"@,
        "-Dman1dir=$out/share/man/man1"@,
        "-Dman3dir=$out/share/man/man3"@,
        "-Dcc=cc"@,
        "-Duseshrplib"@,
        "-Uinstallusrbinperl"@,
        "-Dinstallstyle=lib/perl5"@,
        "-Dlocincpth=$libcInc/include"@,
        "-Dloclibpth=$libcLib/lib"@,
    ];
    if enable_threading {
        flags.push("-Dusethreads"@)
    } else {
        flags
    }
}

/// The script that runs before the first phase: it sets the configure
/// flags and the configure script.
pub open spec fn pre_phase(enable_threading: bool) -> Seq<char> {
    "CONFIGURE_FLAGS="@ + join_of(configure_flags(enable_threading), " "@)
        + r#"\nCONFIGURE_SCRIPT="$shell ./Configure""#@
}

/// The step that builds the interpreter.
#[verifier::opaque]
pub open spec fn step(
    stdenv: StdenvDrvView,
    fetchurl: FetchUrlView,
    zlib: ThunkView,
    enable_threading: bool,
) -> DrvView
    recommends
        stdenv.glibc is Some,
{
    StdenvBuilderView::new(stdenv).name("perl"@).src(fetchurl.fetch(url(), HASH@).expr()).input(
        "STRICT_DEPS"@,
        ExprView::Str("1"@),
    ).out("out"@).out("man"@).out("devdoc"@).patch(
        ExprView::File("patches/CVE-2024-56406.patch"@),
    ).patch(ExprView::File("patches/CVE-2025-40909.patch"@)).patch(
        ExprView::File("patches/fix-build-with-only-C-locale-5.40.0.patch"@),
    ).patch(ExprView::File("patches/no-sys-dirs-5.40.0.patch"@)).post_patch(POST_PATCH@).input(
        "libcInc"@,
        ExprView::Drv(stdenv.glibc->0.out("dev"@)),
    ).input("libcLib"@, ExprView::Drv(stdenv.glibc->0.out("lib"@))).input(
        "zlibDev"@,
        ExprView::Drv(zlib.out("dev"@)),
    ).input("zlibOut"@, ExprView::Drv(zlib.out("out"@))).input_if("cc"@, drv_opt(stdenv.cc)).pre_phase(
        pre_phase(enable_threading),
    ).input("ENABLE_PARALLEL_BUILDING"@, ExprView::Str(""@)).pre_configure(PRE_CONFIGURE@).input(
        "SETUP_HOOK"@,
        ExprView::File("setup-hook.sh"@),
    ).post_install(POST_INSTALL@).compile()
}

fn source_url() -> (s: String)
    ensures
        s@ == url(),
{
    String::from_str("mirror://cpan/src/5.0/perl-").concat(VERSION).concat(".tar.gz")
}

fn pre_phase_script(enable_threading: bool) -> (s: String)
    ensures
        s@ == pre_phase(enable_threading),
{
    let mut flags: Vec<&str> = vec![
        "-de",
        "-Dprefix=$out",
        "-Dman1dir=$out/share/man/man1",
        "-Dman3dir=$out/share/man/man3",
        "-Dcc=cc",
        "-Duseshrplib",
        "-Uinstallusrbinperl",
        "-Dinstallstyle=lib/perl5",
        "-Dlocincpth=$libcInc/include",
        "-Dloclibpth=$libcLib/lib",
    ];
    if enable_threading {
        flags.push("-Dusethreads");
    }
    assert(crate::text::strs_view(flags@) =~= configure_flags(enable_threading));
    String::from_str("CONFIGURE_FLAGS=").concat(join(&flags, " ").as_str()).concat(
        r#"\nCONFIGURE_SCRIPT="$shell ./Configure""#,
    )
}

/// What a handle to the interpreter stands for: the step that builds it,
/// or no step where the environment brings no C library.
pub open spec fn thunk(
    stdenv: StdenvDrvView,
    fetchurl: FetchUrlView,
    zlib: ThunkView,
    enable_threading: bool,
) -> ThunkView {
    if stdenv.glibc is Some {
        ThunkView::Step(step(stdenv, fetchurl, zlib, enable_threading))
    } else {
        ThunkView::Unbuildable(Missing::Libc)
    }
}

impl Perl {
    pub open spec fn step(&self) -> DrvView {
        step(self.stdenv@, self.fetchurl@, self.zlib@, self.enable_threading)
    }

    pub open spec fn thunk(&self) -> ThunkView {
        thunk(self.stdenv@, self.fetchurl@, self.zlib@, self.enable_threading)
    }

    /// Wraps the recipe in a handle. Every recipe gets a handle. Forcing
    /// the handle yields what `into_drv` yields; the C library is owed only
    /// then, and the handle of a recipe whose environment brings none
    /// stands for no step.
    pub fn lazy(self) -> (h: LazyDrv)
        ensures
            h@ == self.thunk(),
    {
        if self.stdenv.glibc.is_some() {
            LazyDrv::new(self.into_drv())
        } else {
            LazyDrv::unbuildable(Missing::Libc)
        }
    }

    /// Describes the step that builds the interpreter. The environment
    /// must bring a C library: the interpreter is configured against its
    /// headers and libraries.
    pub fn into_drv(self) -> (drv: Drv)
        requires
            self.stdenv@.glibc is Some,
        ensures
            drv@ == self.step(),
    {
        proof {
            reveal(step);
        }
        let pre_phase = pre_phase_script(self.enable_threading);
        let url = source_url();
        let glibc = self.stdenv.glibc.clone().unwrap();
        self.stdenv.make_derivation().name("perl").src(
            Expr::drv(self.fetchurl.fetch(url.as_str(), crate::hash::Hash::new(HASH))),
        ).input("STRICT_DEPS", Expr::str("1")).out("out").out("man").out("devdoc").patch(
            local_file("patches/CVE-2024-56406.patch"),
        ).patch(local_file("patches/CVE-2025-40909.patch")).patch(
            local_file("patches/fix-build-with-only-C-locale-5.40.0.patch"),
        ).patch(local_file("patches/no-sys-dirs-5.40.0.patch")).post_patch(POST_PATCH).input(
            "libcInc",
            Expr::Drv(glibc.out("dev")),
        ).input("libcLib", Expr::Drv(glibc.out("lib"))).input(
            "zlibDev",
            Expr::Drv(self.zlib.out("dev")),
        ).input("zlibOut", Expr::Drv(self.zlib.out("out"))).input_if(
            "cc",
            Expr::opt_drv(self.stdenv.cc.clone()),
        ).pre_phase(pre_phase.as_str()).input("ENABLE_PARALLEL_BUILDING", Expr::str("")).pre_configure(
            PRE_CONFIGURE,
        ).input("SETUP_HOOK", local_file("setup-hook.sh")).post_install(POST_INSTALL).build()
    }
}

} // verus!

//! The bootstrap of the standard environment on Linux.
//!
//! The bootstrap starts from an archive of pre-built tools and goes through
//! a fixed line of stages, each built with the environment of the stage
//! before it, until the finished environment is reached.

pub mod bootstrap_files;
pub mod bootstrap_tools;

use crate::build::fetchurl::{FetchUrl, FetchUrlView};
use crate::development::interpreters::perl;
use crate::drv::{Drv, DrvBuilder, DrvBuilderView, DrvView, LazyDrv, ThunkView};
use crate::expr::{exprs_view, Expr, ExprView};
use crate::stdenv::generic::{StdenvDrv, StdenvDrvView};
use crate::stdenv::{Stdenv, StdenvBuilderView};
use crate::system::System;
use bootstrap_files::{i686_unknown_linux, x86_64_unknown_linux, BootstrapFiles, BootstrapFilesView};
use bootstrap_tools::BootstrapTools;
use vstd::prelude::*;

verus! {

/// The hook that every stage runs first.
pub const COMMON_PRE_HOOK: &'static str = r#"echo "common pre hook""#;

/// What the first stage's hook says before the common hook. Shebang
/// patching stays off: it would tie the finished environment to the
/// bootstrap tools.
pub const STAGE0_PRE_HOOK_HEAD: &'static str = r##"
                    # Don't patch #!/interpreter because it leads to retained
                    # dependencies on the bootstrapTools in the final stdenv.
                    DONT_PATCH_SHEBANGS=1
                    "##;

/// What the first stage's hook says after the common hook.
pub const STAGE0_PRE_HOOK_TAIL: &'static str = r##"
                    "##;

/// The command that wires the C library of the bootstrap tools into place.
/// It links; it compiles nothing.
pub const STAGE0_GLIBC_COMMAND: &'static str = r#"mkdir -p $out
ln -s ${bootstrap_tools}/lib $out/lib
ln -s ${bootstrap_tools}/include-glibc $out/include
# TODO: remove
mkdir "$dev"
mkdir "$lib""#;

/// The command of the step that does nothing.
pub const NOOP_COMMAND: &'static str = r#"echo "no-op""#;

/// One stage of the bootstrap. Every stage but the last carries the
/// platform, the choice of C library and the bootstrap tools; from the
/// second on, also the environment that the stage before it made.
pub enum StdenvStage {
    Stage0 { local_system: System, glibc: bool, bootstrap_tools: LazyDrv },
    Stage1 { local_system: System, glibc: bool, bootstrap_tools: LazyDrv, prev_stage: StdenvDrv },
    Stage2 { local_system: System, glibc: bool, bootstrap_tools: LazyDrv, prev_stage: StdenvDrv },
    Stage3 { local_system: System, glibc: bool, bootstrap_tools: LazyDrv, prev_stage: StdenvDrv },
    Stdenv { stdenv: StdenvDrv },
}

/// `StdenvStage` as a mathematical value: every string a sequence of characters,
/// every list a sequence.
pub enum StdenvStageView {
    Stage0 { local_system: System, glibc: bool, bootstrap_tools: ThunkView },
    Stage1 {
        local_system: System,
        glibc: bool,
        bootstrap_tools: ThunkView,
        prev_stage: StdenvDrvView,
    },
    Stage2 {
        local_system: System,
        glibc: bool,
        bootstrap_tools: ThunkView,
        prev_stage: StdenvDrvView,
    },
    Stage3 {
        local_system: System,
        glibc: bool,
        bootstrap_tools: ThunkView,
        prev_stage: StdenvDrvView,
    },
    Stdenv { stdenv: StdenvDrvView },
}

impl View for StdenvStage {
    type V = StdenvStageView;

    open spec fn view(&self) -> StdenvStageView {
        match self {
            StdenvStage::Stage0 { local_system, glibc, bootstrap_tools } => StdenvStageView::Stage0 {
                local_system: *local_system,
                glibc: *glibc,
                bootstrap_tools: bootstrap_tools@,
            },
            StdenvStage::Stage1 {
                local_system,
                glibc,
                bootstrap_tools,
                prev_stage,
            } => StdenvStageView::Stage1 {
                local_system: *local_system,
                glibc: *glibc,
                bootstrap_tools: bootstrap_tools@,
                prev_stage: prev_stage@,
            },
            StdenvStage::Stage2 {
                local_system,
                glibc,
                bootstrap_tools,
                prev_stage,
            } => StdenvStageView::Stage2 {
                local_system: *local_system,
                glibc: *glibc,
                bootstrap_tools: bootstrap_tools@,
                prev_stage: prev_stage@,
            },
            StdenvStage::Stage3 {
                local_system,
                glibc,
                bootstrap_tools,
                prev_stage,
            } => StdenvStageView::Stage3 {
                local_system: *local_system,
                glibc: *glibc,
                bootstrap_tools: bootstrap_tools@,
                prev_stage: prev_stage@,
            },
            StdenvStage::Stdenv { stdenv } => StdenvStageView::Stdenv { stdenv: stdenv@ },
        }
    }
}

/// The hook of the first stage.
pub open spec fn stage0_pre_hook() -> Seq<char> {
    STAGE0_PRE_HOOK_HEAD@ + COMMON_PRE_HOOK@ + STAGE0_PRE_HOOK_TAIL@
}

/// The first environment before its toolchain is filled in: the bootstrap
/// tools are its search path, and their shell is its shell.
pub open spec fn stage0_base(local_system: System, bootstrap_tools: ThunkView) -> StdenvDrvView {
    StdenvDrvView {
        name: "bootstrap-stage0-stdenv-linux"@,
        pre_hook: Some(stage0_pre_hook()),
        initial_path: ExprView::List(seq![bootstrap_tools.expr()]),
        cc: None,
        shell: ExprView::Drv(bootstrap_tools.suff("/bin/bash"@)),
        setup_script: None,
        build_platform: local_system,
        host_platform: local_system,
        target_platform: local_system,
        deps_build_host: Seq::empty(),
        deps_host_target: Seq::empty(),
        glibc: None,
        binutils: None,
        coreutils: None,
        gnugrep: None,
        perl: None,
    }
}

/// The step that stands for the C library in the first stage. It is built
/// against the first environment as it is before its toolchain is filled
/// in.
pub open spec fn stage0_glibc(local_system: System, bootstrap_tools: ThunkView) -> DrvView {
    StdenvBuilderView::new(stage0_base(local_system, bootstrap_tools)).name(
        "bootstrap-stage0-glibc"@,
    ).version("bootstrap-files"@).out("out"@).out("dev"@).out("lib"@).input(
        "bootstrap_tools"@,
        bootstrap_tools.expr(),
    ).build_command(ExprView::Str(STAGE0_GLIBC_COMMAND@)).compile()
}

/// The first environment: the bootstrap tools alone serve as binutils,
/// coreutils and grep.
pub open spec fn stage0(local_system: System, bootstrap_tools: ThunkView) -> StdenvDrvView {
    StdenvDrvView {
        glibc: Some(ThunkView::Step(stage0_glibc(local_system, bootstrap_tools))),
        binutils: Some(bootstrap_tools),
        coreutils: Some(bootstrap_tools),
        gnugrep: Some(bootstrap_tools),
        ..stage0_base(local_system, bootstrap_tools)
    }
}

/// The environment of the second stage: that of the first, with a handle
/// to an interpreter built in it. The interpreter has no threads, and a
/// step that does nothing stands in for its compression library. The
/// handle is not forced here, so every environment has a second stage.
pub open spec fn stage1(prev_stage: StdenvDrvView) -> StdenvDrvView {
    StdenvDrvView {
        name: "bootstrap-stage1-stdenv-linux"@,
        perl: Some(
            perl::thunk(prev_stage, FetchUrlView::Builtins, ThunkView::Step(Noop::step()), false),
        ),
        ..prev_stage
    }
}

/// The environment of the third stage: that of the second under the name
/// of the compiler bootstrap.
pub open spec fn stage2(prev_stage: StdenvDrvView) -> StdenvDrvView {
    StdenvDrvView { name: "bootstrap-stage-xgcc-stdenv-linux"@, ..prev_stage }
}

impl StdenvStageView {
    /// Whether the stage can be advanced. Only the first stage without
    /// the GNU C library cannot: no other C library is supported.
    pub open spec fn supported(self) -> bool {
        self matches StdenvStageView::Stage0 { glibc, .. } ==> glibc
    }

    /// The stage that follows. The first stage leads to the finished
    /// environment at once; the finished environment follows itself.
    #[verifier::opaque]
    pub open spec fn advance(self) -> StdenvStageView {
        match self {
            StdenvStageView::Stage0 {
                local_system,
                glibc,
                bootstrap_tools,
            } => StdenvStageView::Stdenv { stdenv: stage0(local_system, bootstrap_tools) },
            StdenvStageView::Stage1 {
                local_system,
                glibc,
                bootstrap_tools,
                prev_stage,
            } => StdenvStageView::Stage2 {
                local_system,
                glibc,
                bootstrap_tools,
                prev_stage: stage1(prev_stage),
            },
            StdenvStageView::Stage2 {
                local_system,
                glibc,
                bootstrap_tools,
                prev_stage,
            } => StdenvStageView::Stage3 {
                local_system,
                glibc,
                bootstrap_tools,
                prev_stage: stage2(prev_stage),
            },
            StdenvStageView::Stage3 { prev_stage, .. } => StdenvStageView::Stdenv {
                stdenv: prev_stage,
            },
            StdenvStageView::Stdenv { stdenv } => self,
        }
    }

    /// How many stages lie between this one and the finished environment,
    /// at most.
    pub open spec fn rank(self) -> nat {
        match self {
            StdenvStageView::Stage0 { .. } => 4,
            StdenvStageView::Stage1 { .. } => 3,
            StdenvStageView::Stage2 { .. } => 2,
            StdenvStageView::Stage3 { .. } => 1,
            StdenvStageView::Stdenv { .. } => 0,
        }
    }

    /// The stage reached by advancing `n` times.
    pub open spec fn advance_n(self, n: nat) -> StdenvStageView
        decreases n,
    {
        if n == 0 {
            self
        } else {
            self.advance().advance_n((n - 1) as nat)
        }
    }

    /// The environment that the line of stages ends in, from this stage on.
    pub open spec fn finish(self) -> StdenvDrvView
        decreases self.rank(),
        via Self::finish_decreases
    {
        match self {
            StdenvStageView::Stdenv { stdenv } => stdenv,
            _ => self.advance().finish(),
        }
    }

    #[via_fn]
    proof fn finish_decreases(self) {
        reveal(StdenvStageView::advance);
    }
}

/// The bootstrap files of a platform, where the bootstrap supports it.
pub open spec fn bootstrap_files_of(local_system: System) -> Option<BootstrapFilesView> {
    match local_system {
        System::x86_64_linux => Some(
            BootstrapFilesView {
                tools: ThunkView::FetchUrl(x86_64_unknown_linux::BootstrapTools::fetch()),
                busybox: ThunkView::FetchUrl(x86_64_unknown_linux::Busybox::fetch()),
            },
        ),
        System::i686_linux => Some(
            BootstrapFilesView {
                tools: ThunkView::FetchUrl(i686_unknown_linux::BootstrapTools::fetch()),
                busybox: ThunkView::FetchUrl(i686_unknown_linux::Busybox::fetch()),
            },
        ),
        _ => None,
    }
}

/// The bootstrap files of a platform, or `None` where the bootstrap does
/// not support it.
pub fn bootstrap_files(local_system: System) -> (files: Option<BootstrapFiles>)
    ensures
        match files {
            Some(f) => bootstrap_files_of(local_system) == Some(f@),
            None => bootstrap_files_of(local_system) is None,
        },
{
    match local_system {
        System::x86_64_linux => Some(
            BootstrapFiles {
                tools: LazyDrv::builtin(x86_64_unknown_linux::BootstrapTools.into_fetch()),
                busybox: LazyDrv::builtin(x86_64_unknown_linux::Busybox.into_fetch()),
            },
        ),
        System::i686_linux => Some(
            BootstrapFiles {
                tools: LazyDrv::builtin(i686_unknown_linux::BootstrapTools.into_fetch()),
                busybox: LazyDrv::builtin(i686_unknown_linux::Busybox.into_fetch()),
            },
        ),
        _ => None,
    }
}

/// Whether the bootstrap can be run: the platform must have bootstrap
/// files, and the GNU C library must be chosen.
pub open spec fn can_bootstrap(local_system: System, glibc: bool) -> bool {
    glibc && bootstrap_files_of(local_system) is Some
}

/// Tells whether `build_stdenv` supports the platform and the choice of C
/// library.
pub fn supports(local_system: System, glibc: bool) -> (r: bool)
    ensures
        r == can_bootstrap(local_system, glibc),
{
    glibc && match local_system {
        System::x86_64_linux => true,
        System::i686_linux => true,
        _ => false,
    }
}

/// The finished environment of a platform.
pub open spec fn bootstrapped(local_system: System) -> StdenvDrvView
    recommends
        bootstrap_files_of(local_system) is Some,
{
    stage0(
        local_system,
        ThunkView::Step(
            bootstrap_tools::glibc::unpack_step(local_system, bootstrap_files_of(local_system)->0),
        ),
    )
}

/// Bootstraps the standard environment of `local_system`: starts from the
/// platform's bootstrap tools and advances stage by stage until the
/// finished environment is reached.
pub fn build_stdenv(local_system: System, glibc: bool) -> (stdenv: StdenvDrv)
    requires
        can_bootstrap(local_system, glibc),
    ensures
        stdenv@ == bootstrapped(local_system),
        stdenv@.binutils is Some,
        stdenv@.coreutils is Some,
        stdenv@.gnugrep is Some,
{
    let bootstrap_files = bootstrap_files(local_system).unwrap();
    let bootstrap_tools = LazyDrv::new(
        BootstrapTools { system: local_system, bootstrap_files, glibc }.into_drv(),
    );
    proof {
        lemma_finish_from_stage0(local_system, glibc, bootstrap_tools@);
    }
    finish(StdenvStage::Stage0 { local_system, glibc, bootstrap_tools })
}

/// Tells whether `stage` holds the finished environment.
pub fn is_finished(stage: &StdenvStage) -> (r: bool)
    ensures
        r == (stage@ is Stdenv),
{
    match stage {
        StdenvStage::Stdenv { .. } => true,
        _ => false,
    }
}

/// Advances `stage` until the finished environment is reached. The line of
/// stages has no way back, so this takes four steps at most.
pub fn finish(stage: StdenvStage) -> (stdenv: StdenvDrv)
    requires
        stage@.supported(),
    ensures
        stdenv@ == stage@.finish(),
{
    let ghost first = stage@;
    let mut stage = stage;
    while !is_finished(&stage)
        invariant
            stage@.supported(),
            stage@.finish() == first.finish(),
        decreases stage@.rank(),
    {
        proof {
            lemma_advance(stage@);
        }
        stage = stager(stage);
    }
    match stage {
        StdenvStage::Stdenv { stdenv } => stdenv,
        _ => vstd::pervasive::unreached(),
    }
}

/// Advancing a stage that is not the last brings the finished environment
/// nearer, and leads to a stage that can be advanced in turn.
pub proof fn lemma_advance(stage: StdenvStageView)
    requires
        stage.supported(),
    ensures
        stage.advance().supported(),
        stage.advance().finish() == stage.finish(),
        !(stage is Stdenv) ==> stage.advance().rank() < stage.rank(),
{
    reveal(StdenvStageView::advance);
}

/// What follows each stage, stage by stage. Every stage has exactly one
/// successor. A stage that is not the last hands its platform, its choice
/// of C library and its bootstrap tools on unchanged, and the finished
/// environment follows itself.
pub proof fn law_advance_is_total(stage: StdenvStageView)
    ensures
        stage.advance() == match stage {
            StdenvStageView::Stage0 {
                local_system,
                bootstrap_tools,
                ..
            } => StdenvStageView::Stdenv { stdenv: stage0(local_system, bootstrap_tools) },
            StdenvStageView::Stage1 {
                local_system,
                glibc,
                bootstrap_tools,
                prev_stage,
            } => StdenvStageView::Stage2 {
                local_system,
                glibc,
                bootstrap_tools,
                prev_stage: stage1(prev_stage),
            },
            StdenvStageView::Stage2 {
                local_system,
                glibc,
                bootstrap_tools,
                prev_stage,
            } => StdenvStageView::Stage3 {
                local_system,
                glibc,
                bootstrap_tools,
                prev_stage: stage2(prev_stage),
            },
            StdenvStageView::Stage3 { prev_stage, .. } => StdenvStageView::Stdenv {
                stdenv: prev_stage,
            },
            StdenvStageView::Stdenv { .. } => stage,
        },
        !(stage is Stdenv) ==> stage.advance().rank() < stage.rank(),
        stage is Stdenv ==> stage.advance().rank() == 0,
{
    reveal(StdenvStageView::advance);
}

/// The line of stages ends. From any stage that can be advanced, as many
/// steps as its rank, four at most, lead to the finished environment; and
/// the finished environment follows itself, so that further steps change
/// nothing.
pub proof fn law_bootstrap_terminates(stage: StdenvStageView)
    requires
        stage.supported(),
    ensures
        stage.rank() <= 4,
        stage.advance_n(stage.rank()) == (StdenvStageView::Stdenv { stdenv: stage.finish() }),
        stage.advance_n(4) == (StdenvStageView::Stdenv { stdenv: stage.finish() }),
        stage is Stdenv ==> stage.advance() == stage,
    decreases stage.rank(),
{
    reveal(StdenvStageView::advance);
    lemma_advance(stage);
    if !(stage is Stdenv) {
        law_bootstrap_terminates(stage.advance());
        lemma_finished_stays(stage.advance().advance_n(stage.advance().rank()), (3 - stage.advance().rank()) as nat);
        lemma_advance_n_sum(stage.advance(), stage.advance().rank(), (3 - stage.advance().rank()) as nat);
    } else {
        lemma_finished_stays(stage, 4);
    }
}

/// Steps from the finished environment lead nowhere else.
pub proof fn lemma_finished_stays(stage: StdenvStageView, n: nat)
    requires
        stage is Stdenv,
    ensures
        stage.advance_n(n) == stage,
    decreases n,
{
    reveal(StdenvStageView::advance);
    if n > 0 {
        lemma_finished_stays(stage, (n - 1) as nat);
    }
}

/// Advancing `n` times and then `m` times is advancing `n + m` times.
pub proof fn lemma_advance_n_sum(stage: StdenvStageView, n: nat, m: nat)
    ensures
        stage.advance_n(n).advance_n(m) == stage.advance_n(n + m),
    decreases n,
{
    if n > 0 {
        lemma_advance_n_sum(stage.advance(), (n - 1) as nat, m);
    }
}

/// The environment that the bootstrap ends in has its toolchain: a C
/// library, binutils, coreutils and grep, the last three all served by the
/// bootstrap tools.
pub proof fn law_bootstrap_fills_toolchain(local_system: System, bootstrap_tools: ThunkView)
    ensures
        ({
            let stdenv = (StdenvStageView::Stage0 {
                local_system,
                glibc: true,
                bootstrap_tools,
            }).finish();
            &&& stdenv.glibc is Some
            &&& stdenv.binutils == Some(bootstrap_tools)
            &&& stdenv.coreutils == Some(bootstrap_tools)
            &&& stdenv.gnugrep == Some(bootstrap_tools)
            &&& stdenv.build_platform == local_system
            &&& stdenv.host_platform == local_system
            &&& stdenv.target_platform == local_system
        }),
{
    lemma_finish_from_stage0(local_system, true, bootstrap_tools);
}

/// The later stages build on the environment of the stage before them and
/// take nothing away from it: the platform stays what it was on all three
/// sides, and so do the shell, the search path and the tools that the
/// environment had. The second stage adds a handle to the interpreter,
/// which stands for a step exactly where the environment brings a C
/// library; the third changes the name alone.
pub proof fn law_stages_keep_what_they_get(prev_stage: StdenvDrvView)
    ensures
        stage1(prev_stage) == (StdenvDrvView {
            name: stage1(prev_stage).name,
            perl: stage1(prev_stage).perl,
            ..prev_stage
        }),
        stage1(prev_stage).perl is Some,
        stage1(prev_stage).perl->0 is Step <==> prev_stage.glibc is Some,
        stage2(prev_stage) == (StdenvDrvView { name: stage2(prev_stage).name, ..prev_stage }),
        stage1(prev_stage).build_platform == prev_stage.build_platform,
        stage1(prev_stage).host_platform == prev_stage.host_platform,
        stage1(prev_stage).target_platform == prev_stage.target_platform,
        stage2(prev_stage).build_platform == prev_stage.build_platform,
        stage2(prev_stage).host_platform == prev_stage.host_platform,
        stage2(prev_stage).target_platform == prev_stage.target_platform,
{
}

/// From the first stage the line ends in the first environment.
pub proof fn lemma_finish_from_stage0(local_system: System, glibc: bool, bootstrap_tools: ThunkView)
    ensures
        (StdenvStageView::Stage0 { local_system, glibc, bootstrap_tools }).finish() == stage0(
            local_system,
            bootstrap_tools,
        ),
{
    reveal(StdenvStageView::advance);
    let first = StdenvStageView::Stage0 { local_system, glibc, bootstrap_tools };
    assert(first.advance().finish() == stage0(local_system, bootstrap_tools));
}

/// A step that does nothing. It stands in where a dependency is asked for
/// and none is needed.
pub struct Noop;

impl Noop {
    pub open spec fn step() -> DrvView {
        DrvBuilderView::empty().name("no-op"@).builder(ExprView::Str(NOOP_COMMAND@)).build()
    }

    pub fn into_drv(self) -> (drv: Drv)
        ensures
            drv@ == Self::step(),
    {
        DrvBuilder::new().name("no-op").builder(Expr::str(NOOP_COMMAND)).build()
    }
}

/// The first environment before its toolchain is filled in.
fn stage0_stdenv(local_system: System, bootstrap_tools: &LazyDrv) -> (stdenv: StdenvDrv)
    ensures
        stdenv@ == stage0_base(local_system, bootstrap_tools@),
{
    let initial_path: Vec<Expr> = vec![Expr::drv(bootstrap_tools.clone())];
    assert(exprs_view(initial_path@) =~= seq![bootstrap_tools@.expr()]);
    let deps_build_host: Vec<Expr> = Vec::new();
    let deps_host_target: Vec<Expr> = Vec::new();
    assert(exprs_view(deps_build_host@) =~= Seq::empty());
    assert(exprs_view(deps_host_target@) =~= Seq::empty());
    StdenvDrv {
        name: "bootstrap-stage0-stdenv-linux",
        initial_path: Expr::list(initial_path),
        pre_hook: Some(
            String::from_str(STAGE0_PRE_HOOK_HEAD).concat(COMMON_PRE_HOOK).concat(
                STAGE0_PRE_HOOK_TAIL,
            ),
        ),
        cc: None,
        shell: Expr::Drv(bootstrap_tools.suff("/bin/bash")),
        setup_script: None,
        build_platform: local_system,
        host_platform: local_system,
        target_platform: local_system,
        deps_build_host,
        deps_host_target,
        glibc: None,
        binutils: None,
        coreutils: None,
        gnugrep: None,
        perl: None,
    }
}

/// The step that stands for the C library in the first stage.
fn stage0_glibc_step(stdenv: &StdenvDrv, local_system: System, bootstrap_tools: &LazyDrv) -> (h: LazyDrv)
    requires
        stdenv@ == stage0_base(local_system, bootstrap_tools@),
    ensures
        h@ == ThunkView::Step(stage0_glibc(local_system, bootstrap_tools@)),
{
    stdenv.make_derivation().name("bootstrap-stage0-glibc").version("bootstrap-files").out(
        "out",
    ).out("dev").out("lib").input("bootstrap_tools", Expr::drv(bootstrap_tools.clone())).build_command(
        Expr::str(STAGE0_GLIBC_COMMAND),
    ).lazy()
}

/// The first environment.
fn first_stdenv(local_system: System, bootstrap_tools: LazyDrv) -> (stdenv: StdenvDrv)
    ensures
        stdenv@ == stage0(local_system, bootstrap_tools@),
{
    let mut stdenv = stage0_stdenv(local_system, &bootstrap_tools);
    stdenv.glibc = Some(stage0_glibc_step(&stdenv, local_system, &bootstrap_tools));
    stdenv.binutils = Some(bootstrap_tools.clone());
    stdenv.coreutils = Some(bootstrap_tools.clone());
    stdenv.gnugrep = Some(bootstrap_tools);
    stdenv
}

/// The environment of the second stage.
fn second_stdenv(prev_stage: StdenvDrv) -> (stdenv: StdenvDrv)
    ensures
        stdenv@ == stage1(prev_stage@),
{
    StdenvDrv {
        name: "bootstrap-stage1-stdenv-linux",
        perl: Some(
            perl::Perl {
                stdenv: Stdenv::new(prev_stage.clone()),
                fetchurl: FetchUrl::Builtins,
                zlib: LazyDrv::new(Noop.into_drv()),
                enable_threading: false,
            }.lazy(),
        ),
        ..prev_stage
    }
}

/// The environment of the third stage.
fn third_stdenv(prev_stage: StdenvDrv) -> (stdenv: StdenvDrv)
    ensures
        stdenv@ == stage2(prev_stage@),
{
    StdenvDrv { name: "bootstrap-stage-xgcc-stdenv-linux", ..prev_stage }
}

/// Advances the bootstrap by one stage. Every stage has a successor but
/// the first stage without the GNU C library: no other C library is
/// supported. The interpreter that the second stage adds is held by a
/// handle and not forced, so the second stage takes every environment.
pub fn stager(stage: StdenvStage) -> (next: StdenvStage)
    requires
        stage@.supported(),
    ensures
        next@ == stage@.advance(),
{
    proof {
        reveal(StdenvStageView::advance);
    }
    match stage {
        StdenvStage::Stage0 { bootstrap_tools, local_system, glibc } => StdenvStage::Stdenv {
            stdenv: first_stdenv(local_system, bootstrap_tools),
        },
        StdenvStage::Stage1 {
            bootstrap_tools,
            local_system,
            glibc,
            prev_stage,
        } => StdenvStage::Stage2 {
            local_system,
            glibc,
            bootstrap_tools,
            prev_stage: second_stdenv(prev_stage),
        },
        StdenvStage::Stage2 {
            local_system,
            glibc,
            bootstrap_tools,
            prev_stage,
        } => StdenvStage::Stage3 {
            local_system,
            glibc,
            bootstrap_tools,
            prev_stage: third_stdenv(prev_stage),
        },
        StdenvStage::Stage3 { prev_stage, .. } => StdenvStage::Stdenv { stdenv: prev_stage },
        StdenvStage::Stdenv { stdenv } => StdenvStage::Stdenv { stdenv },
    }
}

} // verus!

//! The builder of package steps.

use crate::drv::{
    lemma_inputs_twice, opt_expr_view, Drv, DrvBuilder, DrvBuilderView, DrvView, LazyDrv, Missing,
    ThunkView,
};
use crate::expr::{local_file, Binding, Expr, ExprView};
use crate::stdenv::generic::deps::{Deps, DepsView};
use crate::stdenv::generic::phases::build_phase::{BuildPhase, BuildPhaseView};
use crate::stdenv::generic::phases::check::{CheckPhase, CheckPhaseView};
use crate::stdenv::generic::phases::configure::{ConfigurePhase, ConfigurePhaseView};
use crate::stdenv::generic::phases::fix::{FixPhase, FixPhaseView};
use crate::stdenv::generic::phases::install::{InstallPhase, InstallPhaseView};
use crate::stdenv::generic::phases::install_check::{InstallCheckPhase, InstallCheckPhaseView};
use crate::stdenv::generic::phases::patch::{PatchPhase, PatchPhaseView};
use crate::stdenv::generic::phases::unpack::{UnpackPhase, UnpackPhaseView};
use crate::stdenv::generic::{StdenvDrv, StdenvDrvView};
use crate::system::System;
use crate::vars::{opt_var, str_opt, str_var};
use vstd::prelude::*;

verus! {

/// Accumulates what a recipe says of one package step: its name and
/// version, its source, its dependencies by role, and the settings of the
/// eight phases. `build` compiles the whole into one step.
#[derive(Debug, PartialEq, Eq)]
pub struct StdenvBuilder {
    pub stdenv: StdenvDrv,
    pub drv_builder: DrvBuilder,
    pub name: Option<String>,
    pub version: Option<String>,
    pub builder: Option<Expr>,
    pub src: Option<Expr>,
    pub build_command: Option<Expr>,
    pub deps: Deps,
    pub propagated: Deps,
    pub pre_phase: Option<String>,
    pub unpack: UnpackPhase,
    pub patch: PatchPhase,
    pub configure: ConfigurePhase,
    pub build: BuildPhase,
    pub check: CheckPhase,
    pub install: InstallPhase,
    pub fix: FixPhase,
    pub install_check: InstallCheckPhase,
    pub post_phase: Option<String>,
}

/// `StdenvBuilder` as a mathematical value: every string a sequence of characters,
/// every list a sequence.
pub struct StdenvBuilderView {
    pub stdenv: StdenvDrvView,
    pub drv_builder: DrvBuilderView,
    pub name: Option<Seq<char>>,
    pub version: Option<Seq<char>>,
    pub builder: Option<ExprView>,
    pub src: Option<ExprView>,
    pub build_command: Option<ExprView>,
    pub deps: DepsView,
    pub propagated: DepsView,
    pub pre_phase: Option<Seq<char>>,
    pub unpack: UnpackPhaseView,
    pub patch: PatchPhaseView,
    pub configure: ConfigurePhaseView,
    pub build: BuildPhaseView,
    pub check: CheckPhaseView,
    pub install: InstallPhaseView,
    pub fix: FixPhaseView,
    pub install_check: InstallCheckPhaseView,
    pub post_phase: Option<Seq<char>>,
}

/// The display name of a step: `name-version` where it has a version, and
/// `name` alone where it has none.
pub open spec fn versioned_name(name: Seq<char>, version: Option<Seq<char>>) -> Seq<char> {
    match version {
        Some(v) => name + seq!['-'] + v,
        None => name,
    }
}

/// The variables of a builder's own fields: the environment as the input
/// `stdenv`, then the source, the build command and the two outer hooks,
/// each where it is set.
pub open spec fn own_vars(
    stdenv: StdenvDrvView,
    src: Option<ExprView>,
    build_command: Option<ExprView>,
    pre_phase: Option<Seq<char>>,
    post_phase: Option<Seq<char>>,
) -> Seq<Binding> {
    seq![("stdenv"@, ThunkView::Step(stdenv.compile()).expr())]
        + opt_var("SRC"@, src)
        + opt_var("BUILD_COMMAND"@, build_command)
        + str_var("PRE_PHASE"@, pre_phase)
        + str_var("POST_PHASE"@, post_phase)
}

/// Binds the variables of a builder's own fields after those that `b`
/// holds.
fn bind_own(
    stdenv: StdenvDrv,
    src: Option<Expr>,
    build_command: Option<Expr>,
    pre_phase: Option<String>,
    post_phase: Option<String>,
    b: DrvBuilder,
) -> (r: DrvBuilder)
    ensures
        r@ == b@.inputs(
            own_vars(
                stdenv@,
                opt_expr_view(src),
                opt_expr_view(build_command),
                pre_phase.deep_view(),
                post_phase.deep_view(),
            ),
        ),
{
    let ghost start = b@;
    let b = b.input("stdenv", Expr::drv(LazyDrv::new(stdenv.into_drv())));
    let ghost vars = seq![("stdenv"@, ThunkView::Step(stdenv@.compile()).expr())];
    let b = b.input_if("SRC", src);
    proof {
        lemma_inputs_twice(start, vars, opt_var("SRC"@, opt_expr_view(src)));
        vars = vars + opt_var("SRC"@, opt_expr_view(src));
    }
    let b = b.input_if("BUILD_COMMAND", build_command);
    proof {
        lemma_inputs_twice(start, vars, opt_var("BUILD_COMMAND"@, opt_expr_view(build_command)));
        vars = vars + opt_var("BUILD_COMMAND"@, opt_expr_view(build_command));
    }
    let b = b.input_if("PRE_PHASE", Expr::opt_string(pre_phase));
    proof {
        lemma_inputs_twice(start, vars, str_var("PRE_PHASE"@, pre_phase.deep_view()));
        vars = vars + str_var("PRE_PHASE"@, pre_phase.deep_view());
    }
    let b = b.input_if("POST_PHASE", Expr::opt_string(post_phase));
    proof {
        lemma_inputs_twice(start, vars, str_var("POST_PHASE"@, post_phase.deep_view()));
    }
    b
}

/// Binds the variables of both matrices, the plain one first, after those
/// that `b` holds.
fn bind_deps(deps: Deps, propagated: Deps, b: DrvBuilder) -> (r: DrvBuilder)
    ensures
        r@ == b@.inputs(deps@.vars(false) + propagated@.vars(true)),
{
    let ghost start = b@;
    let b = deps.build(b, false);
    let b = propagated.build(b, true);
    proof {
        lemma_inputs_twice(start, deps@.vars(false), propagated@.vars(true));
    }
    b
}

/// Joins a name and an optional version into the display name.
fn display_name(name: String, version: Option<String>) -> (r: String)
    ensures
        r@ == versioned_name(name@, version.deep_view()),
{
    match version {
        Some(version) => {
            proof {
                reveal_strlit("-");
            }
            assert("-"@ =~= seq!['-']);
            name.concat("-").concat(version.as_str())
        },
        None => name,
    }
}

/// Binds the variables of the eight phases, in their fixed order, after
/// those that `b` holds.
fn bind_phases(
    unpack: UnpackPhase,
    patch: PatchPhase,
    configure: ConfigurePhase,
    build: BuildPhase,
    check: CheckPhase,
    install: InstallPhase,
    fix: FixPhase,
    install_check: InstallCheckPhase,
    b: DrvBuilder,
) -> (r: DrvBuilder)
    ensures
        r@ == b@.inputs(
            unpack@.vars() + patch@.vars() + configure@.vars() + build@.vars() + check@.vars()
                + install@.vars() + fix@.vars() + install_check@.vars(),
        ),
{
    let ghost start = b@;
    let b = unpack.build(b);
    let ghost vars = unpack@.vars();
    let b = patch.build(b);
    proof {
        lemma_inputs_twice(start, vars, patch@.vars());
        vars = vars + patch@.vars();
    }
    let b = configure.build(b);
    proof {
        lemma_inputs_twice(start, vars, configure@.vars());
        vars = vars + configure@.vars();
    }
    let b = build.build(b);
    proof {
        lemma_inputs_twice(start, vars, build@.vars());
        vars = vars + build@.vars();
    }
    let b = check.build(b);
    proof {
        lemma_inputs_twice(start, vars, check@.vars());
        vars = vars + check@.vars();
    }
    let b = install.build(b);
    proof {
        lemma_inputs_twice(start, vars, install@.vars());
        vars = vars + install@.vars();
    }
    let b = fix.build(b);
    proof {
        lemma_inputs_twice(start, vars, fix@.vars());
        vars = vars + fix@.vars();
    }
    let b = install_check.build(b);
    proof {
        lemma_inputs_twice(start, vars, install_check@.vars());
    }
    b
}

impl StdenvBuilderView {
    /// A builder against `stdenv` with nothing else set.
    pub open spec fn new(stdenv: StdenvDrvView) -> StdenvBuilderView {
        StdenvBuilderView {
            stdenv,
            drv_builder: DrvBuilderView::empty(),
            name: None,
            version: None,
            builder: None,
            src: None,
            build_command: None,
            deps: DepsView::new(),
            propagated: DepsView::new(),
            pre_phase: None,
            unpack: UnpackPhaseView::new(),
            patch: PatchPhaseView::new(),
            configure: ConfigurePhaseView::new(),
            build: BuildPhaseView::new(),
            check: CheckPhaseView::new(),
            install: InstallPhaseView::new(),
            fix: FixPhaseView::new(),
            install_check: InstallCheckPhaseView::new(),
            post_phase: None,
        }
    }

    pub open spec fn name(self, name: Seq<char>) -> StdenvBuilderView {
        StdenvBuilderView { name: Some(name), ..self }
    }

    pub open spec fn version(self, version: Seq<char>) -> StdenvBuilderView {
        StdenvBuilderView { version: Some(version), ..self }
    }

    pub open spec fn out(self, out: Seq<char>) -> StdenvBuilderView {
        StdenvBuilderView { drv_builder: self.drv_builder.out(out), ..self }
    }

    pub open spec fn fixed_hash(self, hash: Seq<char>) -> StdenvBuilderView {
        StdenvBuilderView { drv_builder: self.drv_builder.fixed_hash(hash), ..self }
    }

    pub open spec fn system(self, system: System) -> StdenvBuilderView {
        StdenvBuilderView { drv_builder: self.drv_builder.system(system), ..self }
    }

    pub open spec fn input(self, key: Seq<char>, value: ExprView) -> StdenvBuilderView {
        StdenvBuilderView { drv_builder: self.drv_builder.input(key, value), ..self }
    }

    pub open spec fn input_if(self, key: Seq<char>, value: Option<ExprView>) -> StdenvBuilderView {
        StdenvBuilderView { drv_builder: self.drv_builder.input_if(key, value), ..self }
    }

    pub open spec fn input_bool(self, key: Seq<char>, v: bool) -> StdenvBuilderView {
        StdenvBuilderView { drv_builder: self.drv_builder.input_bool(key, v), ..self }
    }

    pub open spec fn builder(self, builder: ExprView) -> StdenvBuilderView {
        StdenvBuilderView { builder: Some(builder), ..self }
    }

    pub open spec fn arg(self, arg: ExprView) -> StdenvBuilderView {
        StdenvBuilderView { drv_builder: self.drv_builder.arg(arg), ..self }
    }

    pub open spec fn src(self, src: ExprView) -> StdenvBuilderView {
        StdenvBuilderView { src: Some(src), ..self }
    }

    pub open spec fn build_command(self, build_command: ExprView) -> StdenvBuilderView {
        StdenvBuilderView { build_command: Some(build_command), ..self }
    }

    pub open spec fn pre_phase(self, pre_phase: Seq<char>) -> StdenvBuilderView {
        StdenvBuilderView { pre_phase: Some(pre_phase), ..self }
    }

    pub open spec fn post_phase(self, post_phase: Seq<char>) -> StdenvBuilderView {
        StdenvBuilderView { post_phase: Some(post_phase), ..self }
    }

    /// The script that drives the phases: the one given, or the default one.
    pub open spec fn builder_script(self) -> ExprView {
        match self.builder {
            Some(b) => b,
            None => ExprView::File("scripts/default-builder.sh"@),
        }
    }

    /// The variables that the builder's own fields contribute: the
    /// environment, then the source, the build command and the two outer
    /// hooks, each where it is set.
    pub open spec fn own_vars(self) -> Seq<Binding> {
        own_vars(self.stdenv, self.src, self.build_command, self.pre_phase, self.post_phase)
    }

    /// The variables of both dependency matrices: the plain one, then the
    /// propagated one.
    pub open spec fn dep_vars(self) -> Seq<Binding> {
        self.deps.vars(false) + self.propagated.vars(true)
    }

    /// The variables of the eight phases, in the order in which the phases
    /// are compiled.
    pub open spec fn phase_vars(self) -> Seq<Binding> {
        self.unpack.vars()
            + self.patch.vars()
            + self.configure.vars()
            + self.build.vars()
            + self.check.vars()
            + self.install.vars()
            + self.fix.vars()
            + self.install_check.vars()
    }

    /// Every variable that compiling adds to those bound through `input`:
    /// the builder's own, then the dependencies, then the phases.
    pub open spec fn emitted(self) -> Seq<Binding> {
        self.own_vars() + self.dep_vars() + self.phase_vars()
    }

    /// Whether `name` is one of the variables that the builder's own
    /// fields are bound under.
    pub open spec fn owns(name: Seq<char>) -> bool {
        name == "stdenv"@ || name == "SRC"@ || name == "BUILD_COMMAND"@ || name == "PRE_PHASE"@
            || name == "POST_PHASE"@
    }

    /// What the builder's own fields bind the variable `name` to: the
    /// environment, and each other field where it is set.
    pub open spec fn own_value(self, name: Seq<char>) -> Option<ExprView> {
        if name == "stdenv"@ {
            Some(ThunkView::Step(self.stdenv.compile()).expr())
        } else if name == "SRC"@ {
            self.src
        } else if name == "BUILD_COMMAND"@ {
            self.build_command
        } else if name == "PRE_PHASE"@ {
            str_opt(self.pre_phase)
        } else if name == "POST_PHASE"@ {
            str_opt(self.post_phase)
        } else {
            None
        }
    }

    /// What compiling binds the variable `name` to, by the part of the
    /// builder that the variable belongs to. It is `None` where the field
    /// behind the variable is not set, where the phase of the variable is
    /// switched off, and for every name that is no variable of the builder.
    pub open spec fn value(self, name: Seq<char>) -> Option<ExprView> {
        if Self::owns(name) {
            self.own_value(name)
        } else if DepsView::owns(name, false) {
            self.deps.value(name, false)
        } else if DepsView::owns(name, true) {
            self.propagated.value(name, true)
        } else if UnpackPhaseView::owns(name) {
            self.unpack.value(name)
        } else if PatchPhaseView::owns(name) {
            self.patch.value(name)
        } else if ConfigurePhaseView::owns(name) {
            self.configure.value(name)
        } else if BuildPhaseView::owns(name) {
            self.build.value(name)
        } else if CheckPhaseView::owns(name) {
            self.check.value(name)
        } else if InstallPhaseView::owns(name) {
            self.install.value(name)
        } else if FixPhaseView::owns(name) {
            self.fix.value(name)
        } else if InstallCheckPhaseView::owns(name) {
            self.install_check.value(name)
        } else {
            None
        }
    }

    /// What a handle to the builder stands for: the step that it compiles
    /// to, or no step where it has no name.
    pub open spec fn thunk(self) -> ThunkView {
        if self.name is Some {
            ThunkView::Step(self.compile())
        } else {
            ThunkView::Unbuildable(Missing::Name)
        }
    }

    /// The step that the builder compiles to.
    #[verifier::opaque]
    pub open spec fn compile(self) -> DrvView
        recommends
            self.name is Some,
    {
        DrvView {
            name: versioned_name(self.name->0, self.version),
            builder: self.stdenv.shell,
            args: self.drv_builder.args + seq![
                ExprView::Str("-e"@),
                ExprView::File("scripts/source-stdenv.sh"@),
                self.builder_script(),
            ],
            outputs: self.drv_builder.outputs,
            inputs: self.drv_builder.inputs + self.emitted(),
            fixed_hash: self.drv_builder.fixed_hash,
            system: self.drv_builder.system,
        }
    }
}

impl StdenvBuilder {
    #[verifier::opaque]
    pub open spec fn view(&self) -> StdenvBuilderView {
        StdenvBuilderView {
            stdenv: self.stdenv@,
            drv_builder: self.drv_builder@,
            name: self.name.deep_view(),
            version: self.version.deep_view(),
            builder: opt_expr_view(self.builder),
            src: opt_expr_view(self.src),
            build_command: opt_expr_view(self.build_command),
            deps: self.deps@,
            propagated: self.propagated@,
            pre_phase: self.pre_phase.deep_view(),
            unpack: self.unpack@,
            patch: self.patch@,
            configure: self.configure@,
            build: self.build@,
            check: self.check@,
            install: self.install@,
            fix: self.fix@,
            install_check: self.install_check@,
            post_phase: self.post_phase.deep_view(),
        }
    }

    /// Opens a builder against `stdenv`. Every phase has its default
    /// setting and nothing else is set.
    pub fn new(stdenv: StdenvDrv) -> (b: StdenvBuilder)
        ensures
            b@ == StdenvBuilderView::new(stdenv@),
    {
        proof {
            reveal(StdenvBuilder::view);
        }
        StdenvBuilder {
            stdenv,
            drv_builder: DrvBuilder::new(),
            name: None,
            version: None,
            builder: None,
            src: None,
            build_command: None,
            deps: Deps::new(),
            propagated: Deps::new(),
            pre_phase: None,
            unpack: UnpackPhase::new(),
            patch: PatchPhase::new(),
            configure: ConfigurePhase::new(),
            build: BuildPhase::new(),
            check: CheckPhase::new(),
            install: InstallPhase::new(),
            fix: FixPhase::new(),
            install_check: InstallCheckPhase::new(),
            post_phase: None,
        }
    }

    /// Names the step. Every step needs a name before it is built.
    pub fn name(self, name: &str) -> (b: StdenvBuilder)
        ensures
            b@ == self@.name(name@),
    {
        proof {
            reveal(StdenvBuilder::view);
        }
        let mut b = self;
        b.name = Some(String::from_str(name));
        b
    }

    /// Sets the version, which becomes part of the step's display name.
    pub fn version(self, version: &str) -> (b: StdenvBuilder)
        ensures
            b@ == self@.version(version@),
    {
        proof {
            reveal(StdenvBuilder::view);
        }
        let mut b = self;
        b.version = Some(String::from_str(version));
        b
    }

    /// Declares one more named output.
    pub fn out(self, out: &str) -> (b: StdenvBuilder)
        ensures
            b@ == self@.out(out@),
    {
        proof {
            reveal(StdenvBuilder::view);
        }
        let mut b = self;
        b.drv_builder = b.drv_builder.out(out);
        b
    }

    /// Marks the step as fixed-output, verified against `hash`.
    pub fn fixed_hash(self, hash: crate::hash::Hash) -> (b: StdenvBuilder)
        ensures
            b@ == self@.fixed_hash(hash@),
    {
        proof {
            reveal(StdenvBuilder::view);
        }
        let mut b = self;
        b.drv_builder = b.drv_builder.fixed_hash(hash);
        b
    }

    /// Sets the platform that the step is built on.
    pub fn system(self, system: System) -> (b: StdenvBuilder)
        ensures
            b@ == self@.system(system),
    {
        proof {
            reveal(StdenvBuilder::view);
        }
        let mut b = self;
        b.drv_builder = b.drv_builder.system(system);
        b
    }

    /// Binds the variable `key` to `value`.
    pub fn input(self, key: &str, value: Expr) -> (b: StdenvBuilder)
        ensures
            b@ == self@.input(key@, value@),
    {
        proof {
            reveal(StdenvBuilder::view);
        }
        let mut b = self;
        b.drv_builder = b.drv_builder.input(key, value);
        b
    }

    /// Binds the variable `key` where `value` is set; an unset value binds
    /// nothing, not even an empty string.
    pub fn input_if(self, key: &str, value: Option<Expr>) -> (b: StdenvBuilder)
        ensures
            b@ == self@.input_if(key@, opt_expr_view(value)),
    {
        proof {
            reveal(StdenvBuilder::view);
        }
        let mut b = self;
        b.drv_builder = b.drv_builder.input_if(key, value);
        b
    }

    /// Binds the variable `key` to `"1"` where `v` holds, and binds nothing
    /// where it does not.
    pub fn input_bool(self, key: &str, v: bool) -> (b: StdenvBuilder)
        ensures
            b@ == self@.input_bool(key@, v),
    {
        proof {
            reveal(StdenvBuilder::view);
        }
        let mut b = self;
        b.drv_builder = b.drv_builder.input_bool(key, v);
        b
    }

    /// Applies `f` where `v` holds, and hands the builder back unchanged
    /// where it does not.
    pub fn optional<F>(self, v: bool, f: F) -> (b: StdenvBuilder) where
        F: Fn(StdenvBuilder) -> StdenvBuilder,

        requires
            v ==> f.requires((self,)),
        ensures
            v ==> f.ensures((self,), b),
            !v ==> b == self,
    {
        if v {
            f(self)
        } else {
            self
        }
    }

    /// Replaces the default script that drives the phases.
    pub fn builder(self, builder: Expr) -> (b: StdenvBuilder)
        ensures
            b@ == self@.builder(builder@),
    {
        proof {
            reveal(StdenvBuilder::view);
        }
        let mut b = self;
        b.builder = Some(builder);
        b
    }

    /// Appends one argument for the shell that runs the step. Such
    /// arguments come before those that name the builder script.
    pub fn arg(self, arg: Expr) -> (b: StdenvBuilder)
        ensures
            b@ == self@.arg(arg@),
    {
        proof {
            reveal(StdenvBuilder::view);
        }
        let mut b = self;
        b.drv_builder = b.drv_builder.arg(arg);
        b
    }

    /// Sets the source of the step.
    pub fn src(self, src: Expr) -> (b: StdenvBuilder)
        ensures
            b@ == self@.src(src@),
    {
        proof {
            reveal(StdenvBuilder::view);
        }
        let mut b = self;
        b.src = Some(src);
        b
    }

    /// Sets the command that stands in for the build phase's own.
    pub fn build_command(self, build_command: Expr) -> (b: StdenvBuilder)
        ensures
            b@ == self@.build_command(build_command@),
    {
        proof {
            reveal(StdenvBuilder::view);
        }
        let mut b = self;
        b.build_command = Some(build_command);
        b
    }

    /// Sets the script that runs before the first phase.
    pub fn pre_phase(self, pre_phase: &str) -> (b: StdenvBuilder)
        ensures
            b@ == self@.pre_phase(pre_phase@),
    {
        proof {
            reveal(StdenvBuilder::view);
        }
        let mut b = self;
        b.pre_phase = Some(String::from_str(pre_phase));
        b
    }

    /// Sets the script that runs after the last phase.
    pub fn post_phase(self, post_phase: &str) -> (b: StdenvBuilder)
        ensures
            b@ == self@.post_phase(post_phase@),
    {
        proof {
            reveal(StdenvBuilder::view);
        }
        let mut b = self;
        b.post_phase = Some(String::from_str(post_phase));
        b
    }

    /// Compiles the builder into one step: the display name, the builder
    /// script, the environment as the input `stdenv`, then the variables of
    /// both dependency matrices and of the eight phases in their fixed order.
    /// A builder without a name cannot be built.
    pub fn build(self) -> (drv: Drv)
        requires
            self@.name is Some,
        ensures
            drv@ == self@.compile(),
            drv@.name == versioned_name(self@.name->0, self@.version),
            drv@.inputs == self@.drv_builder.inputs + self@.emitted(),
            drv@.outputs == self@.drv_builder.outputs,
            drv@.fixed_hash == self@.drv_builder.fixed_hash,
            drv@.system == self@.drv_builder.system,
    {
        proof {
            reveal(StdenvBuilderView::compile);
            reveal(StdenvBuilder::view);
        }
        let ghost v = self@;
        let versioned_name = display_name(self.name.unwrap(), self.version);
        let script = match self.builder {
            Some(b) => b,
            None => local_file("scripts/default-builder.sh"),
        };
        let shell = self.stdenv.shell.clone();
        let b = self.drv_builder.name(versioned_name.as_str()).builder(shell).arg(
            Expr::str("-e"),
        ).arg(local_file("scripts/source-stdenv.sh")).arg(script);
        assert(b@.args =~= v.compile().args);
        let ghost start = b@;
        let b = bind_own(
            self.stdenv,
            self.src,
            self.build_command,
            self.pre_phase,
            self.post_phase,
            b,
        );
        let b = bind_deps(self.deps, self.propagated, b);
        proof {
            lemma_inputs_twice(start, v.own_vars(), v.dep_vars());
        }
        let b = bind_phases(
            self.unpack,
            self.patch,
            self.configure,
            self.build,
            self.check,
            self.install,
            self.fix,
            self.install_check,
            b,
        );
        proof {
            lemma_inputs_twice(start, v.own_vars() + v.dep_vars(), v.phase_vars());
        }
        b.build()
    }

    /// Wraps the builder in a handle, so that other steps can depend on
    /// what it builds. Every builder gets a handle. Forcing the handle
    /// yields what `build` yields; the name is owed only then, and the
    /// handle of a builder without one stands for no step.
    pub fn lazy(self) -> (h: LazyDrv)
        ensures
            h@ == self@.thunk(),
    {
        proof {
            reveal(StdenvBuilder::view);
        }
        if self.name.is_some() {
            LazyDrv::new(self.build())
        } else {
            LazyDrv::unbuildable(Missing::Name)
        }
    }
}

} // verus!

//! The record of a standard environment.

pub mod builder;
pub mod deps;
pub mod laws;
pub mod names;
pub mod phases;

use crate::drv::{lemma_inputs_twice, opt_drv_view, Drv, DrvBuilder, DrvView, LazyDrv, ThunkView};
use crate::expr::{clone_exprs, exprs_view, local_file, Binding, Expr, ExprView};
use crate::system::System;
use crate::vars::{drv_opt, opt_var, str_var};
use vstd::prelude::*;

pub use builder::{StdenvBuilder, StdenvBuilderView};
pub use deps::{Deps, DepsView, Slot};

verus! {

/// The base build environment that every package step depends on: its shell,
/// its initial search path, and the tools of its toolchain.
#[derive(Debug, PartialEq, Eq)]
pub struct StdenvDrv {
    pub name: &'static str,
    pub pre_hook: Option<String>,
    pub initial_path: Expr,
    pub cc: Option<LazyDrv>,
    pub shell: Expr,
    pub setup_script: Option<String>,
    pub build_platform: System,
    pub host_platform: System,
    pub target_platform: System,
    pub deps_build_host: Vec<Expr>,
    pub deps_host_target: Vec<Expr>,
    pub glibc: Option<LazyDrv>,
    pub binutils: Option<LazyDrv>,
    pub coreutils: Option<LazyDrv>,
    pub gnugrep: Option<LazyDrv>,
    pub perl: Option<LazyDrv>,
}

/// `StdenvDrv` as a mathematical value: every string a sequence of characters,
/// every list a sequence.
pub struct StdenvDrvView {
    pub name: Seq<char>,
    pub pre_hook: Option<Seq<char>>,
    pub initial_path: ExprView,
    pub cc: Option<ThunkView>,
    pub shell: ExprView,
    pub setup_script: Option<Seq<char>>,
    pub build_platform: System,
    pub host_platform: System,
    pub target_platform: System,
    pub deps_build_host: Seq<ExprView>,
    pub deps_host_target: Seq<ExprView>,
    pub glibc: Option<ThunkView>,
    pub binutils: Option<ThunkView>,
    pub coreutils: Option<ThunkView>,
    pub gnugrep: Option<ThunkView>,
    pub perl: Option<ThunkView>,
}

impl StdenvDrvView {
    /// The script that sets the environment up: the one given, or the one
    /// that ships with the environment.
    pub open spec fn setup(self) -> ExprView {
        match self.setup_script {
            Some(s) => ExprView::Str(s),
            None => ExprView::File("scripts/setup.sh"@),
        }
    }

    /// The default build-to-host dependencies: those listed, then the
    /// compiler where there is one.
    pub open spec fn default_build_host(self) -> Seq<ExprView> {
        match self.cc {
            Some(cc) => self.deps_build_host.push(cc.expr()),
            None => self.deps_build_host,
        }
    }

    /// The variables of the environment's own step, in their fixed order.
    pub open spec fn vars(self) -> Seq<Binding> {
        str_var("PRE_HOOK"@, self.pre_hook)
            + seq![("INITIAL_PATH"@, self.initial_path)]
            + seq![("SETUP"@, self.setup())]
            + opt_var("cc"@, drv_opt(self.cc))
            + seq![("DEFAULT_BUILD_HOST"@, ExprView::List(self.default_build_host()))]
            + seq![("DEFAULT_HOST_TARGET"@, ExprView::List(self.deps_host_target))]
            + seq![("BUILD_PLATFORM"@, ExprView::Str(self.build_platform.name()))]
            + seq![("HOST_PLATFORM"@, ExprView::Str(self.host_platform.name()))]
            + seq![("TARGET_PLATFORM"@, ExprView::Str(self.target_platform.name()))]
            + opt_var("glibc"@, drv_opt(self.glibc))
            + opt_var("binutils"@, drv_opt(self.binutils))
            + opt_var("coreutils"@, drv_opt(self.coreutils))
            + opt_var("gnugrep"@, drv_opt(self.gnugrep))
            + opt_var("perl"@, drv_opt(self.perl))
    }

    /// The environment as a step of its own: its shell runs the builder
    /// script that ships with the environment.
    pub open spec fn compile(self) -> DrvView {
        DrvView {
            name: self.name,
            builder: self.shell,
            args: seq![ExprView::Str("-c"@), ExprView::File("scripts/builder.sh"@)],
            outputs: Seq::empty(),
            inputs: self.vars(),
            fixed_hash: None,
            system: None,
        }
    }
}

impl StdenvDrv {
    pub open spec fn view(&self) -> StdenvDrvView {
        StdenvDrvView {
            name: self.name@,
            pre_hook: self.pre_hook.deep_view(),
            initial_path: self.initial_path@,
            cc: opt_drv_view(self.cc),
            shell: self.shell@,
            setup_script: self.setup_script.deep_view(),
            build_platform: self.build_platform,
            host_platform: self.host_platform,
            target_platform: self.target_platform,
            deps_build_host: exprs_view(self.deps_build_host@),
            deps_host_target: exprs_view(self.deps_host_target@),
            glibc: opt_drv_view(self.glibc),
            binutils: opt_drv_view(self.binutils),
            coreutils: opt_drv_view(self.coreutils),
            gnugrep: opt_drv_view(self.gnugrep),
            perl: opt_drv_view(self.perl),
        }
    }

    /// Renders the environment as a step of its own.
    pub fn into_drv(self) -> (drv: Drv)
        ensures
            drv@ == self@.compile(),
    {
        let setup = match self.setup_script {
            Some(s) => Expr::Str(s),
            None => local_file("scripts/setup.sh"),
        };
        let mut deps_build_host = self.deps_build_host;
        match &self.cc {
            Some(cc) => {
                deps_build_host.push(Expr::drv(cc.clone()));
            },
            None => {},
        }
        assert(exprs_view(deps_build_host@) =~= self@.default_build_host());
        let b = DrvBuilder::new().name(self.name).builder(self.shell).arg(Expr::str("-c")).arg(
            local_file("scripts/builder.sh"),
        );
        assert(b@.args =~= self@.compile().args);
        let ghost start = b@;
        let b = b.input_if("PRE_HOOK", Expr::opt_string(self.pre_hook));
        let ghost vars = str_var("PRE_HOOK"@, self@.pre_hook);
        let b = b.input("INITIAL_PATH", self.initial_path);
        proof {
            lemma_inputs_twice(start, vars, seq![("INITIAL_PATH"@, self@.initial_path)]);
            vars = vars + seq![("INITIAL_PATH"@, self@.initial_path)];
        }
        let b = b.input("SETUP", setup);
        proof {
            lemma_inputs_twice(start, vars, seq![("SETUP"@, self@.setup())]);
            vars = vars + seq![("SETUP"@, self@.setup())];
        }
        let b = b.input_if("cc", Expr::opt_drv(self.cc));
        proof {
            lemma_inputs_twice(start, vars, opt_var("cc"@, drv_opt(self@.cc)));
            vars = vars + opt_var("cc"@, drv_opt(self@.cc));
        }
        let b = b.input("DEFAULT_BUILD_HOST", Expr::list(deps_build_host));
        proof {
            let next = seq![("DEFAULT_BUILD_HOST"@, ExprView::List(self@.default_build_host()))];
            lemma_inputs_twice(start, vars, next);
            vars = vars + next;
        }
        let b = b.input("DEFAULT_HOST_TARGET", Expr::list(self.deps_host_target));
        proof {
            let next = seq![("DEFAULT_HOST_TARGET"@, ExprView::List(self@.deps_host_target))];
            lemma_inputs_twice(start, vars, next);
            vars = vars + next;
        }
        let b = b.input("BUILD_PLATFORM", Expr::Str(self.build_platform.to_string()));
        proof {
            let next = seq![("BUILD_PLATFORM"@, ExprView::Str(self@.build_platform.name()))];
            lemma_inputs_twice(start, vars, next);
            vars = vars + next;
        }
        let b = b.input("HOST_PLATFORM", Expr::Str(self.host_platform.to_string()));
        proof {
            let next = seq![("HOST_PLATFORM"@, ExprView::Str(self@.host_platform.name()))];
            lemma_inputs_twice(start, vars, next);
            vars = vars + next;
        }
        let b = b.input("TARGET_PLATFORM", Expr::Str(self.target_platform.to_string()));
        proof {
            let next = seq![("TARGET_PLATFORM"@, ExprView::Str(self@.target_platform.name()))];
            lemma_inputs_twice(start, vars, next);
            vars = vars + next;
        }
        let b = b.input_if("glibc", Expr::opt_drv(self.glibc));
        proof {
            lemma_inputs_twice(start, vars, opt_var("glibc"@, drv_opt(self@.glibc)));
            vars = vars + opt_var("glibc"@, drv_opt(self@.glibc));
        }
        let b = b.input_if("binutils", Expr::opt_drv(self.binutils));
        proof {
            lemma_inputs_twice(start, vars, opt_var("binutils"@, drv_opt(self@.binutils)));
            vars = vars + opt_var("binutils"@, drv_opt(self@.binutils));
        }
        let b = b.input_if("coreutils", Expr::opt_drv(self.coreutils));
        proof {
            lemma_inputs_twice(start, vars, opt_var("coreutils"@, drv_opt(self@.coreutils)));
            vars = vars + opt_var("coreutils"@, drv_opt(self@.coreutils));
        }
        let b = b.input_if("gnugrep", Expr::opt_drv(self.gnugrep));
        proof {
            lemma_inputs_twice(start, vars, opt_var("gnugrep"@, drv_opt(self@.gnugrep)));
            vars = vars + opt_var("gnugrep"@, drv_opt(self@.gnugrep));
        }
        let b = b.input_if("perl", Expr::opt_drv(self.perl));
        proof {
            lemma_inputs_twice(start, vars, opt_var("perl"@, drv_opt(self@.perl)));
            vars = vars + opt_var("perl"@, drv_opt(self@.perl));
            assert(start.inputs + vars =~= vars);
        }
        b.build()
    }

    /// Opens a builder of a package step against this environment.
    pub fn make_derivation(&self) -> (b: StdenvBuilder)
        ensures
            b@ == crate::stdenv::StdenvBuilderView::new(self@),
    {
        StdenvBuilder::new(self.clone())
    }
}

impl Clone for StdenvDrv {
    fn clone(&self) -> (r: StdenvDrv)
        ensures
            r@ == self@,
    {
        StdenvDrv {
            name: self.name,
            pre_hook: self.pre_hook.clone(),
            initial_path: self.initial_path.clone(),
            cc: self.cc.clone(),
            shell: self.shell.clone(),
            setup_script: self.setup_script.clone(),
            build_platform: self.build_platform,
            host_platform: self.host_platform,
            target_platform: self.target_platform,
            deps_build_host: clone_exprs(&self.deps_build_host),
            deps_host_target: clone_exprs(&self.deps_host_target),
            glibc: self.glibc.clone(),
            binutils: self.binutils.clone(),
            coreutils: self.coreutils.clone(),
            gnugrep: self.gnugrep.clone(),
            perl: self.perl.clone(),
        }
    }
}

} // verus!

//! The build phase: compiles the package.

use crate::drv::DrvBuilder;
use crate::expr::{Binding, Expr, ExprView};
use crate::stdenv::generic::builder::{StdenvBuilder, StdenvBuilderView};
use crate::stdenv::generic::names::lemma_codes;
use crate::vars::{
    binds, lemma_value_of_binds, lemma_value_of_one, lemma_value_of_opt, opt_var, str_opt, str_var,
    value_of,
};
use vstd::prelude::*;

verus! {

/// The build phase: compiles the package.
#[derive(Debug, PartialEq, Eq)]
pub struct BuildPhase {
    pub build: bool,
    pub makefile: Option<String>,
    pub make_flags: Option<String>,
    pub build_flags: Option<String>,
    pub pre_build: Option<String>,
    pub build_phase: Option<String>,
    pub post_build: Option<String>,
}

/// `BuildPhase` as a mathematical value: every string a sequence of characters,
/// every list a sequence.
pub struct BuildPhaseView {
    pub build: bool,
    pub makefile: Option<Seq<char>>,
    pub make_flags: Option<Seq<char>>,
    pub build_flags: Option<Seq<char>>,
    pub pre_build: Option<Seq<char>>,
    pub build_phase: Option<Seq<char>>,
    pub post_build: Option<Seq<char>>,
}

impl BuildPhaseView {
    /// The phase as a fresh builder holds it: switched on, nothing else set.
    pub open spec fn new() -> BuildPhaseView {
        BuildPhaseView {
            build: true,
            makefile: None,
            make_flags: None,
            build_flags: None,
            pre_build: None,
            build_phase: None,
            post_build: None,
        }
    }

    /// The variables of the phase in their fixed order: the switch, then
    /// each field that is set. A phase that is switched off has none.
    pub open spec fn vars(self) -> Seq<Binding> {
        if self.build {
            seq![("BUILD"@, ExprView::Str("1"@))]
                + str_var("MAKEFILE"@, self.makefile)
                + str_var("MAKE_FLAGS"@, self.make_flags)
                + str_var("PRE_BUILD"@, self.pre_build)
                + str_var("BUILD_PHASE"@, self.build_phase)
                + str_var("POST_BUILD"@, self.post_build)
        } else {
            Seq::empty()
        }
    }

    /// Whether `name` is one of the variables of the phase.
    pub open spec fn owns(name: Seq<char>) -> bool {
        name == "BUILD"@
            || name == "MAKEFILE"@
            || name == "MAKE_FLAGS"@
            || name == "PRE_BUILD"@
            || name == "BUILD_PHASE"@
            || name == "POST_BUILD"@
    }

    /// What the phase binds the variable `name` to. That is nothing where
    /// the phase is switched off, where the field behind the variable is
    /// not set, and where the variable is none of the phase's.
    pub open spec fn value(self, name: Seq<char>) -> Option<ExprView> {
        if !self.build {
            None
        } else if name == "BUILD"@ {
            Some(ExprView::Str("1"@))
        } else if name == "MAKEFILE"@ {
            str_opt(self.makefile)
        } else if name == "MAKE_FLAGS"@ {
            str_opt(self.make_flags)
        } else if name == "PRE_BUILD"@ {
            str_opt(self.pre_build)
        } else if name == "BUILD_PHASE"@ {
            str_opt(self.build_phase)
        } else if name == "POST_BUILD"@ {
            str_opt(self.post_build)
        } else {
            None
        }
    }
}

/// The variables of the phase say what `value` says, of every name: a
/// variable of the phase has the value of its field, and no other name
/// is bound.
pub proof fn lemma_build_vars(p: BuildPhaseView, name: Seq<char>)
    ensures
        value_of(p.vars(), name) == p.value(name),
        p.value(name) is Some ==> BuildPhaseView::owns(name),
{
    lemma_codes();
    if p.build {
        let vars = seq![("BUILD"@, ExprView::Str("1"@))];
        lemma_value_of_one("BUILD"@, ExprView::Str("1"@), name);
        lemma_value_of_opt(vars, "MAKEFILE"@, str_opt(p.makefile), name);
        let vars = vars + opt_var("MAKEFILE"@, str_opt(p.makefile));
        lemma_value_of_opt(vars, "MAKE_FLAGS"@, str_opt(p.make_flags), name);
        let vars = vars + opt_var("MAKE_FLAGS"@, str_opt(p.make_flags));
        lemma_value_of_opt(vars, "PRE_BUILD"@, str_opt(p.pre_build), name);
        let vars = vars + opt_var("PRE_BUILD"@, str_opt(p.pre_build));
        lemma_value_of_opt(vars, "BUILD_PHASE"@, str_opt(p.build_phase), name);
        let vars = vars + opt_var("BUILD_PHASE"@, str_opt(p.build_phase));
        lemma_value_of_opt(vars, "POST_BUILD"@, str_opt(p.post_build), name);
    } else {
        assert(value_of(Seq::<Binding>::empty(), name) is None);
    }
}

/// A field of the phase that is not set leaves its variable out: the
/// variable is not bound, not to an empty value either. A phase that is
/// switched off binds no variable at all.
pub proof fn law_build_unset_is_absent(p: BuildPhaseView)
    ensures
        p.makefile is None ==> !binds(p.vars(), "MAKEFILE"@),
        p.make_flags is None ==> !binds(p.vars(), "MAKE_FLAGS"@),
        p.pre_build is None ==> !binds(p.vars(), "PRE_BUILD"@),
        p.build_phase is None ==> !binds(p.vars(), "BUILD_PHASE"@),
        p.post_build is None ==> !binds(p.vars(), "POST_BUILD"@),
        !p.build ==> forall|name: Seq<char>| !binds(p.vars(), name),
{
    lemma_codes();
    lemma_build_vars(p, "MAKEFILE"@);
    lemma_value_of_binds(p.vars(), "MAKEFILE"@);
    lemma_build_vars(p, "MAKE_FLAGS"@);
    lemma_value_of_binds(p.vars(), "MAKE_FLAGS"@);
    lemma_build_vars(p, "PRE_BUILD"@);
    lemma_value_of_binds(p.vars(), "PRE_BUILD"@);
    lemma_build_vars(p, "BUILD_PHASE"@);
    lemma_value_of_binds(p.vars(), "BUILD_PHASE"@);
    lemma_build_vars(p, "POST_BUILD"@);
    lemma_value_of_binds(p.vars(), "POST_BUILD"@);
}

impl View for BuildPhase {
    type V = BuildPhaseView;

    open spec fn view(&self) -> BuildPhaseView {
        BuildPhaseView {
            build: self.build,
            makefile: self.makefile.deep_view(),
            make_flags: self.make_flags.deep_view(),
            build_flags: self.build_flags.deep_view(),
            pre_build: self.pre_build.deep_view(),
            build_phase: self.build_phase.deep_view(),
            post_build: self.post_build.deep_view(),
        }
    }
}

impl BuildPhase {
    /// The phase switched on, with nothing else set.
    pub fn new() -> (p: BuildPhase)
        ensures
            p@ == BuildPhaseView::new(),
    {
        BuildPhase {
            build: true,
            makefile: None,
            make_flags: None,
            build_flags: None,
            pre_build: None,
            build_phase: None,
            post_build: None,
        }
    }

    /// Binds the variables of the phase after those that `builder` holds
    /// already. A phase that is switched off leaves `builder` as it is.
    pub fn build(self, builder: DrvBuilder) -> (b: DrvBuilder)
        ensures
            b@ == builder@.inputs(self@.vars()),
    {
        if self.build {
            let b = builder
                .input("BUILD", Expr::str("1"))
                .input_if("MAKEFILE", Expr::opt_string(self.makefile))
                .input_if("MAKE_FLAGS", Expr::opt_string(self.make_flags))
                .input_if("PRE_BUILD", Expr::opt_string(self.pre_build))
                .input_if("BUILD_PHASE", Expr::opt_string(self.build_phase))
                .input_if("POST_BUILD", Expr::opt_string(self.post_build));
            assert(b@.inputs =~= builder@.inputs + self@.vars());
            b
        } else {
            assert(builder@.inputs + Seq::<Binding>::empty() =~= builder@.inputs);
            builder
        }
    }
}

impl Default for BuildPhase {
    fn default() -> (p: BuildPhase)
        ensures
            p@ == BuildPhaseView::new(),
    {
        BuildPhase::new()
    }
}

impl StdenvBuilderView {
    pub open spec fn dont_build(self) -> StdenvBuilderView {
        StdenvBuilderView { build: BuildPhaseView { build: false, ..self.build }, ..self }
    }

    pub open spec fn makefile(self, makefile: Seq<char>) -> StdenvBuilderView {
        StdenvBuilderView { build: BuildPhaseView { makefile: Some(makefile), ..self.build }, ..self }
    }

    pub open spec fn make_flags(self, make_flags: Seq<char>) -> StdenvBuilderView {
        StdenvBuilderView { build: BuildPhaseView { make_flags: Some(make_flags), ..self.build }, ..self }
    }

    pub open spec fn pre_build(self, pre_build: Seq<char>) -> StdenvBuilderView {
        StdenvBuilderView { build: BuildPhaseView { pre_build: Some(pre_build), ..self.build }, ..self }
    }

    pub open spec fn build_phase(self, build_phase: Seq<char>) -> StdenvBuilderView {
        StdenvBuilderView { build: BuildPhaseView { build_phase: Some(build_phase), ..self.build }, ..self }
    }

    pub open spec fn post_build(self, post_build: Seq<char>) -> StdenvBuilderView {
        StdenvBuilderView { build: BuildPhaseView { post_build: Some(post_build), ..self.build }, ..self }
    }
}

impl StdenvBuilder {
    /// Switches the build phase off.
    pub fn dont_build(self) -> (b: StdenvBuilder)
        ensures
            b@ == self@.dont_build(),
            b@.build.vars() == Seq::<Binding>::empty(),
    {
        proof {
            reveal(StdenvBuilder::view);
        }
        let mut b = self;
        b.build.build = false;
        b
    }

    /// Names the makefile where it is not the usual one.
    pub fn makefile(self, makefile: &str) -> (b: StdenvBuilder)
        ensures
            b@ == self@.makefile(makefile@),
    {
        proof {
            reveal(StdenvBuilder::view);
        }
        let mut b = self;
        b.build.makefile = Some(String::from_str(makefile));
        b
    }

    /// Sets the flags handed to every run of make.
    pub fn make_flags(self, make_flags: &str) -> (b: StdenvBuilder)
        ensures
            b@ == self@.make_flags(make_flags@),
    {
        proof {
            reveal(StdenvBuilder::view);
        }
        let mut b = self;
        b.build.make_flags = Some(String::from_str(make_flags));
        b
    }

    /// Sets the script that runs before the build.
    pub fn pre_build(self, pre_build: &str) -> (b: StdenvBuilder)
        ensures
            b@ == self@.pre_build(pre_build@),
    {
        proof {
            reveal(StdenvBuilder::view);
        }
        let mut b = self;
        b.build.pre_build = Some(String::from_str(pre_build));
        b
    }

    /// Replaces the phase's own script.
    pub fn build_phase(self, build_phase: &str) -> (b: StdenvBuilder)
        ensures
            b@ == self@.build_phase(build_phase@),
    {
        proof {
            reveal(StdenvBuilder::view);
        }
        let mut b = self;
        b.build.build_phase = Some(String::from_str(build_phase));
        b
    }

    /// Sets the script that runs after the build.
    pub fn post_build(self, post_build: &str) -> (b: StdenvBuilder)
        ensures
            b@ == self@.post_build(post_build@),
    {
        proof {
            reveal(StdenvBuilder::view);
        }
        let mut b = self;
        b.build.post_build = Some(String::from_str(post_build));
        b
    }
}

} // verus!

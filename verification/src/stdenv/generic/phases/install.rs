//! The install phase: copies what was built into the outputs.

use crate::drv::DrvBuilder;
use crate::expr::{Binding, Expr, ExprView};
use crate::stdenv::generic::builder::{StdenvBuilder, StdenvBuilderView};
use crate::stdenv::generic::names::lemma_codes;
use crate::vars::{
    binds, lemma_value_of_binds, lemma_value_of_one, lemma_value_of_opt, opt_var, str_opt, str_var,
    value_of,
};
use vstd::prelude::*;

verus! {

/// The install phase: copies what was built into the outputs.
#[derive(Debug, PartialEq, Eq)]
pub struct InstallPhase {
    pub install: bool,
    pub install_targets: Option<String>,
    pub install_flags: Option<String>,
    pub pre_install: Option<String>,
    pub install_phase: Option<String>,
    pub post_install: Option<String>,
}

/// `InstallPhase` as a mathematical value: every string a sequence of characters,
/// every list a sequence.
pub struct InstallPhaseView {
    pub install: bool,
    pub install_targets: Option<Seq<char>>,
    pub install_flags: Option<Seq<char>>,
    pub pre_install: Option<Seq<char>>,
    pub install_phase: Option<Seq<char>>,
    pub post_install: Option<Seq<char>>,
}

impl InstallPhaseView {
    /// The phase as a fresh builder holds it: switched on, nothing else set.
    pub open spec fn new() -> InstallPhaseView {
        InstallPhaseView {
            install: true,
            install_targets: None,
            install_flags: None,
            pre_install: None,
            install_phase: None,
            post_install: None,
        }
    }

    /// The variables of the phase in their fixed order: the switch, then
    /// each field that is set. A phase that is switched off has none.
    pub open spec fn vars(self) -> Seq<Binding> {
        if self.install {
            seq![("INSTALL"@, ExprView::Str("1"@))]
                + str_var("INSTALL_TARGETS"@, self.install_targets)
                + str_var("INSTALL_FLAGS"@, self.install_flags)
                + str_var("PRE_INSTALL"@, self.pre_install)
                + str_var("INSTALL_PHASE"@, self.install_phase)
                + str_var("POST_INSTALL"@, self.post_install)
        } else {
            Seq::empty()
        }
    }

    /// Whether `name` is one of the variables of the phase.
    pub open spec fn owns(name: Seq<char>) -> bool {
        name == "INSTALL"@
            || name == "INSTALL_TARGETS"@
            || name == "INSTALL_FLAGS"@
            || name == "PRE_INSTALL"@
            || name == "INSTALL_PHASE"@
            || name == "POST_INSTALL"@
    }

    /// What the phase binds the variable `name` to. That is nothing where
    /// the phase is switched off, where the field behind the variable is
    /// not set, and where the variable is none of the phase's.
    pub open spec fn value(self, name: Seq<char>) -> Option<ExprView> {
        if !self.install {
            None
        } else if name == "INSTALL"@ {
            Some(ExprView::Str("1"@))
        } else if name == "INSTALL_TARGETS"@ {
            str_opt(self.install_targets)
        } else if name == "INSTALL_FLAGS"@ {
            str_opt(self.install_flags)
        } else if name == "PRE_INSTALL"@ {
            str_opt(self.pre_install)
        } else if name == "INSTALL_PHASE"@ {
            str_opt(self.install_phase)
        } else if name == "POST_INSTALL"@ {
            str_opt(self.post_install)
        } else {
            None
        }
    }
}

/// The variables of the phase say what `value` says, of every name: a
/// variable of the phase has the value of its field, and no other name
/// is bound.
pub proof fn lemma_install_vars(p: InstallPhaseView, name: Seq<char>)
    ensures
        value_of(p.vars(), name) == p.value(name),
        p.value(name) is Some ==> InstallPhaseView::owns(name),
{
    lemma_codes();
    if p.install {
        let vars = seq![("INSTALL"@, ExprView::Str("1"@))];
        lemma_value_of_one("INSTALL"@, ExprView::Str("1"@), name);
        lemma_value_of_opt(vars, "INSTALL_TARGETS"@, str_opt(p.install_targets), name);
        let vars = vars + opt_var("INSTALL_TARGETS"@, str_opt(p.install_targets));
        lemma_value_of_opt(vars, "INSTALL_FLAGS"@, str_opt(p.install_flags), name);
        let vars = vars + opt_var("INSTALL_FLAGS"@, str_opt(p.install_flags));
        lemma_value_of_opt(vars, "PRE_INSTALL"@, str_opt(p.pre_install), name);
        let vars = vars + opt_var("PRE_INSTALL"@, str_opt(p.pre_install));
        lemma_value_of_opt(vars, "INSTALL_PHASE"@, str_opt(p.install_phase), name);
        let vars = vars + opt_var("INSTALL_PHASE"@, str_opt(p.install_phase));
        lemma_value_of_opt(vars, "POST_INSTALL"@, str_opt(p.post_install), name);
    } else {
        assert(value_of(Seq::<Binding>::empty(), name) is None);
    }
}

/// A field of the phase that is not set leaves its variable out: the
/// variable is not bound, not to an empty value either. A phase that is
/// switched off binds no variable at all.
pub proof fn law_install_unset_is_absent(p: InstallPhaseView)
    ensures
        p.install_targets is None ==> !binds(p.vars(), "INSTALL_TARGETS"@),
        p.install_flags is None ==> !binds(p.vars(), "INSTALL_FLAGS"@),
        p.pre_install is None ==> !binds(p.vars(), "PRE_INSTALL"@),
        p.install_phase is None ==> !binds(p.vars(), "INSTALL_PHASE"@),
        p.post_install is None ==> !binds(p.vars(), "POST_INSTALL"@),
        !p.install ==> forall|name: Seq<char>| !binds(p.vars(), name),
{
    lemma_codes();
    lemma_install_vars(p, "INSTALL_TARGETS"@);
    lemma_value_of_binds(p.vars(), "INSTALL_TARGETS"@);
    lemma_install_vars(p, "INSTALL_FLAGS"@);
    lemma_value_of_binds(p.vars(), "INSTALL_FLAGS"@);
    lemma_install_vars(p, "PRE_INSTALL"@);
    lemma_value_of_binds(p.vars(), "PRE_INSTALL"@);
    lemma_install_vars(p, "INSTALL_PHASE"@);
    lemma_value_of_binds(p.vars(), "INSTALL_PHASE"@);
    lemma_install_vars(p, "POST_INSTALL"@);
    lemma_value_of_binds(p.vars(), "POST_INSTALL"@);
}

impl View for InstallPhase {
    type V = InstallPhaseView;

    open spec fn view(&self) -> InstallPhaseView {
        InstallPhaseView {
            install: self.install,
            install_targets: self.install_targets.deep_view(),
            install_flags: self.install_flags.deep_view(),
            pre_install: self.pre_install.deep_view(),
            install_phase: self.install_phase.deep_view(),
            post_install: self.post_install.deep_view(),
        }
    }
}

impl InstallPhase {
    /// The phase switched on, with nothing else set.
    pub fn new() -> (p: InstallPhase)
        ensures
            p@ == InstallPhaseView::new(),
    {
        InstallPhase {
            install: true,
            install_targets: None,
            install_flags: None,
            pre_install: None,
            install_phase: None,
            post_install: None,
        }
    }

    /// Binds the variables of the phase after those that `builder` holds
    /// already. A phase that is switched off leaves `builder` as it is.
    pub fn build(self, builder: DrvBuilder) -> (b: DrvBuilder)
        ensures
            b@ == builder@.inputs(self@.vars()),
    {
        if self.install {
            let b = builder
                .input("INSTALL", Expr::str("1"))
                .input_if("INSTALL_TARGETS", Expr::opt_string(self.install_targets))
                .input_if("INSTALL_FLAGS", Expr::opt_string(self.install_flags))
                .input_if("PRE_INSTALL", Expr::opt_string(self.pre_install))
                .input_if("INSTALL_PHASE", Expr::opt_string(self.install_phase))
                .input_if("POST_INSTALL", Expr::opt_string(self.post_install));
            assert(b@.inputs =~= builder@.inputs + self@.vars());
            b
        } else {
            assert(builder@.inputs + Seq::<Binding>::empty() =~= builder@.inputs);
            builder
        }
    }
}

impl Default for InstallPhase {
    fn default() -> (p: InstallPhase)
        ensures
            p@ == InstallPhaseView::new(),
    {
        InstallPhase::new()
    }
}

impl StdenvBuilderView {
    pub open spec fn dont_install(self) -> StdenvBuilderView {
        StdenvBuilderView { install: InstallPhaseView { install: false, ..self.install }, ..self }
    }

    pub open spec fn install_targets(self, install_targets: Seq<char>) -> StdenvBuilderView {
        StdenvBuilderView { install: InstallPhaseView { install_targets: Some(install_targets), ..self.install }, ..self }
    }

    pub open spec fn install_flags(self, install_flags: Seq<char>) -> StdenvBuilderView {
        StdenvBuilderView { install: InstallPhaseView { install_flags: Some(install_flags), ..self.install }, ..self }
    }

    pub open spec fn pre_install(self, pre_install: Seq<char>) -> StdenvBuilderView {
        StdenvBuilderView { install: InstallPhaseView { pre_install: Some(pre_install), ..self.install }, ..self }
    }

    pub open spec fn install_phase(self, install_phase: Seq<char>) -> StdenvBuilderView {
        StdenvBuilderView { install: InstallPhaseView { install_phase: Some(install_phase), ..self.install }, ..self }
    }

    pub open spec fn post_install(self, post_install: Seq<char>) -> StdenvBuilderView {
        StdenvBuilderView { install: InstallPhaseView { post_install: Some(post_install), ..self.install }, ..self }
    }
}

impl StdenvBuilder {
    /// Switches the install phase off.
    pub fn dont_install(self) -> (b: StdenvBuilder)
        ensures
            b@ == self@.dont_install(),
            b@.install.vars() == Seq::<Binding>::empty(),
    {
        proof {
            reveal(StdenvBuilder::view);
        }
        let mut b = self;
        b.install.install = false;
        b
    }

    /// Names the make targets that install the package.
    pub fn install_targets(self, install_targets: &str) -> (b: StdenvBuilder)
        ensures
            b@ == self@.install_targets(install_targets@),
    {
        proof {
            reveal(StdenvBuilder::view);
        }
        let mut b = self;
        b.install.install_targets = Some(String::from_str(install_targets));
        b
    }

    /// Sets the flags handed to the install run.
    pub fn install_flags(self, install_flags: &str) -> (b: StdenvBuilder)
        ensures
            b@ == self@.install_flags(install_flags@),
    {
        proof {
            reveal(StdenvBuilder::view);
        }
        let mut b = self;
        b.install.install_flags = Some(String::from_str(install_flags));
        b
    }

    /// Sets the script that runs before the install.
    pub fn pre_install(self, pre_install: &str) -> (b: StdenvBuilder)
        ensures
            b@ == self@.pre_install(pre_install@),
    {
        proof {
            reveal(StdenvBuilder::view);
        }
        let mut b = self;
        b.install.pre_install = Some(String::from_str(pre_install));
        b
    }

    /// Replaces the phase's own script.
    pub fn install_phase(self, install_phase: &str) -> (b: StdenvBuilder)
        ensures
            b@ == self@.install_phase(install_phase@),
    {
        proof {
            reveal(StdenvBuilder::view);
        }
        let mut b = self;
        b.install.install_phase = Some(String::from_str(install_phase));
        b
    }

    /// Sets the script that runs after the install.
    pub fn post_install(self, post_install: &str) -> (b: StdenvBuilder)
        ensures
            b@ == self@.post_install(post_install@),
    {
        proof {
            reveal(StdenvBuilder::view);
        }
        let mut b = self;
        b.install.post_install = Some(String::from_str(post_install));
        b
    }
}

} // verus!

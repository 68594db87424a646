//! The install-check phase: tests the package as installed. It is off unless asked for.

use crate::drv::DrvBuilder;
use crate::expr::{Binding, Expr, ExprView};
use crate::stdenv::generic::builder::{StdenvBuilder, StdenvBuilderView};
use crate::stdenv::generic::names::lemma_codes;
use crate::vars::{
    binds, lemma_value_of_binds, lemma_value_of_one, lemma_value_of_opt, opt_var, str_opt, str_var,
    value_of,
};
use vstd::prelude::*;

verus! {

/// The install-check phase: tests the package as installed. It is off unless asked for.
#[derive(Debug, PartialEq, Eq)]
pub struct InstallCheckPhase {
    pub install_check: bool,
    pub install_check_flags: Option<String>,
    pub pre_install_check: Option<String>,
    pub install_check_phase: Option<String>,
    pub post_install_check: Option<String>,
}

/// `InstallCheckPhase` as a mathematical value: every string a sequence of characters,
/// every list a sequence.
pub struct InstallCheckPhaseView {
    pub install_check: bool,
    pub install_check_flags: Option<Seq<char>>,
    pub pre_install_check: Option<Seq<char>>,
    pub install_check_phase: Option<Seq<char>>,
    pub post_install_check: Option<Seq<char>>,
}

impl InstallCheckPhaseView {
    /// The phase as a fresh builder holds it: switched off, nothing else set.
    pub open spec fn new() -> InstallCheckPhaseView {
        InstallCheckPhaseView {
            install_check: false,
            install_check_flags: None,
            pre_install_check: None,
            install_check_phase: None,
            post_install_check: None,
        }
    }

    /// The variables of the phase in their fixed order: the switch, then
    /// each field that is set. A phase that is switched off has none.
    pub open spec fn vars(self) -> Seq<Binding> {
        if self.install_check {
            seq![("INSTALL_CHECK"@, ExprView::Str("1"@))]
                + str_var("INSTALL_CHECK_FLAGS"@, self.install_check_flags)
                + str_var("PRE_INSTALL_CHECK"@, self.pre_install_check)
                + str_var("INSTALL_CHECK_PHASE"@, self.install_check_phase)
                + str_var("POST_INSTALL_CHECK"@, self.post_install_check)
        } else {
            Seq::empty()
        }
    }

    /// Whether `name` is one of the variables of the phase.
    pub open spec fn owns(name: Seq<char>) -> bool {
        name == "INSTALL_CHECK"@
            || name == "INSTALL_CHECK_FLAGS"@
            || name == "PRE_INSTALL_CHECK"@
            || name == "INSTALL_CHECK_PHASE"@
            || name == "POST_INSTALL_CHECK"@
    }

    /// What the phase binds the variable `name` to. That is nothing where
    /// the phase is switched off, where the field behind the variable is
    /// not set, and where the variable is none of the phase's.
    pub open spec fn value(self, name: Seq<char>) -> Option<ExprView> {
        if !self.install_check {
            None
        } else if name == "INSTALL_CHECK"@ {
            Some(ExprView::Str("1"@))
        } else if name == "INSTALL_CHECK_FLAGS"@ {
            str_opt(self.install_check_flags)
        } else if name == "PRE_INSTALL_CHECK"@ {
            str_opt(self.pre_install_check)
        } else if name == "INSTALL_CHECK_PHASE"@ {
            str_opt(self.install_check_phase)
        } else if name == "POST_INSTALL_CHECK"@ {
            str_opt(self.post_install_check)
        } else {
            None
        }
    }
}

/// The variables of the phase say what `value` says, of every name: a
/// variable of the phase has the value of its field, and no other name
/// is bound.
pub proof fn lemma_install_check_vars(p: InstallCheckPhaseView, name: Seq<char>)
    ensures
        value_of(p.vars(), name) == p.value(name),
        p.value(name) is Some ==> InstallCheckPhaseView::owns(name),
{
    lemma_codes();
    if p.install_check {
        let vars = seq![("INSTALL_CHECK"@, ExprView::Str("1"@))];
        lemma_value_of_one("INSTALL_CHECK"@, ExprView::Str("1"@), name);
        lemma_value_of_opt(vars, "INSTALL_CHECK_FLAGS"@, str_opt(p.install_check_flags), name);
        let vars = vars + opt_var("INSTALL_CHECK_FLAGS"@, str_opt(p.install_check_flags));
        lemma_value_of_opt(vars, "PRE_INSTALL_CHECK"@, str_opt(p.pre_install_check), name);
        let vars = vars + opt_var("PRE_INSTALL_CHECK"@, str_opt(p.pre_install_check));
        lemma_value_of_opt(vars, "INSTALL_CHECK_PHASE"@, str_opt(p.install_check_phase), name);
        let vars = vars + opt_var("INSTALL_CHECK_PHASE"@, str_opt(p.install_check_phase));
        lemma_value_of_opt(vars, "POST_INSTALL_CHECK"@, str_opt(p.post_install_check), name);
    } else {
        assert(value_of(Seq::<Binding>::empty(), name) is None);
    }
}

/// A field of the phase that is not set leaves its variable out: the
/// variable is not bound, not to an empty value either. A phase that is
/// switched off binds no variable at all.
pub proof fn law_install_check_unset_is_absent(p: InstallCheckPhaseView)
    ensures
        p.install_check_flags is None ==> !binds(p.vars(), "INSTALL_CHECK_FLAGS"@),
        p.pre_install_check is None ==> !binds(p.vars(), "PRE_INSTALL_CHECK"@),
        p.install_check_phase is None ==> !binds(p.vars(), "INSTALL_CHECK_PHASE"@),
        p.post_install_check is None ==> !binds(p.vars(), "POST_INSTALL_CHECK"@),
        !p.install_check ==> forall|name: Seq<char>| !binds(p.vars(), name),
{
    lemma_codes();
    lemma_install_check_vars(p, "INSTALL_CHECK_FLAGS"@);
    lemma_value_of_binds(p.vars(), "INSTALL_CHECK_FLAGS"@);
    lemma_install_check_vars(p, "PRE_INSTALL_CHECK"@);
    lemma_value_of_binds(p.vars(), "PRE_INSTALL_CHECK"@);
    lemma_install_check_vars(p, "INSTALL_CHECK_PHASE"@);
    lemma_value_of_binds(p.vars(), "INSTALL_CHECK_PHASE"@);
    lemma_install_check_vars(p, "POST_INSTALL_CHECK"@);
    lemma_value_of_binds(p.vars(), "POST_INSTALL_CHECK"@);
}

impl View for InstallCheckPhase {
    type V = InstallCheckPhaseView;

    open spec fn view(&self) -> InstallCheckPhaseView {
        InstallCheckPhaseView {
            install_check: self.install_check,
            install_check_flags: self.install_check_flags.deep_view(),
            pre_install_check: self.pre_install_check.deep_view(),
            install_check_phase: self.install_check_phase.deep_view(),
            post_install_check: self.post_install_check.deep_view(),
        }
    }
}

impl InstallCheckPhase {
    /// The phase switched off, with nothing else set.
    pub fn new() -> (p: InstallCheckPhase)
        ensures
            p@ == InstallCheckPhaseView::new(),
    {
        InstallCheckPhase {
            install_check: false,
            install_check_flags: None,
            pre_install_check: None,
            install_check_phase: None,
            post_install_check: None,
        }
    }

    /// Binds the variables of the phase after those that `builder` holds
    /// already. A phase that is switched off leaves `builder` as it is.
    pub fn build(self, builder: DrvBuilder) -> (b: DrvBuilder)
        ensures
            b@ == builder@.inputs(self@.vars()),
    {
        if self.install_check {
            let b = builder
                .input("INSTALL_CHECK", Expr::str("1"))
                .input_if("INSTALL_CHECK_FLAGS", Expr::opt_string(self.install_check_flags))
                .input_if("PRE_INSTALL_CHECK", Expr::opt_string(self.pre_install_check))
                .input_if("INSTALL_CHECK_PHASE", Expr::opt_string(self.install_check_phase))
                .input_if("POST_INSTALL_CHECK", Expr::opt_string(self.post_install_check));
            assert(b@.inputs =~= builder@.inputs + self@.vars());
            b
        } else {
            assert(builder@.inputs + Seq::<Binding>::empty() =~= builder@.inputs);
            builder
        }
    }
}

impl Default for InstallCheckPhase {
    fn default() -> (p: InstallCheckPhase)
        ensures
            p@ == InstallCheckPhaseView::new(),
    {
        InstallCheckPhase::new()
    }
}

impl StdenvBuilderView {
    pub open spec fn do_install_check(self) -> StdenvBuilderView {
        StdenvBuilderView { install_check: InstallCheckPhaseView { install_check: true, ..self.install_check }, ..self }
    }

    pub open spec fn dont_install_check(self) -> StdenvBuilderView {
        StdenvBuilderView { install_check: InstallCheckPhaseView { install_check: false, ..self.install_check }, ..self }
    }

    pub open spec fn install_check_flags(self, install_check_flags: Seq<char>) -> StdenvBuilderView {
        StdenvBuilderView { install_check: InstallCheckPhaseView { install_check_flags: Some(install_check_flags), ..self.install_check }, ..self }
    }

    pub open spec fn pre_install_check(self, pre_install_check: Seq<char>) -> StdenvBuilderView {
        StdenvBuilderView { install_check: InstallCheckPhaseView { pre_install_check: Some(pre_install_check), ..self.install_check }, ..self }
    }

    pub open spec fn install_check_phase(self, install_check_phase: Seq<char>) -> StdenvBuilderView {
        StdenvBuilderView { install_check: InstallCheckPhaseView { install_check_phase: Some(install_check_phase), ..self.install_check }, ..self }
    }

    pub open spec fn post_install_check(self, post_install_check: Seq<char>) -> StdenvBuilderView {
        StdenvBuilderView { install_check: InstallCheckPhaseView { post_install_check: Some(post_install_check), ..self.install_check }, ..self }
    }
}

impl StdenvBuilder {
    /// Switches the install-check phase on.
    pub fn do_install_check(self) -> (b: StdenvBuilder)
        ensures
            b@ == self@.do_install_check(),
    {
        proof {
            reveal(StdenvBuilder::view);
        }
        let mut b = self;
        b.install_check.install_check = true;
        b
    }

    /// Switches the install-check phase off. What was set for the phase is
    /// dropped without complaint.
    pub fn dont_install_check(self) -> (b: StdenvBuilder)
        ensures
            b@ == self@.dont_install_check(),
            b@.install_check.vars() == Seq::<Binding>::empty(),
    {
        proof {
            reveal(StdenvBuilder::view);
        }
        let mut b = self;
        b.install_check.install_check = false;
        b
    }

    /// Sets the flags handed to the test run.
    pub fn install_check_flags(self, install_check_flags: &str) -> (b: StdenvBuilder)
        ensures
            b@ == self@.install_check_flags(install_check_flags@),
    {
        proof {
            reveal(StdenvBuilder::view);
        }
        let mut b = self;
        b.install_check.install_check_flags = Some(String::from_str(install_check_flags));
        b
    }

    /// Sets the script that runs before the tests.
    pub fn pre_install_check(self, pre_install_check: &str) -> (b: StdenvBuilder)
        ensures
            b@ == self@.pre_install_check(pre_install_check@),
    {
        proof {
            reveal(StdenvBuilder::view);
        }
        let mut b = self;
        b.install_check.pre_install_check = Some(String::from_str(pre_install_check));
        b
    }

    /// Replaces the phase's own script.
    pub fn install_check_phase(self, install_check_phase: &str) -> (b: StdenvBuilder)
        ensures
            b@ == self@.install_check_phase(install_check_phase@),
    {
        proof {
            reveal(StdenvBuilder::view);
        }
        let mut b = self;
        b.install_check.install_check_phase = Some(String::from_str(install_check_phase));
        b
    }

    /// Sets the script that runs after the tests.
    pub fn post_install_check(self, post_install_check: &str) -> (b: StdenvBuilder)
        ensures
            b@ == self@.post_install_check(post_install_check@),
    {
        proof {
            reveal(StdenvBuilder::view);
        }
        let mut b = self;
        b.install_check.post_install_check = Some(String::from_str(post_install_check));
        b
    }
}

} // verus!

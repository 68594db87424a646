//! The check phase: runs the package's test suite. It is off unless asked for.

use crate::drv::DrvBuilder;
use crate::expr::{Binding, Expr, ExprView};
use crate::stdenv::generic::builder::{StdenvBuilder, StdenvBuilderView};
use crate::stdenv::generic::names::lemma_codes;
use crate::vars::{
    binds, lemma_value_of_binds, lemma_value_of_one, lemma_value_of_opt, opt_var, str_opt, str_var,
    value_of,
};
use vstd::prelude::*;

verus! {

/// The check phase: runs the package's test suite. It is off unless asked for.
#[derive(Debug, PartialEq, Eq)]
pub struct CheckPhase {
    pub check: bool,
    pub check_flags: Option<String>,
    pub pre_check: Option<String>,
    pub check_phase: Option<String>,
    pub post_check: Option<String>,
}

/// `CheckPhase` as a mathematical value: every string a sequence of characters,
/// every list a sequence.
pub struct CheckPhaseView {
    pub check: bool,
    pub check_flags: Option<Seq<char>>,
    pub pre_check: Option<Seq<char>>,
    pub check_phase: Option<Seq<char>>,
    pub post_check: Option<Seq<char>>,
}

impl CheckPhaseView {
    /// The phase as a fresh builder holds it: switched off, nothing else set.
    pub open spec fn new() -> CheckPhaseView {
        CheckPhaseView {
            check: false,
            check_flags: None,
            pre_check: None,
            check_phase: None,
            post_check: None,
        }
    }

    /// The variables of the phase in their fixed order: the switch, then
    /// each field that is set. A phase that is switched off has none.
    pub open spec fn vars(self) -> Seq<Binding> {
        if self.check {
            seq![("CHECK"@, ExprView::Str("1"@))]
                + str_var("CHECK_FLAGS"@, self.check_flags)
                + str_var("PRE_CHECK"@, self.pre_check)
                + str_var("CHECK_PHASE"@, self.check_phase)
                + str_var("POST_CHECK"@, self.post_check)
        } else {
            Seq::empty()
        }
    }

    /// Whether `name` is one of the variables of the phase.
    pub open spec fn owns(name: Seq<char>) -> bool {
        name == "CHECK"@
            || name == "CHECK_FLAGS"@
            || name == "PRE_CHECK"@
            || name == "CHECK_PHASE"@
            || name == "POST_CHECK"@
    }

    /// What the phase binds the variable `name` to. That is nothing where
    /// the phase is switched off, where the field behind the variable is
    /// not set, and where the variable is none of the phase's.
    pub open spec fn value(self, name: Seq<char>) -> Option<ExprView> {
        if !self.check {
            None
        } else if name == "CHECK"@ {
            Some(ExprView::Str("1"@))
        } else if name == "CHECK_FLAGS"@ {
            str_opt(self.check_flags)
        } else if name == "PRE_CHECK"@ {
            str_opt(self.pre_check)
        } else if name == "CHECK_PHASE"@ {
            str_opt(self.check_phase)
        } else if name == "POST_CHECK"@ {
            str_opt(self.post_check)
        } else {
            None
        }
    }
}

/// The variables of the phase say what `value` says, of every name: a
/// variable of the phase has the value of its field, and no other name
/// is bound.
pub proof fn lemma_check_vars(p: CheckPhaseView, name: Seq<char>)
    ensures
        value_of(p.vars(), name) == p.value(name),
        p.value(name) is Some ==> CheckPhaseView::owns(name),
{
    lemma_codes();
    if p.check {
        let vars = seq![("CHECK"@, ExprView::Str("1"@))];
        lemma_value_of_one("CHECK"@, ExprView::Str("1"@), name);
        lemma_value_of_opt(vars, "CHECK_FLAGS"@, str_opt(p.check_flags), name);
        let vars = vars + opt_var("CHECK_FLAGS"@, str_opt(p.check_flags));
        lemma_value_of_opt(vars, "PRE_CHECK"@, str_opt(p.pre_check), name);
        let vars = vars + opt_var("PRE_CHECK"@, str_opt(p.pre_check));
        lemma_value_of_opt(vars, "CHECK_PHASE"@, str_opt(p.check_phase), name);
        let vars = vars + opt_var("CHECK_PHASE"@, str_opt(p.check_phase));
        lemma_value_of_opt(vars, "POST_CHECK"@, str_opt(p.post_check), name);
    } else {
        assert(value_of(Seq::<Binding>::empty(), name) is None);
    }
}

/// A field of the phase that is not set leaves its variable out: the
/// variable is not bound, not to an empty value either. A phase that is
/// switched off binds no variable at all.
pub proof fn law_check_unset_is_absent(p: CheckPhaseView)
    ensures
        p.check_flags is None ==> !binds(p.vars(), "CHECK_FLAGS"@),
        p.pre_check is None ==> !binds(p.vars(), "PRE_CHECK"@),
        p.check_phase is None ==> !binds(p.vars(), "CHECK_PHASE"@),
        p.post_check is None ==> !binds(p.vars(), "POST_CHECK"@),
        !p.check ==> forall|name: Seq<char>| !binds(p.vars(), name),
{
    lemma_codes();
    lemma_check_vars(p, "CHECK_FLAGS"@);
    lemma_value_of_binds(p.vars(), "CHECK_FLAGS"@);
    lemma_check_vars(p, "PRE_CHECK"@);
    lemma_value_of_binds(p.vars(), "PRE_CHECK"@);
    lemma_check_vars(p, "CHECK_PHASE"@);
    lemma_value_of_binds(p.vars(), "CHECK_PHASE"@);
    lemma_check_vars(p, "POST_CHECK"@);
    lemma_value_of_binds(p.vars(), "POST_CHECK"@);
}

impl View for CheckPhase {
    type V = CheckPhaseView;

    open spec fn view(&self) -> CheckPhaseView {
        CheckPhaseView {
            check: self.check,
            check_flags: self.check_flags.deep_view(),
            pre_check: self.pre_check.deep_view(),
            check_phase: self.check_phase.deep_view(),
            post_check: self.post_check.deep_view(),
        }
    }
}

impl CheckPhase {
    /// The phase switched off, with nothing else set.
    pub fn new() -> (p: CheckPhase)
        ensures
            p@ == CheckPhaseView::new(),
    {
        CheckPhase {
            check: false,
            check_flags: None,
            pre_check: None,
            check_phase: None,
            post_check: None,
        }
    }

    /// Binds the variables of the phase after those that `builder` holds
    /// already. A phase that is switched off leaves `builder` as it is.
    pub fn build(self, builder: DrvBuilder) -> (b: DrvBuilder)
        ensures
            b@ == builder@.inputs(self@.vars()),
    {
        if self.check {
            let b = builder
                .input("CHECK", Expr::str("1"))
                .input_if("CHECK_FLAGS", Expr::opt_string(self.check_flags))
                .input_if("PRE_CHECK", Expr::opt_string(self.pre_check))
                .input_if("CHECK_PHASE", Expr::opt_string(self.check_phase))
                .input_if("POST_CHECK", Expr::opt_string(self.post_check));
            assert(b@.inputs =~= builder@.inputs + self@.vars());
            b
        } else {
            assert(builder@.inputs + Seq::<Binding>::empty() =~= builder@.inputs);
            builder
        }
    }
}

impl Default for CheckPhase {
    fn default() -> (p: CheckPhase)
        ensures
            p@ == CheckPhaseView::new(),
    {
        CheckPhase::new()
    }
}

impl StdenvBuilderView {
    pub open spec fn do_check(self) -> StdenvBuilderView {
        StdenvBuilderView { check: CheckPhaseView { check: true, ..self.check }, ..self }
    }

    pub open spec fn dont_check(self) -> StdenvBuilderView {
        StdenvBuilderView { check: CheckPhaseView { check: false, ..self.check }, ..self }
    }

    pub open spec fn check_flags(self, check_flags: Seq<char>) -> StdenvBuilderView {
        StdenvBuilderView { check: CheckPhaseView { check_flags: Some(check_flags), ..self.check }, ..self }
    }

    pub open spec fn pre_check(self, pre_check: Seq<char>) -> StdenvBuilderView {
        StdenvBuilderView { check: CheckPhaseView { pre_check: Some(pre_check), ..self.check }, ..self }
    }

    pub open spec fn check_phase(self, check_phase: Seq<char>) -> StdenvBuilderView {
        StdenvBuilderView { check: CheckPhaseView { check_phase: Some(check_phase), ..self.check }, ..self }
    }

    pub open spec fn post_check(self, post_check: Seq<char>) -> StdenvBuilderView {
        StdenvBuilderView { check: CheckPhaseView { post_check: Some(post_check), ..self.check }, ..self }
    }
}

impl StdenvBuilder {
    /// Switches the check phase on.
    pub fn do_check(self) -> (b: StdenvBuilder)
        ensures
            b@ == self@.do_check(),
    {
        proof {
            reveal(StdenvBuilder::view);
        }
        let mut b = self;
        b.check.check = true;
        b
    }

    /// Switches the check phase off. What was set for the phase is dropped
    /// without complaint.
    pub fn dont_check(self) -> (b: StdenvBuilder)
        ensures
            b@ == self@.dont_check(),
            b@.check.vars() == Seq::<Binding>::empty(),
    {
        proof {
            reveal(StdenvBuilder::view);
        }
        let mut b = self;
        b.check.check = false;
        b
    }

    /// Sets the flags handed to the test run.
    pub fn check_flags(self, check_flags: &str) -> (b: StdenvBuilder)
        ensures
            b@ == self@.check_flags(check_flags@),
    {
        proof {
            reveal(StdenvBuilder::view);
        }
        let mut b = self;
        b.check.check_flags = Some(String::from_str(check_flags));
        b
    }

    /// Sets the script that runs before the tests.
    pub fn pre_check(self, pre_check: &str) -> (b: StdenvBuilder)
        ensures
            b@ == self@.pre_check(pre_check@),
    {
        proof {
            reveal(StdenvBuilder::view);
        }
        let mut b = self;
        b.check.pre_check = Some(String::from_str(pre_check));
        b
    }

    /// Replaces the phase's own script.
    pub fn check_phase(self, check_phase: &str) -> (b: StdenvBuilder)
        ensures
            b@ == self@.check_phase(check_phase@),
    {
        proof {
            reveal(StdenvBuilder::view);
        }
        let mut b = self;
        b.check.check_phase = Some(String::from_str(check_phase));
        b
    }

    /// Sets the script that runs after the tests.
    pub fn post_check(self, post_check: &str) -> (b: StdenvBuilder)
        ensures
            b@ == self@.post_check(post_check@),
    {
        proof {
            reveal(StdenvBuilder::view);
        }
        let mut b = self;
        b.check.post_check = Some(String::from_str(post_check));
        b
    }
}

} // verus!

//! The fix phase: strips the installed binaries and rewrites their library paths.

use crate::drv::DrvBuilder;
use crate::expr::{Binding, Expr, ExprView};
use crate::stdenv::generic::builder::{StdenvBuilder, StdenvBuilderView};
use crate::stdenv::generic::names::lemma_codes;
use crate::vars::{
    binds, flag_opt, flag_var, lemma_value_of_binds, lemma_value_of_one, lemma_value_of_opt,
    opt_var, str_opt, str_var, value_of,
};
use vstd::prelude::*;

verus! {

/// The fix phase: strips the installed binaries and rewrites their library paths.
#[derive(Debug, PartialEq, Eq)]
pub struct FixPhase {
    pub fix: bool,
    pub strip: bool,
    pub patch_elf: bool,
    pub pre_fix: Option<String>,
    pub fix_phase: Option<String>,
    pub post_fix: Option<String>,
}

/// `FixPhase` as a mathematical value: every string a sequence of characters,
/// every list a sequence.
pub struct FixPhaseView {
    pub fix: bool,
    pub strip: bool,
    pub patch_elf: bool,
    pub pre_fix: Option<Seq<char>>,
    pub fix_phase: Option<Seq<char>>,
    pub post_fix: Option<Seq<char>>,
}

impl FixPhaseView {
    /// The phase as a fresh builder holds it: switched on, nothing else set.
    pub open spec fn new() -> FixPhaseView {
        FixPhaseView {
            fix: true,
            strip: true,
            patch_elf: true,
            pre_fix: None,
            fix_phase: None,
            post_fix: None,
        }
    }

    /// The variables of the phase in their fixed order: the switch, then
    /// each field that is set. A phase that is switched off has none.
    pub open spec fn vars(self) -> Seq<Binding> {
        if self.fix {
            seq![("FIX"@, ExprView::Str("1"@))]
                + flag_var("STRIP"@, self.strip)
                + flag_var("PATCH_ELF"@, self.patch_elf)
                + str_var("PRE_FIX"@, self.pre_fix)
                + str_var("FIX_PHASE"@, self.fix_phase)
                + str_var("POST_FIX"@, self.post_fix)
        } else {
            Seq::empty()
        }
    }

    /// Whether `name` is one of the variables of the phase.
    pub open spec fn owns(name: Seq<char>) -> bool {
        name == "FIX"@
            || name == "STRIP"@
            || name == "PATCH_ELF"@
            || name == "PRE_FIX"@
            || name == "FIX_PHASE"@
            || name == "POST_FIX"@
    }

    /// What the phase binds the variable `name` to. That is nothing where
    /// the phase is switched off, where the field behind the variable is
    /// not set, and where the variable is none of the phase's.
    pub open spec fn value(self, name: Seq<char>) -> Option<ExprView> {
        if !self.fix {
            None
        } else if name == "FIX"@ {
            Some(ExprView::Str("1"@))
        } else if name == "STRIP"@ {
            flag_opt(self.strip)
        } else if name == "PATCH_ELF"@ {
            flag_opt(self.patch_elf)
        } else if name == "PRE_FIX"@ {
            str_opt(self.pre_fix)
        } else if name == "FIX_PHASE"@ {
            str_opt(self.fix_phase)
        } else if name == "POST_FIX"@ {
            str_opt(self.post_fix)
        } else {
            None
        }
    }
}

/// The variables of the phase say what `value` says, of every name: a
/// variable of the phase has the value of its field, and no other name
/// is bound.
pub proof fn lemma_fix_vars(p: FixPhaseView, name: Seq<char>)
    ensures
        value_of(p.vars(), name) == p.value(name),
        p.value(name) is Some ==> FixPhaseView::owns(name),
{
    lemma_codes();
    if p.fix {
        let vars = seq![("FIX"@, ExprView::Str("1"@))];
        lemma_value_of_one("FIX"@, ExprView::Str("1"@), name);
        lemma_value_of_opt(vars, "STRIP"@, flag_opt(p.strip), name);
        let vars = vars + opt_var("STRIP"@, flag_opt(p.strip));
        lemma_value_of_opt(vars, "PATCH_ELF"@, flag_opt(p.patch_elf), name);
        let vars = vars + opt_var("PATCH_ELF"@, flag_opt(p.patch_elf));
        lemma_value_of_opt(vars, "PRE_FIX"@, str_opt(p.pre_fix), name);
        let vars = vars + opt_var("PRE_FIX"@, str_opt(p.pre_fix));
        lemma_value_of_opt(vars, "FIX_PHASE"@, str_opt(p.fix_phase), name);
        let vars = vars + opt_var("FIX_PHASE"@, str_opt(p.fix_phase));
        lemma_value_of_opt(vars, "POST_FIX"@, str_opt(p.post_fix), name);
    } else {
        assert(value_of(Seq::<Binding>::empty(), name) is None);
    }
}

/// A field of the phase that is not set leaves its variable out: the
/// variable is not bound, not to an empty value either. A phase that is
/// switched off binds no variable at all.
pub proof fn law_fix_unset_is_absent(p: FixPhaseView)
    ensures
        !p.strip ==> !binds(p.vars(), "STRIP"@),
        !p.patch_elf ==> !binds(p.vars(), "PATCH_ELF"@),
        p.pre_fix is None ==> !binds(p.vars(), "PRE_FIX"@),
        p.fix_phase is None ==> !binds(p.vars(), "FIX_PHASE"@),
        p.post_fix is None ==> !binds(p.vars(), "POST_FIX"@),
        !p.fix ==> forall|name: Seq<char>| !binds(p.vars(), name),
{
    lemma_codes();
    lemma_fix_vars(p, "STRIP"@);
    lemma_value_of_binds(p.vars(), "STRIP"@);
    lemma_fix_vars(p, "PATCH_ELF"@);
    lemma_value_of_binds(p.vars(), "PATCH_ELF"@);
    lemma_fix_vars(p, "PRE_FIX"@);
    lemma_value_of_binds(p.vars(), "PRE_FIX"@);
    lemma_fix_vars(p, "FIX_PHASE"@);
    lemma_value_of_binds(p.vars(), "FIX_PHASE"@);
    lemma_fix_vars(p, "POST_FIX"@);
    lemma_value_of_binds(p.vars(), "POST_FIX"@);
}

impl View for FixPhase {
    type V = FixPhaseView;

    open spec fn view(&self) -> FixPhaseView {
        FixPhaseView {
            fix: self.fix,
            strip: self.strip,
            patch_elf: self.patch_elf,
            pre_fix: self.pre_fix.deep_view(),
            fix_phase: self.fix_phase.deep_view(),
            post_fix: self.post_fix.deep_view(),
        }
    }
}

impl FixPhase {
    /// The phase switched on, with nothing else set.
    pub fn new() -> (p: FixPhase)
        ensures
            p@ == FixPhaseView::new(),
    {
        FixPhase {
            fix: true,
            strip: true,
            patch_elf: true,
            pre_fix: None,
            fix_phase: None,
            post_fix: None,
        }
    }

    /// Binds the variables of the phase after those that `builder` holds
    /// already. A phase that is switched off leaves `builder` as it is.
    pub fn build(self, builder: DrvBuilder) -> (b: DrvBuilder)
        ensures
            b@ == builder@.inputs(self@.vars()),
    {
        if self.fix {
            let b = builder
                .input("FIX", Expr::str("1"))
                .input_bool("STRIP", self.strip)
                .input_bool("PATCH_ELF", self.patch_elf)
                .input_if("PRE_FIX", Expr::opt_string(self.pre_fix))
                .input_if("FIX_PHASE", Expr::opt_string(self.fix_phase))
                .input_if("POST_FIX", Expr::opt_string(self.post_fix));
            assert(b@.inputs =~= builder@.inputs + self@.vars());
            b
        } else {
            assert(builder@.inputs + Seq::<Binding>::empty() =~= builder@.inputs);
            builder
        }
    }
}

impl Default for FixPhase {
    fn default() -> (p: FixPhase)
        ensures
            p@ == FixPhaseView::new(),
    {
        FixPhase::new()
    }
}

impl StdenvBuilderView {
    pub open spec fn dont_fix(self) -> StdenvBuilderView {
        StdenvBuilderView { fix: FixPhaseView { fix: false, ..self.fix }, ..self }
    }

    pub open spec fn dont_strip(self) -> StdenvBuilderView {
        StdenvBuilderView { fix: FixPhaseView { strip: false, ..self.fix }, ..self }
    }

    pub open spec fn dont_patch_elf(self) -> StdenvBuilderView {
        StdenvBuilderView { fix: FixPhaseView { patch_elf: false, ..self.fix }, ..self }
    }

    pub open spec fn pre_fix(self, pre_fix: Seq<char>) -> StdenvBuilderView {
        StdenvBuilderView { fix: FixPhaseView { pre_fix: Some(pre_fix), ..self.fix }, ..self }
    }

    pub open spec fn fix_phase(self, fix_phase: Seq<char>) -> StdenvBuilderView {
        StdenvBuilderView { fix: FixPhaseView { fix_phase: Some(fix_phase), ..self.fix }, ..self }
    }

    pub open spec fn post_fix(self, post_fix: Seq<char>) -> StdenvBuilderView {
        StdenvBuilderView { fix: FixPhaseView { post_fix: Some(post_fix), ..self.fix }, ..self }
    }
}

impl StdenvBuilder {
    /// Switches the fix phase off.
    pub fn dont_fix(self) -> (b: StdenvBuilder)
        ensures
            b@ == self@.dont_fix(),
            b@.fix.vars() == Seq::<Binding>::empty(),
    {
        proof {
            reveal(StdenvBuilder::view);
        }
        let mut b = self;
        b.fix.fix = false;
        b
    }

    /// Keeps the debugging symbols of the installed binaries.
    pub fn dont_strip(self) -> (b: StdenvBuilder)
        ensures
            b@ == self@.dont_strip(),
    {
        proof {
            reveal(StdenvBuilder::view);
        }
        let mut b = self;
        b.fix.strip = false;
        b
    }

    /// Leaves the library paths of the installed binaries as they are.
    pub fn dont_patch_elf(self) -> (b: StdenvBuilder)
        ensures
            b@ == self@.dont_patch_elf(),
    {
        proof {
            reveal(StdenvBuilder::view);
        }
        let mut b = self;
        b.fix.patch_elf = false;
        b
    }

    /// Sets the script that runs before the fix-up.
    pub fn pre_fix(self, pre_fix: &str) -> (b: StdenvBuilder)
        ensures
            b@ == self@.pre_fix(pre_fix@),
    {
        proof {
            reveal(StdenvBuilder::view);
        }
        let mut b = self;
        b.fix.pre_fix = Some(String::from_str(pre_fix));
        b
    }

    /// Replaces the phase's own script.
    pub fn fix_phase(self, fix_phase: &str) -> (b: StdenvBuilder)
        ensures
            b@ == self@.fix_phase(fix_phase@),
    {
        proof {
            reveal(StdenvBuilder::view);
        }
        let mut b = self;
        b.fix.fix_phase = Some(String::from_str(fix_phase));
        b
    }

    /// Sets the script that runs after the fix-up.
    pub fn post_fix(self, post_fix: &str) -> (b: StdenvBuilder)
        ensures
            b@ == self@.post_fix(post_fix@),
    {
        proof {
            reveal(StdenvBuilder::view);
        }
        let mut b = self;
        b.fix.post_fix = Some(String::from_str(post_fix));
        b
    }
}

} // verus!

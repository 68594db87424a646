//! The patch phase: applies patches to the unpacked sources.

use crate::drv::DrvBuilder;
use crate::expr::{exprs_view, Binding, Expr, ExprView};
use crate::stdenv::generic::builder::{StdenvBuilder, StdenvBuilderView};
use crate::stdenv::generic::names::lemma_codes;
use crate::vars::{
    binds, lemma_value_of_binds, lemma_value_of_one, lemma_value_of_opt, opt_var, str_opt, str_var,
    value_of,
};
use vstd::prelude::*;

verus! {

/// The patch phase: applies patches to the unpacked sources.
#[derive(Debug, PartialEq, Eq)]
pub struct PatchPhase {
    pub patch: bool,
    pub patches: Vec<Expr>,
    pub patch_flags: Option<String>,
    pub pre_patch: Option<String>,
    pub patch_phase: Option<String>,
    pub post_patch: Option<String>,
}

/// `PatchPhase` as a mathematical value: every string a sequence of characters,
/// every list a sequence.
pub struct PatchPhaseView {
    pub patch: bool,
    pub patches: Seq<ExprView>,
    pub patch_flags: Option<Seq<char>>,
    pub pre_patch: Option<Seq<char>>,
    pub patch_phase: Option<Seq<char>>,
    pub post_patch: Option<Seq<char>>,
}

impl PatchPhaseView {
    /// The phase as a fresh builder holds it: switched on, nothing else set.
    pub open spec fn new() -> PatchPhaseView {
        PatchPhaseView {
            patch: true,
            patches: Seq::empty(),
            patch_flags: None,
            pre_patch: None,
            patch_phase: None,
            post_patch: None,
        }
    }

    /// The value of `PATCHES`: the list of patches, or nothing where no
    /// patch was added.
    pub open spec fn patch_list(self) -> Option<ExprView> {
        if self.patches.len() > 0 {
            Some(ExprView::List(self.patches))
        } else {
            None
        }
    }

    /// The variables of the phase in their fixed order: the switch, then
    /// each field that is set. A phase that is switched off has none.
    pub open spec fn vars(self) -> Seq<Binding> {
        if self.patch {
            seq![("PATCH"@, ExprView::Str("1"@))]
                + opt_var("PATCHES"@, self.patch_list())
                + str_var("PATCH_FLAGS"@, self.patch_flags)
                + str_var("PRE_PATCH"@, self.pre_patch)
                + str_var("PATCH_PHASE"@, self.patch_phase)
                + str_var("POST_PATCH"@, self.post_patch)
        } else {
            Seq::empty()
        }
    }

    /// Whether `name` is one of the variables of the phase.
    pub open spec fn owns(name: Seq<char>) -> bool {
        name == "PATCH"@
            || name == "PATCHES"@
            || name == "PATCH_FLAGS"@
            || name == "PRE_PATCH"@
            || name == "PATCH_PHASE"@
            || name == "POST_PATCH"@
    }

    /// What the phase binds the variable `name` to. That is nothing where
    /// the phase is switched off, where the field behind the variable is
    /// not set, and where the variable is none of the phase's.
    pub open spec fn value(self, name: Seq<char>) -> Option<ExprView> {
        if !self.patch {
            None
        } else if name == "PATCH"@ {
            Some(ExprView::Str("1"@))
        } else if name == "PATCHES"@ {
            self.patch_list()
        } else if name == "PATCH_FLAGS"@ {
            str_opt(self.patch_flags)
        } else if name == "PRE_PATCH"@ {
            str_opt(self.pre_patch)
        } else if name == "PATCH_PHASE"@ {
            str_opt(self.patch_phase)
        } else if name == "POST_PATCH"@ {
            str_opt(self.post_patch)
        } else {
            None
        }
    }
}

/// The variables of the phase say what `value` says, of every name: a
/// variable of the phase has the value of its field, and no other name
/// is bound.
pub proof fn lemma_patch_vars(p: PatchPhaseView, name: Seq<char>)
    ensures
        value_of(p.vars(), name) == p.value(name),
        p.value(name) is Some ==> PatchPhaseView::owns(name),
{
    lemma_codes();
    if p.patch {
        let vars = seq![("PATCH"@, ExprView::Str("1"@))];
        lemma_value_of_one("PATCH"@, ExprView::Str("1"@), name);
        lemma_value_of_opt(vars, "PATCHES"@, p.patch_list(), name);
        let vars = vars + opt_var("PATCHES"@, p.patch_list());
        lemma_value_of_opt(vars, "PATCH_FLAGS"@, str_opt(p.patch_flags), name);
        let vars = vars + opt_var("PATCH_FLAGS"@, str_opt(p.patch_flags));
        lemma_value_of_opt(vars, "PRE_PATCH"@, str_opt(p.pre_patch), name);
        let vars = vars + opt_var("PRE_PATCH"@, str_opt(p.pre_patch));
        lemma_value_of_opt(vars, "PATCH_PHASE"@, str_opt(p.patch_phase), name);
        let vars = vars + opt_var("PATCH_PHASE"@, str_opt(p.patch_phase));
        lemma_value_of_opt(vars, "POST_PATCH"@, str_opt(p.post_patch), name);
    } else {
        assert(value_of(Seq::<Binding>::empty(), name) is None);
    }
}

/// A field of the phase that is not set leaves its variable out: the
/// variable is not bound, not to an empty value either. A phase that is
/// switched off binds no variable at all.
pub proof fn law_patch_unset_is_absent(p: PatchPhaseView)
    ensures
        p.patches.len() == 0 ==> !binds(p.vars(), "PATCHES"@),
        p.patch_flags is None ==> !binds(p.vars(), "PATCH_FLAGS"@),
        p.pre_patch is None ==> !binds(p.vars(), "PRE_PATCH"@),
        p.patch_phase is None ==> !binds(p.vars(), "PATCH_PHASE"@),
        p.post_patch is None ==> !binds(p.vars(), "POST_PATCH"@),
        !p.patch ==> forall|name: Seq<char>| !binds(p.vars(), name),
{
    lemma_codes();
    lemma_patch_vars(p, "PATCHES"@);
    lemma_value_of_binds(p.vars(), "PATCHES"@);
    lemma_patch_vars(p, "PATCH_FLAGS"@);
    lemma_value_of_binds(p.vars(), "PATCH_FLAGS"@);
    lemma_patch_vars(p, "PRE_PATCH"@);
    lemma_value_of_binds(p.vars(), "PRE_PATCH"@);
    lemma_patch_vars(p, "PATCH_PHASE"@);
    lemma_value_of_binds(p.vars(), "PATCH_PHASE"@);
    lemma_patch_vars(p, "POST_PATCH"@);
    lemma_value_of_binds(p.vars(), "POST_PATCH"@);
}

impl View for PatchPhase {
    type V = PatchPhaseView;

    open spec fn view(&self) -> PatchPhaseView {
        PatchPhaseView {
            patch: self.patch,
            patches: exprs_view(self.patches@),
            patch_flags: self.patch_flags.deep_view(),
            pre_patch: self.pre_patch.deep_view(),
            patch_phase: self.patch_phase.deep_view(),
            post_patch: self.post_patch.deep_view(),
        }
    }
}

impl PatchPhase {
    /// The phase switched on, with nothing else set.
    pub fn new() -> (p: PatchPhase)
        ensures
            p@ == PatchPhaseView::new(),
    {
        let p = PatchPhase {
            patch: true,
            patches: Vec::new(),
            patch_flags: None,
            pre_patch: None,
            patch_phase: None,
            post_patch: None,
        };
        assert(p@.patches =~= Seq::empty());
        p
    }

    /// Binds the variables of the phase after those that `builder` holds
    /// already. A phase that is switched off leaves `builder` as it is.
    pub fn build(self, builder: DrvBuilder) -> (b: DrvBuilder)
        ensures
            b@ == builder@.inputs(self@.vars()),
    {
        if self.patch {
            let patches = if self.patches.len() > 0 {
                Some(Expr::list(self.patches))
            } else {
                None
            };
            let b = builder
                .input("PATCH", Expr::str("1"))
                .input_if("PATCHES", patches)
                .input_if("PATCH_FLAGS", Expr::opt_string(self.patch_flags))
                .input_if("PRE_PATCH", Expr::opt_string(self.pre_patch))
                .input_if("PATCH_PHASE", Expr::opt_string(self.patch_phase))
                .input_if("POST_PATCH", Expr::opt_string(self.post_patch));
            assert(b@.inputs =~= builder@.inputs + self@.vars());
            b
        } else {
            assert(builder@.inputs + Seq::<Binding>::empty() =~= builder@.inputs);
            builder
        }
    }
}

impl Default for PatchPhase {
    fn default() -> (p: PatchPhase)
        ensures
            p@ == PatchPhaseView::new(),
    {
        PatchPhase::new()
    }
}

impl StdenvBuilderView {
    pub open spec fn dont_patch(self) -> StdenvBuilderView {
        StdenvBuilderView { patch: PatchPhaseView { patch: false, ..self.patch }, ..self }
    }

    pub open spec fn patch(self, patch: ExprView) -> StdenvBuilderView {
        StdenvBuilderView {
            patch: PatchPhaseView { patches: self.patch.patches.push(patch), ..self.patch },
            ..self
        }
    }

    pub open spec fn patch_flags(self, patch_flags: Seq<char>) -> StdenvBuilderView {
        StdenvBuilderView { patch: PatchPhaseView { patch_flags: Some(patch_flags), ..self.patch }, ..self }
    }

    pub open spec fn pre_patch(self, pre_patch: Seq<char>) -> StdenvBuilderView {
        StdenvBuilderView { patch: PatchPhaseView { pre_patch: Some(pre_patch), ..self.patch }, ..self }
    }

    pub open spec fn patch_phase(self, patch_phase: Seq<char>) -> StdenvBuilderView {
        StdenvBuilderView { patch: PatchPhaseView { patch_phase: Some(patch_phase), ..self.patch }, ..self }
    }

    pub open spec fn post_patch(self, post_patch: Seq<char>) -> StdenvBuilderView {
        StdenvBuilderView { patch: PatchPhaseView { post_patch: Some(post_patch), ..self.patch }, ..self }
    }
}

impl StdenvBuilder {
    /// Switches the patch phase off.
    pub fn dont_patch(self) -> (b: StdenvBuilder)
        ensures
            b@ == self@.dont_patch(),
            b@.patch.vars() == Seq::<Binding>::empty(),
    {
        proof {
            reveal(StdenvBuilder::view);
        }
        let mut b = self;
        b.patch.patch = false;
        b
    }

    /// Adds one patch file, applied after those added before.
    pub fn patch(self, patch: Expr) -> (b: StdenvBuilder)
        ensures
            b@ == self@.patch(patch@),
    {
        proof {
            reveal(StdenvBuilder::view);
        }
        let mut b = self;
        b.patch.patches.push(patch);
        assert(exprs_view(b.patch.patches@) =~= self@.patch.patches.push(patch@));
        b
    }

    /// Sets the flags handed to the patch tool.
    pub fn patch_flags(self, patch_flags: &str) -> (b: StdenvBuilder)
        ensures
            b@ == self@.patch_flags(patch_flags@),
    {
        proof {
            reveal(StdenvBuilder::view);
        }
        let mut b = self;
        b.patch.patch_flags = Some(String::from_str(patch_flags));
        b
    }

    /// Sets the script that runs before the patches are applied.
    pub fn pre_patch(self, pre_patch: &str) -> (b: StdenvBuilder)
        ensures
            b@ == self@.pre_patch(pre_patch@),
    {
        proof {
            reveal(StdenvBuilder::view);
        }
        let mut b = self;
        b.patch.pre_patch = Some(String::from_str(pre_patch));
        b
    }

    /// Replaces the phase's own script.
    pub fn patch_phase(self, patch_phase: &str) -> (b: StdenvBuilder)
        ensures
            b@ == self@.patch_phase(patch_phase@),
    {
        proof {
            reveal(StdenvBuilder::view);
        }
        let mut b = self;
        b.patch.patch_phase = Some(String::from_str(patch_phase));
        b
    }

    /// Sets the script that runs after the patches are applied.
    pub fn post_patch(self, post_patch: &str) -> (b: StdenvBuilder)
        ensures
            b@ == self@.post_patch(post_patch@),
    {
        proof {
            reveal(StdenvBuilder::view);
        }
        let mut b = self;
        b.patch.post_patch = Some(String::from_str(post_patch));
        b
    }
}

} // verus!

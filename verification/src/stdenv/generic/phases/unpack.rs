//! The unpack phase: brings the sources into the build directory.

use crate::drv::DrvBuilder;
use crate::expr::{Binding, Expr, ExprView};
use crate::stdenv::generic::builder::{StdenvBuilder, StdenvBuilderView};
use crate::stdenv::generic::names::lemma_codes;
use crate::vars::{
    binds, lemma_value_of_binds, lemma_value_of_one, lemma_value_of_opt, opt_var, str_opt, str_var,
    value_of,
};
use vstd::prelude::*;

verus! {

/// The unpack phase: brings the sources into the build directory.
#[derive(Debug, PartialEq, Eq)]
pub struct UnpackPhase {
    pub unpack: bool,
    pub src_root: Option<String>,
    pub pre_unpack: Option<String>,
    pub unpack_phase: Option<String>,
    pub post_unpack: Option<String>,
}

/// `UnpackPhase` as a mathematical value: every string a sequence of characters,
/// every list a sequence.
pub struct UnpackPhaseView {
    pub unpack: bool,
    pub src_root: Option<Seq<char>>,
    pub pre_unpack: Option<Seq<char>>,
    pub unpack_phase: Option<Seq<char>>,
    pub post_unpack: Option<Seq<char>>,
}

impl UnpackPhaseView {
    /// The phase as a fresh builder holds it: switched on, nothing else set.
    pub open spec fn new() -> UnpackPhaseView {
        UnpackPhaseView {
            unpack: true,
            src_root: None,
            pre_unpack: None,
            unpack_phase: None,
            post_unpack: None,
        }
    }

    /// The variables of the phase in their fixed order: the switch, then
    /// each field that is set. A phase that is switched off has none.
    pub open spec fn vars(self) -> Seq<Binding> {
        if self.unpack {
            seq![("UNPACK"@, ExprView::Str("1"@))]
                + str_var("SRC_ROOT"@, self.src_root)
                + str_var("PRE_UNPACK"@, self.pre_unpack)
                + str_var("UNPACK_PHASE"@, self.unpack_phase)
                + str_var("POST_UNPACK"@, self.post_unpack)
        } else {
            Seq::empty()
        }
    }

    /// Whether `name` is one of the variables of the phase.
    pub open spec fn owns(name: Seq<char>) -> bool {
        name == "UNPACK"@
            || name == "SRC_ROOT"@
            || name == "PRE_UNPACK"@
            || name == "UNPACK_PHASE"@
            || name == "POST_UNPACK"@
    }

    /// What the phase binds the variable `name` to. That is nothing where
    /// the phase is switched off, where the field behind the variable is
    /// not set, and where the variable is none of the phase's.
    pub open spec fn value(self, name: Seq<char>) -> Option<ExprView> {
        if !self.unpack {
            None
        } else if name == "UNPACK"@ {
            Some(ExprView::Str("1"@))
        } else if name == "SRC_ROOT"@ {
            str_opt(self.src_root)
        } else if name == "PRE_UNPACK"@ {
            str_opt(self.pre_unpack)
        } else if name == "UNPACK_PHASE"@ {
            str_opt(self.unpack_phase)
        } else if name == "POST_UNPACK"@ {
            str_opt(self.post_unpack)
        } else {
            None
        }
    }
}

/// The variables of the phase say what `value` says, of every name: a
/// variable of the phase has the value of its field, and no other name
/// is bound.
pub proof fn lemma_unpack_vars(p: UnpackPhaseView, name: Seq<char>)
    ensures
        value_of(p.vars(), name) == p.value(name),
        p.value(name) is Some ==> UnpackPhaseView::owns(name),
{
    lemma_codes();
    if p.unpack {
        let vars = seq![("UNPACK"@, ExprView::Str("1"@))];
        lemma_value_of_one("UNPACK"@, ExprView::Str("1"@), name);
        lemma_value_of_opt(vars, "SRC_ROOT"@, str_opt(p.src_root), name);
        let vars = vars + opt_var("SRC_ROOT"@, str_opt(p.src_root));
        lemma_value_of_opt(vars, "PRE_UNPACK"@, str_opt(p.pre_unpack), name);
        let vars = vars + opt_var("PRE_UNPACK"@, str_opt(p.pre_unpack));
        lemma_value_of_opt(vars, "UNPACK_PHASE"@, str_opt(p.unpack_phase), name);
        let vars = vars + opt_var("UNPACK_PHASE"@, str_opt(p.unpack_phase));
        lemma_value_of_opt(vars, "POST_UNPACK"@, str_opt(p.post_unpack), name);
    } else {
        assert(value_of(Seq::<Binding>::empty(), name) is None);
    }
}

/// A field of the phase that is not set leaves its variable out: the
/// variable is not bound, not to an empty value either. A phase that is
/// switched off binds no variable at all.
pub proof fn law_unpack_unset_is_absent(p: UnpackPhaseView)
    ensures
        p.src_root is None ==> !binds(p.vars(), "SRC_ROOT"@),
        p.pre_unpack is None ==> !binds(p.vars(), "PRE_UNPACK"@),
        p.unpack_phase is None ==> !binds(p.vars(), "UNPACK_PHASE"@),
        p.post_unpack is None ==> !binds(p.vars(), "POST_UNPACK"@),
        !p.unpack ==> forall|name: Seq<char>| !binds(p.vars(), name),
{
    lemma_codes();
    lemma_unpack_vars(p, "SRC_ROOT"@);
    lemma_value_of_binds(p.vars(), "SRC_ROOT"@);
    lemma_unpack_vars(p, "PRE_UNPACK"@);
    lemma_value_of_binds(p.vars(), "PRE_UNPACK"@);
    lemma_unpack_vars(p, "UNPACK_PHASE"@);
    lemma_value_of_binds(p.vars(), "UNPACK_PHASE"@);
    lemma_unpack_vars(p, "POST_UNPACK"@);
    lemma_value_of_binds(p.vars(), "POST_UNPACK"@);
}

impl View for UnpackPhase {
    type V = UnpackPhaseView;

    open spec fn view(&self) -> UnpackPhaseView {
        UnpackPhaseView {
            unpack: self.unpack,
            src_root: self.src_root.deep_view(),
            pre_unpack: self.pre_unpack.deep_view(),
            unpack_phase: self.unpack_phase.deep_view(),
            post_unpack: self.post_unpack.deep_view(),
        }
    }
}

impl UnpackPhase {
    /// The phase switched on, with nothing else set.
    pub fn new() -> (p: UnpackPhase)
        ensures
            p@ == UnpackPhaseView::new(),
    {
        UnpackPhase {
            unpack: true,
            src_root: None,
            pre_unpack: None,
            unpack_phase: None,
            post_unpack: None,
        }
    }

    /// Binds the variables of the phase after those that `builder` holds
    /// already. A phase that is switched off leaves `builder` as it is.
    pub fn build(self, builder: DrvBuilder) -> (b: DrvBuilder)
        ensures
            b@ == builder@.inputs(self@.vars()),
    {
        if self.unpack {
            let b = builder
                .input("UNPACK", Expr::str("1"))
                .input_if("SRC_ROOT", Expr::opt_string(self.src_root))
                .input_if("PRE_UNPACK", Expr::opt_string(self.pre_unpack))
                .input_if("UNPACK_PHASE", Expr::opt_string(self.unpack_phase))
                .input_if("POST_UNPACK", Expr::opt_string(self.post_unpack));
            assert(b@.inputs =~= builder@.inputs + self@.vars());
            b
        } else {
            assert(builder@.inputs + Seq::<Binding>::empty() =~= builder@.inputs);
            builder
        }
    }
}

impl Default for UnpackPhase {
    fn default() -> (p: UnpackPhase)
        ensures
            p@ == UnpackPhaseView::new(),
    {
        UnpackPhase::new()
    }
}

impl StdenvBuilderView {
    pub open spec fn dont_unpack(self) -> StdenvBuilderView {
        StdenvBuilderView { unpack: UnpackPhaseView { unpack: false, ..self.unpack }, ..self }
    }

    pub open spec fn src_root(self, src_root: Seq<char>) -> StdenvBuilderView {
        StdenvBuilderView { unpack: UnpackPhaseView { src_root: Some(src_root), ..self.unpack }, ..self }
    }

    pub open spec fn pre_unpack(self, pre_unpack: Seq<char>) -> StdenvBuilderView {
        StdenvBuilderView { unpack: UnpackPhaseView { pre_unpack: Some(pre_unpack), ..self.unpack }, ..self }
    }

    pub open spec fn unpack_phase(self, unpack_phase: Seq<char>) -> StdenvBuilderView {
        StdenvBuilderView { unpack: UnpackPhaseView { unpack_phase: Some(unpack_phase), ..self.unpack }, ..self }
    }

    pub open spec fn post_unpack(self, post_unpack: Seq<char>) -> StdenvBuilderView {
        StdenvBuilderView { unpack: UnpackPhaseView { post_unpack: Some(post_unpack), ..self.unpack }, ..self }
    }
}

impl StdenvBuilder {
    /// Switches the unpack phase off.
    pub fn dont_unpack(self) -> (b: StdenvBuilder)
        ensures
            b@ == self@.dont_unpack(),
            b@.unpack.vars() == Seq::<Binding>::empty(),
    {
        proof {
            reveal(StdenvBuilder::view);
        }
        let mut b = self;
        b.unpack.unpack = false;
        b
    }

    /// Names the directory of the unpacked sources where the phase cannot
    /// guess it.
    pub fn src_root(self, src_root: &str) -> (b: StdenvBuilder)
        ensures
            b@ == self@.src_root(src_root@),
    {
        proof {
            reveal(StdenvBuilder::view);
        }
        let mut b = self;
        b.unpack.src_root = Some(String::from_str(src_root));
        b
    }

    /// Sets the script that runs before the sources are unpacked.
    pub fn pre_unpack(self, pre_unpack: &str) -> (b: StdenvBuilder)
        ensures
            b@ == self@.pre_unpack(pre_unpack@),
    {
        proof {
            reveal(StdenvBuilder::view);
        }
        let mut b = self;
        b.unpack.pre_unpack = Some(String::from_str(pre_unpack));
        b
    }

    /// Replaces the phase's own script.
    pub fn unpack_phase(self, unpack_phase: &str) -> (b: StdenvBuilder)
        ensures
            b@ == self@.unpack_phase(unpack_phase@),
    {
        proof {
            reveal(StdenvBuilder::view);
        }
        let mut b = self;
        b.unpack.unpack_phase = Some(String::from_str(unpack_phase));
        b
    }

    /// Sets the script that runs after the sources are unpacked.
    pub fn post_unpack(self, post_unpack: &str) -> (b: StdenvBuilder)
        ensures
            b@ == self@.post_unpack(post_unpack@),
    {
        proof {
            reveal(StdenvBuilder::view);
        }
        let mut b = self;
        b.unpack.post_unpack = Some(String::from_str(post_unpack));
        b
    }
}

} // verus!

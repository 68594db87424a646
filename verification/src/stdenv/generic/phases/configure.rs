//! The configure phase: prepares the source tree for the build.

use crate::drv::DrvBuilder;
use crate::expr::{Binding, Expr, ExprView};
use crate::stdenv::generic::builder::{StdenvBuilder, StdenvBuilderView};
use crate::stdenv::generic::names::lemma_codes;
use crate::vars::{
    binds, lemma_value_of_binds, lemma_value_of_one, lemma_value_of_opt, opt_var, str_opt, str_var,
    value_of,
};
use vstd::prelude::*;

verus! {

/// The configure phase: prepares the source tree for the build.
#[derive(Debug, PartialEq, Eq)]
pub struct ConfigurePhase {
    pub configure: bool,
    pub configure_script: Option<String>,
    pub configure_flags: Option<String>,
    pub pre_configure: Option<String>,
    pub configure_phase: Option<String>,
    pub post_configure: Option<String>,
}

/// `ConfigurePhase` as a mathematical value: every string a sequence of characters,
/// every list a sequence.
pub struct ConfigurePhaseView {
    pub configure: bool,
    pub configure_script: Option<Seq<char>>,
    pub configure_flags: Option<Seq<char>>,
    pub pre_configure: Option<Seq<char>>,
    pub configure_phase: Option<Seq<char>>,
    pub post_configure: Option<Seq<char>>,
}

impl ConfigurePhaseView {
    /// The phase as a fresh builder holds it: switched on, nothing else set.
    pub open spec fn new() -> ConfigurePhaseView {
        ConfigurePhaseView {
            configure: true,
            configure_script: None,
            configure_flags: None,
            pre_configure: None,
            configure_phase: None,
            post_configure: None,
        }
    }

    /// The variables of the phase in their fixed order: the switch, then
    /// each field that is set. A phase that is switched off has none.
    pub open spec fn vars(self) -> Seq<Binding> {
        if self.configure {
            seq![("CONFIGURE"@, ExprView::Str("1"@))]
                + str_var("CONFIGURE_SCRIPT"@, self.configure_script)
                + str_var("CONFIGURE_FLAGS"@, self.configure_flags)
                + str_var("PRE_CONFIGURE"@, self.pre_configure)
                + str_var("CONFIGURE_PHASE"@, self.configure_phase)
                + str_var("POST_CONFIGURE"@, self.post_configure)
        } else {
            Seq::empty()
        }
    }

    /// Whether `name` is one of the variables of the phase.
    pub open spec fn owns(name: Seq<char>) -> bool {
        name == "CONFIGURE"@
            || name == "CONFIGURE_SCRIPT"@
            || name == "CONFIGURE_FLAGS"@
            || name == "PRE_CONFIGURE"@
            || name == "CONFIGURE_PHASE"@
            || name == "POST_CONFIGURE"@
    }

    /// What the phase binds the variable `name` to. That is nothing where
    /// the phase is switched off, where the field behind the variable is
    /// not set, and where the variable is none of the phase's.
    pub open spec fn value(self, name: Seq<char>) -> Option<ExprView> {
        if !self.configure {
            None
        } else if name == "CONFIGURE"@ {
            Some(ExprView::Str("1"@))
        } else if name == "CONFIGURE_SCRIPT"@ {
            str_opt(self.configure_script)
        } else if name == "CONFIGURE_FLAGS"@ {
            str_opt(self.configure_flags)
        } else if name == "PRE_CONFIGURE"@ {
            str_opt(self.pre_configure)
        } else if name == "CONFIGURE_PHASE"@ {
            str_opt(self.configure_phase)
        } else if name == "POST_CONFIGURE"@ {
            str_opt(self.post_configure)
        } else {
            None
        }
    }
}

/// The variables of the phase say what `value` says, of every name: a
/// variable of the phase has the value of its field, and no other name
/// is bound.
pub proof fn lemma_configure_vars(p: ConfigurePhaseView, name: Seq<char>)
    ensures
        value_of(p.vars(), name) == p.value(name),
        p.value(name) is Some ==> ConfigurePhaseView::owns(name),
{
    lemma_codes();
    if p.configure {
        let vars = seq![("CONFIGURE"@, ExprView::Str("1"@))];
        lemma_value_of_one("CONFIGURE"@, ExprView::Str("1"@), name);
        lemma_value_of_opt(vars, "CONFIGURE_SCRIPT"@, str_opt(p.configure_script), name);
        let vars = vars + opt_var("CONFIGURE_SCRIPT"@, str_opt(p.configure_script));
        lemma_value_of_opt(vars, "CONFIGURE_FLAGS"@, str_opt(p.configure_flags), name);
        let vars = vars + opt_var("CONFIGURE_FLAGS"@, str_opt(p.configure_flags));
        lemma_value_of_opt(vars, "PRE_CONFIGURE"@, str_opt(p.pre_configure), name);
        let vars = vars + opt_var("PRE_CONFIGURE"@, str_opt(p.pre_configure));
        lemma_value_of_opt(vars, "CONFIGURE_PHASE"@, str_opt(p.configure_phase), name);
        let vars = vars + opt_var("CONFIGURE_PHASE"@, str_opt(p.configure_phase));
        lemma_value_of_opt(vars, "POST_CONFIGURE"@, str_opt(p.post_configure), name);
    } else {
        assert(value_of(Seq::<Binding>::empty(), name) is None);
    }
}

/// A field of the phase that is not set leaves its variable out: the
/// variable is not bound, not to an empty value either. A phase that is
/// switched off binds no variable at all.
pub proof fn law_configure_unset_is_absent(p: ConfigurePhaseView)
    ensures
        p.configure_script is None ==> !binds(p.vars(), "CONFIGURE_SCRIPT"@),
        p.configure_flags is None ==> !binds(p.vars(), "CONFIGURE_FLAGS"@),
        p.pre_configure is None ==> !binds(p.vars(), "PRE_CONFIGURE"@),
        p.configure_phase is None ==> !binds(p.vars(), "CONFIGURE_PHASE"@),
        p.post_configure is None ==> !binds(p.vars(), "POST_CONFIGURE"@),
        !p.configure ==> forall|name: Seq<char>| !binds(p.vars(), name),
{
    lemma_codes();
    lemma_configure_vars(p, "CONFIGURE_SCRIPT"@);
    lemma_value_of_binds(p.vars(), "CONFIGURE_SCRIPT"@);
    lemma_configure_vars(p, "CONFIGURE_FLAGS"@);
    lemma_value_of_binds(p.vars(), "CONFIGURE_FLAGS"@);
    lemma_configure_vars(p, "PRE_CONFIGURE"@);
    lemma_value_of_binds(p.vars(), "PRE_CONFIGURE"@);
    lemma_configure_vars(p, "CONFIGURE_PHASE"@);
    lemma_value_of_binds(p.vars(), "CONFIGURE_PHASE"@);
    lemma_configure_vars(p, "POST_CONFIGURE"@);
    lemma_value_of_binds(p.vars(), "POST_CONFIGURE"@);
}

impl View for ConfigurePhase {
    type V = ConfigurePhaseView;

    open spec fn view(&self) -> ConfigurePhaseView {
        ConfigurePhaseView {
            configure: self.configure,
            configure_script: self.configure_script.deep_view(),
            configure_flags: self.configure_flags.deep_view(),
            pre_configure: self.pre_configure.deep_view(),
            configure_phase: self.configure_phase.deep_view(),
            post_configure: self.post_configure.deep_view(),
        }
    }
}

impl ConfigurePhase {
    /// The phase switched on, with nothing else set.
    pub fn new() -> (p: ConfigurePhase)
        ensures
            p@ == ConfigurePhaseView::new(),
    {
        ConfigurePhase {
            configure: true,
            configure_script: None,
            configure_flags: None,
            pre_configure: None,
            configure_phase: None,
            post_configure: None,
        }
    }

    /// Binds the variables of the phase after those that `builder` holds
    /// already. A phase that is switched off leaves `builder` as it is.
    pub fn build(self, builder: DrvBuilder) -> (b: DrvBuilder)
        ensures
            b@ == builder@.inputs(self@.vars()),
    {
        if self.configure {
            let b = builder
                .input("CONFIGURE", Expr::str("1"))
                .input_if("CONFIGURE_SCRIPT", Expr::opt_string(self.configure_script))
                .input_if("CONFIGURE_FLAGS", Expr::opt_string(self.configure_flags))
                .input_if("PRE_CONFIGURE", Expr::opt_string(self.pre_configure))
                .input_if("CONFIGURE_PHASE", Expr::opt_string(self.configure_phase))
                .input_if("POST_CONFIGURE", Expr::opt_string(self.post_configure));
            assert(b@.inputs =~= builder@.inputs + self@.vars());
            b
        } else {
            assert(builder@.inputs + Seq::<Binding>::empty() =~= builder@.inputs);
            builder
        }
    }
}

impl Default for ConfigurePhase {
    fn default() -> (p: ConfigurePhase)
        ensures
            p@ == ConfigurePhaseView::new(),
    {
        ConfigurePhase::new()
    }
}

impl StdenvBuilderView {
    pub open spec fn dont_configure(self) -> StdenvBuilderView {
        StdenvBuilderView { configure: ConfigurePhaseView { configure: false, ..self.configure }, ..self }
    }

    pub open spec fn configure_script(self, configure_script: Seq<char>) -> StdenvBuilderView {
        StdenvBuilderView { configure: ConfigurePhaseView { configure_script: Some(configure_script), ..self.configure }, ..self }
    }

    pub open spec fn configure_flags(self, configure_flags: Seq<char>) -> StdenvBuilderView {
        StdenvBuilderView { configure: ConfigurePhaseView { configure_flags: Some(configure_flags), ..self.configure }, ..self }
    }

    pub open spec fn pre_configure(self, pre_configure: Seq<char>) -> StdenvBuilderView {
        StdenvBuilderView { configure: ConfigurePhaseView { pre_configure: Some(pre_configure), ..self.configure }, ..self }
    }

    pub open spec fn configure_phase(self, configure_phase: Seq<char>) -> StdenvBuilderView {
        StdenvBuilderView { configure: ConfigurePhaseView { configure_phase: Some(configure_phase), ..self.configure }, ..self }
    }

    pub open spec fn post_configure(self, post_configure: Seq<char>) -> StdenvBuilderView {
        StdenvBuilderView { configure: ConfigurePhaseView { post_configure: Some(post_configure), ..self.configure }, ..self }
    }
}

impl StdenvBuilder {
    /// Switches the configure phase off.
    pub fn dont_configure(self) -> (b: StdenvBuilder)
        ensures
            b@ == self@.dont_configure(),
            b@.configure.vars() == Seq::<Binding>::empty(),
    {
        proof {
            reveal(StdenvBuilder::view);
        }
        let mut b = self;
        b.configure.configure = false;
        b
    }

    /// Names the configure script where it is not the usual one.
    pub fn configure_script(self, configure_script: &str) -> (b: StdenvBuilder)
        ensures
            b@ == self@.configure_script(configure_script@),
    {
        proof {
            reveal(StdenvBuilder::view);
        }
        let mut b = self;
        b.configure.configure_script = Some(String::from_str(configure_script));
        b
    }

    /// Sets the flags handed to the configure script.
    pub fn configure_flags(self, configure_flags: &str) -> (b: StdenvBuilder)
        ensures
            b@ == self@.configure_flags(configure_flags@),
    {
        proof {
            reveal(StdenvBuilder::view);
        }
        let mut b = self;
        b.configure.configure_flags = Some(String::from_str(configure_flags));
        b
    }

    /// Sets the script that runs before the configure script.
    pub fn pre_configure(self, pre_configure: &str) -> (b: StdenvBuilder)
        ensures
            b@ == self@.pre_configure(pre_configure@),
    {
        proof {
            reveal(StdenvBuilder::view);
        }
        let mut b = self;
        b.configure.pre_configure = Some(String::from_str(pre_configure));
        b
    }

    /// Replaces the phase's own script.
    pub fn configure_phase(self, configure_phase: &str) -> (b: StdenvBuilder)
        ensures
            b@ == self@.configure_phase(configure_phase@),
    {
        proof {
            reveal(StdenvBuilder::view);
        }
        let mut b = self;
        b.configure.configure_phase = Some(String::from_str(configure_phase));
        b
    }

    /// Sets the script that runs after the configure script.
    pub fn post_configure(self, post_configure: &str) -> (b: StdenvBuilder)
        ensures
            b@ == self@.post_configure(post_configure@),
    {
        proof {
            reveal(StdenvBuilder::view);
        }
        let mut b = self;
        b.configure.post_configure = Some(String::from_str(post_configure));
        b
    }
}

} // verus!

//! The dependency matrix.
//!
//! A dependency is classed by the platform it runs on and the platform it
//! produces for, each one of build, host and target, the first not after the
//! second. That leaves six slots.

use crate::drv::DrvBuilder;
use crate::expr::{exprs_view, Binding, Expr, ExprView};
use crate::stdenv::generic::builder::{StdenvBuilder, StdenvBuilderView};
use crate::stdenv::generic::names::lemma_codes;
use crate::vars::{lemma_value_of_one, lemma_value_of_opt, opt_var, value_of};
use vstd::prelude::*;

verus! {

/// One slot of the matrix: where the dependency runs, then what it
/// produces for.
#[derive(Clone, Copy, Debug, PartialEq, Eq, Structural)]
pub enum Slot {
    BuildBuild,
    BuildHost,
    BuildTarget,
    HostHost,
    HostTarget,
    TargetTarget,
}

/// The dependencies of one step by slot, each slot in the order of
/// addition.
#[derive(Debug, PartialEq, Eq)]
pub struct Deps {
    pub build_build: Vec<Expr>,
    pub build_host: Vec<Expr>,
    pub build_target: Vec<Expr>,
    pub host_host: Vec<Expr>,
    pub host_target: Vec<Expr>,
    pub target_target: Vec<Expr>,
}

/// `Deps` as a mathematical value: every string a sequence of characters,
/// every list a sequence.
pub struct DepsView {
    pub build_build: Seq<ExprView>,
    pub build_host: Seq<ExprView>,
    pub build_target: Seq<ExprView>,
    pub host_host: Seq<ExprView>,
    pub host_target: Seq<ExprView>,
    pub target_target: Seq<ExprView>,
}

impl Slot {
    /// The variable that carries the slot: `DEPS_*` for the plain matrix,
    /// `PROPAGATED_*` for the propagated one.
    pub open spec fn var(self, propagated: bool) -> Seq<char> {
        if propagated {
            match self {
                Slot::BuildBuild => "PROPAGATED_BUILD_BUILD"@,
                Slot::BuildHost => "PROPAGATED_BUILD_HOST"@,
                Slot::BuildTarget => "PROPAGATED_BUILD_TARGET"@,
                Slot::HostHost => "PROPAGATED_HOST_HOST"@,
                Slot::HostTarget => "PROPAGATED_HOST_TARGET"@,
                Slot::TargetTarget => "PROPAGATED_TARGET_TARGET"@,
            }
        } else {
            match self {
                Slot::BuildBuild => "DEPS_BUILD_BUILD"@,
                Slot::BuildHost => "DEPS_BUILD_HOST"@,
                Slot::BuildTarget => "DEPS_BUILD_TARGET"@,
                Slot::HostHost => "DEPS_HOST_HOST"@,
                Slot::HostTarget => "DEPS_HOST_TARGET"@,
                Slot::TargetTarget => "DEPS_TARGET_TARGET"@,
            }
        }
    }
}

impl DepsView {
    /// The matrix with every slot empty.
    pub open spec fn new() -> DepsView {
        DepsView {
            build_build: Seq::empty(),
            build_host: Seq::empty(),
            build_target: Seq::empty(),
            host_host: Seq::empty(),
            host_target: Seq::empty(),
            target_target: Seq::empty(),
        }
    }

    /// What the slot holds.
    pub open spec fn slot(self, slot: Slot) -> Seq<ExprView> {
        match slot {
            Slot::BuildBuild => self.build_build,
            Slot::BuildHost => self.build_host,
            Slot::BuildTarget => self.build_target,
            Slot::HostHost => self.host_host,
            Slot::HostTarget => self.host_target,
            Slot::TargetTarget => self.target_target,
        }
    }

    /// The matrix with `dep` as the last of `slot`.
    pub open spec fn add(self, slot: Slot, dep: ExprView) -> DepsView {
        match slot {
            Slot::BuildBuild => DepsView { build_build: self.build_build.push(dep), ..self },
            Slot::BuildHost => DepsView { build_host: self.build_host.push(dep), ..self },
            Slot::BuildTarget => DepsView { build_target: self.build_target.push(dep), ..self },
            Slot::HostHost => DepsView { host_host: self.host_host.push(dep), ..self },
            Slot::HostTarget => DepsView { host_target: self.host_target.push(dep), ..self },
            Slot::TargetTarget => DepsView { target_target: self.target_target.push(dep), ..self },
        }
    }

    /// The binding of one slot: its variable, bound to the list of what the
    /// slot holds. An empty slot binds the empty list.
    pub open spec fn slot_var(self, slot: Slot, propagated: bool) -> Binding {
        (slot.var(propagated), ExprView::List(self.slot(slot)))
    }

    /// The six bindings of the matrix, in the fixed order of the slots.
    pub open spec fn vars(self, propagated: bool) -> Seq<Binding> {
        seq![
            self.slot_var(Slot::BuildBuild, propagated),
            self.slot_var(Slot::BuildHost, propagated),
            self.slot_var(Slot::BuildTarget, propagated),
            self.slot_var(Slot::HostHost, propagated),
            self.slot_var(Slot::HostTarget, propagated),
            self.slot_var(Slot::TargetTarget, propagated),
        ]
    }
}

impl DepsView {
    /// Whether `name` is the variable of one of the six slots.
    pub open spec fn owns(name: Seq<char>, propagated: bool) -> bool {
        exists|slot: Slot| name == #[trigger] slot.var(propagated)
    }

    /// What the matrix binds the variable `name` to: the list of what the
    /// slot of that variable holds, and nothing where the variable is none
    /// of the matrix.
    pub open spec fn value(self, name: Seq<char>, propagated: bool) -> Option<ExprView> {
        if name == Slot::BuildBuild.var(propagated) {
            Some(ExprView::List(self.build_build))
        } else if name == Slot::BuildHost.var(propagated) {
            Some(ExprView::List(self.build_host))
        } else if name == Slot::BuildTarget.var(propagated) {
            Some(ExprView::List(self.build_target))
        } else if name == Slot::HostHost.var(propagated) {
            Some(ExprView::List(self.host_host))
        } else if name == Slot::HostTarget.var(propagated) {
            Some(ExprView::List(self.host_target))
        } else if name == Slot::TargetTarget.var(propagated) {
            Some(ExprView::List(self.target_target))
        } else {
            None
        }
    }
}

/// The variables of the matrix say what `value` says, of every name: the
/// variable of a slot is bound to what the slot holds, and no other name
/// is bound.
pub proof fn lemma_deps_vars(deps: DepsView, name: Seq<char>, propagated: bool)
    ensures
        value_of(deps.vars(propagated), name) == deps.value(name, propagated),
        deps.value(name, propagated) is Some <==> DepsView::owns(name, propagated),
{
    lemma_codes();
    let a = deps.slot_var(Slot::BuildBuild, propagated);
    let b = deps.slot_var(Slot::BuildHost, propagated);
    let c = deps.slot_var(Slot::BuildTarget, propagated);
    let d = deps.slot_var(Slot::HostHost, propagated);
    let e = deps.slot_var(Slot::HostTarget, propagated);
    let f = deps.slot_var(Slot::TargetTarget, propagated);
    let vars = seq![a];
    lemma_value_of_one(a.0, a.1, name);
    lemma_value_of_opt(vars, b.0, Some(b.1), name);
    let vars = vars + opt_var(b.0, Some(b.1));
    lemma_value_of_opt(vars, c.0, Some(c.1), name);
    let vars = vars + opt_var(c.0, Some(c.1));
    lemma_value_of_opt(vars, d.0, Some(d.1), name);
    let vars = vars + opt_var(d.0, Some(d.1));
    lemma_value_of_opt(vars, e.0, Some(e.1), name);
    let vars = vars + opt_var(e.0, Some(e.1));
    lemma_value_of_opt(vars, f.0, Some(f.1), name);
    let vars = vars + opt_var(f.0, Some(f.1));
    assert(vars =~= deps.vars(propagated));
    if DepsView::owns(name, propagated) {
        let slot = choose|slot: Slot| name == #[trigger] slot.var(propagated);
        assert(deps.value(name, propagated) is Some);
    }
    if deps.value(name, propagated) is Some {
        assert(name == Slot::BuildBuild.var(propagated) || name == Slot::BuildHost.var(propagated)
            || name == Slot::BuildTarget.var(propagated) || name == Slot::HostHost.var(propagated)
            || name == Slot::HostTarget.var(propagated) || name == Slot::TargetTarget.var(
            propagated,
        ));
    }
}

/// A dependency added to one slot is rendered under the variable of that
/// slot alone. That variable gets the dependency as the last of its list;
/// the variable of every other slot is bound to what it was bound to.
pub proof fn law_slot_rendered_alone(
    deps: DepsView,
    slot: Slot,
    dep: ExprView,
    other: Slot,
    propagated: bool,
)
    ensures
        value_of(deps.add(slot, dep).vars(propagated), slot.var(propagated)) == Some(
            ExprView::List(deps.slot(slot).push(dep)),
        ),
        other != slot ==> value_of(deps.add(slot, dep).vars(propagated), other.var(propagated))
            == value_of(deps.vars(propagated), other.var(propagated)),
        value_of(deps.vars(propagated), other.var(propagated)) == Some(
            ExprView::List(deps.slot(other)),
        ),
        other != slot ==> other.var(propagated) != slot.var(propagated),
        other.var(propagated) != slot.var(!propagated),
{
    lemma_codes();
    lemma_deps_vars(deps.add(slot, dep), slot.var(propagated), propagated);
    lemma_deps_vars(deps.add(slot, dep), other.var(propagated), propagated);
    lemma_deps_vars(deps, other.var(propagated), propagated);
}

impl View for Deps {
    type V = DepsView;

    open spec fn view(&self) -> DepsView {
        DepsView {
            build_build: exprs_view(self.build_build@),
            build_host: exprs_view(self.build_host@),
            build_target: exprs_view(self.build_target@),
            host_host: exprs_view(self.host_host@),
            host_target: exprs_view(self.host_target@),
            target_target: exprs_view(self.target_target@),
        }
    }
}

impl Deps {
    /// The matrix with every slot empty.
    pub fn new() -> (d: Deps)
        ensures
            d@ == DepsView::new(),
    {
        let d = Deps {
            build_build: Vec::new(),
            build_host: Vec::new(),
            build_target: Vec::new(),
            host_host: Vec::new(),
            host_target: Vec::new(),
            target_target: Vec::new(),
        };
        assert(d@.build_build =~= Seq::empty());
        assert(d@.build_host =~= Seq::empty());
        assert(d@.build_target =~= Seq::empty());
        assert(d@.host_host =~= Seq::empty());
        assert(d@.host_target =~= Seq::empty());
        assert(d@.target_target =~= Seq::empty());
        d
    }

    /// Records `dep` as the last of `slot`. No other slot changes.
    pub fn add(self, slot: Slot, dep: Expr) -> (d: Deps)
        ensures
            d@ == self@.add(slot, dep@),
    {
        let mut d = self;
        match slot {
            Slot::BuildBuild => {
                d.build_build.push(dep);
                assert(exprs_view(d.build_build@) =~= self@.build_build.push(dep@));
            },
            Slot::BuildHost => {
                d.build_host.push(dep);
                assert(exprs_view(d.build_host@) =~= self@.build_host.push(dep@));
            },
            Slot::BuildTarget => {
                d.build_target.push(dep);
                assert(exprs_view(d.build_target@) =~= self@.build_target.push(dep@));
            },
            Slot::HostHost => {
                d.host_host.push(dep);
                assert(exprs_view(d.host_host@) =~= self@.host_host.push(dep@));
            },
            Slot::HostTarget => {
                d.host_target.push(dep);
                assert(exprs_view(d.host_target@) =~= self@.host_target.push(dep@));
            },
            Slot::TargetTarget => {
                d.target_target.push(dep);
                assert(exprs_view(d.target_target@) =~= self@.target_target.push(dep@));
            },
        }
        d
    }

    /// Binds the six variables of the matrix, empty slots too, after the
    /// variables that `builder` holds already.
    pub fn build(self, builder: DrvBuilder, propagated: bool) -> (b: DrvBuilder)
        ensures
            b@ == builder@.inputs(self@.vars(propagated)),
    {
        let b = if propagated {
            builder.input("PROPAGATED_BUILD_BUILD", Expr::list(self.build_build)).input(
                "PROPAGATED_BUILD_HOST",
                Expr::list(self.build_host),
            ).input("PROPAGATED_BUILD_TARGET", Expr::list(self.build_target)).input(
                "PROPAGATED_HOST_HOST",
                Expr::list(self.host_host),
            ).input("PROPAGATED_HOST_TARGET", Expr::list(self.host_target)).input(
                "PROPAGATED_TARGET_TARGET",
                Expr::list(self.target_target),
            )
        } else {
            builder.input("DEPS_BUILD_BUILD", Expr::list(self.build_build)).input(
                "DEPS_BUILD_HOST",
                Expr::list(self.build_host),
            ).input("DEPS_BUILD_TARGET", Expr::list(self.build_target)).input(
                "DEPS_HOST_HOST",
                Expr::list(self.host_host),
            ).input("DEPS_HOST_TARGET", Expr::list(self.host_target)).input(
                "DEPS_TARGET_TARGET",
                Expr::list(self.target_target),
            )
        };
        assert(b@.inputs =~= builder@.inputs + self@.vars(propagated));
        b
    }
}

impl Default for Deps {
    fn default() -> (d: Deps)
        ensures
            d@ == DepsView::new(),
    {
        Deps::new()
    }
}

impl StdenvBuilderView {
    /// The builder with `dep` as the last of `slot` in the plain matrix.
    pub open spec fn dep(self, slot: Slot, dep: ExprView) -> StdenvBuilderView {
        StdenvBuilderView { deps: self.deps.add(slot, dep), ..self }
    }

    /// The builder with `dep` as the last of `slot` in the propagated
    /// matrix.
    pub open spec fn propagated_dep(self, slot: Slot, dep: ExprView) -> StdenvBuilderView {
        StdenvBuilderView { propagated: self.propagated.add(slot, dep), ..self }
    }
}

impl StdenvBuilder {
    /// Adds a plain dependency to `slot`: one that only this step sees.
    pub fn dep(self, slot: Slot, dep: Expr) -> (b: StdenvBuilder)
        ensures
            b@ == self@.dep(slot, dep@),
    {
        proof {
            reveal(StdenvBuilder::view);
        }
        let mut b = self;
        b.deps = b.deps.add(slot, dep);
        b
    }

    /// Adds a propagated dependency to `slot`: one that is handed on to
    /// whatever depends on this step.
    pub fn propagated_dep(self, slot: Slot, dep: Expr) -> (b: StdenvBuilder)
        ensures
            b@ == self@.propagated_dep(slot, dep@),
    {
        proof {
            reveal(StdenvBuilder::view);
        }
        let mut b = self;
        b.propagated = b.propagated.add(slot, dep);
        b
    }

    pub fn dep_build_build(self, dep: Expr) -> (b: StdenvBuilder)
        ensures
            b@ == self@.dep(Slot::BuildBuild, dep@),
    {
        self.dep(Slot::BuildBuild, dep)
    }

    pub fn dep_build_host(self, dep: Expr) -> (b: StdenvBuilder)
        ensures
            b@ == self@.dep(Slot::BuildHost, dep@),
    {
        self.dep(Slot::BuildHost, dep)
    }

    pub fn dep_build_target(self, dep: Expr) -> (b: StdenvBuilder)
        ensures
            b@ == self@.dep(Slot::BuildTarget, dep@),
    {
        self.dep(Slot::BuildTarget, dep)
    }

    pub fn dep_host_host(self, dep: Expr) -> (b: StdenvBuilder)
        ensures
            b@ == self@.dep(Slot::HostHost, dep@),
    {
        self.dep(Slot::HostHost, dep)
    }

    pub fn dep_host_target(self, dep: Expr) -> (b: StdenvBuilder)
        ensures
            b@ == self@.dep(Slot::HostTarget, dep@),
    {
        self.dep(Slot::HostTarget, dep)
    }

    pub fn dep_target_target(self, dep: Expr) -> (b: StdenvBuilder)
        ensures
            b@ == self@.dep(Slot::TargetTarget, dep@),
    {
        self.dep(Slot::TargetTarget, dep)
    }

    pub fn propagated_build_build(self, dep: Expr) -> (b: StdenvBuilder)
        ensures
            b@ == self@.propagated_dep(Slot::BuildBuild, dep@),
    {
        self.propagated_dep(Slot::BuildBuild, dep)
    }

    pub fn propagated_build_host(self, dep: Expr) -> (b: StdenvBuilder)
        ensures
            b@ == self@.propagated_dep(Slot::BuildHost, dep@),
    {
        self.propagated_dep(Slot::BuildHost, dep)
    }

    pub fn propagated_build_target(self, dep: Expr) -> (b: StdenvBuilder)
        ensures
            b@ == self@.propagated_dep(Slot::BuildTarget, dep@),
    {
        self.propagated_dep(Slot::BuildTarget, dep)
    }

    pub fn propagated_host_host(self, dep: Expr) -> (b: StdenvBuilder)
        ensures
            b@ == self@.propagated_dep(Slot::HostHost, dep@),
    {
        self.propagated_dep(Slot::HostHost, dep)
    }

    pub fn propagated_host_target(self, dep: Expr) -> (b: StdenvBuilder)
        ensures
            b@ == self@.propagated_dep(Slot::HostTarget, dep@),
    {
        self.propagated_dep(Slot::HostTarget, dep)
    }

    pub fn propagated_target_target(self, dep: Expr) -> (b: StdenvBuilder)
        ensures
            b@ == self@.propagated_dep(Slot::TargetTarget, dep@),
    {
        self.propagated_dep(Slot::TargetTarget, dep)
    }
}

} // verus!

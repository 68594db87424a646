//! What holds of every builder, whatever was set on it.

use crate::drv::{DrvView, ThunkView};
use crate::expr::{Binding, ExprView};
use crate::stdenv::generic::builder::{StdenvBuilder, StdenvBuilderView};
use crate::stdenv::generic::deps::{lemma_deps_vars, DepsView, Slot};
use crate::stdenv::generic::names::{code, lemma_codes};
use crate::stdenv::generic::phases::build_phase::{lemma_build_vars, BuildPhaseView};
use crate::stdenv::generic::phases::check::{lemma_check_vars, CheckPhaseView};
use crate::stdenv::generic::phases::configure::{lemma_configure_vars, ConfigurePhaseView};
use crate::stdenv::generic::phases::fix::{lemma_fix_vars, FixPhaseView};
use crate::stdenv::generic::phases::install::{lemma_install_vars, InstallPhaseView};
use crate::stdenv::generic::phases::install_check::{
    lemma_install_check_vars, InstallCheckPhaseView,
};
use crate::stdenv::generic::phases::patch::{lemma_patch_vars, PatchPhaseView};
use crate::stdenv::generic::phases::unpack::{lemma_unpack_vars, UnpackPhaseView};
use crate::vars::{
    binds, lemma_value_of_binds, lemma_value_of_concat, lemma_value_of_one, lemma_value_of_opt,
    opt_var, str_opt, str_var, value_of,
};
use vstd::prelude::*;

verus! {

/// Compiling is a function of what was set. Two builders that agree in
/// every field compile to the same step, variable for variable and in the
/// same order, however often and wherever they are built.
pub proof fn law_build_is_deterministic(a: StdenvBuilder, b: StdenvBuilder)
    requires
        a@ == b@,
        a@.name is Some,
    ensures
        a@.compile() == b@.compile(),
        a@.compile().inputs == a@.drv_builder.inputs + a@.emitted(),
{
    reveal(StdenvBuilderView::compile);
}

/// A value that is not set contributes no binding at all: not one with an
/// empty value either.
pub proof fn law_unset_binds_nothing(key: Seq<char>)
    ensures
        opt_var(key, None) == Seq::<Binding>::empty(),
        str_var(key, None) == Seq::<Binding>::empty(),
        forall|name: Seq<char>| !binds(#[trigger] opt_var(key, None), name),
{
}

/// Handing `input_if` no value, or `input_bool` a flag that does not hold,
/// leaves the builder exactly as it was.
pub proof fn law_nothing_to_bind_is_a_no_op(b: StdenvBuilderView, key: Seq<char>)
    ensures
        b.input_if(key, None) == b,
        b.input_bool(key, false) == b,
        b.input_bool(key, true) == b.input(key, ExprView::Str("1"@)),
{
    assert(b.drv_builder.inputs + Seq::<Binding>::empty() =~= b.drv_builder.inputs);
}

/// Switching a phase off silences it, whatever was set for it before. The
/// phase then contributes no variable to the compiled step.
pub proof fn law_switched_off_phase_is_silent(b: StdenvBuilderView)
    ensures
        b.dont_unpack().unpack.vars() == Seq::<Binding>::empty(),
        b.dont_patch().patch.vars() == Seq::<Binding>::empty(),
        b.dont_configure().configure.vars() == Seq::<Binding>::empty(),
        b.dont_build().build.vars() == Seq::<Binding>::empty(),
        b.dont_check().check.vars() == Seq::<Binding>::empty(),
        b.dont_install().install.vars() == Seq::<Binding>::empty(),
        b.dont_fix().fix.vars() == Seq::<Binding>::empty(),
        b.dont_install_check().install_check.vars() == Seq::<Binding>::empty(),
{
}

/// A phase that is off stays silent under every setter of its fields:
/// only its switch turns it on again.
pub proof fn law_off_phase_ignores_fields(b: StdenvBuilderView, text: Seq<char>, patch: ExprView)
    ensures
        !b.unpack.unpack ==> {
            &&& b.src_root(text).unpack.vars() == Seq::<Binding>::empty()
            &&& b.pre_unpack(text).unpack.vars() == Seq::<Binding>::empty()
            &&& b.unpack_phase(text).unpack.vars() == Seq::<Binding>::empty()
            &&& b.post_unpack(text).unpack.vars() == Seq::<Binding>::empty()
        },
        !b.patch.patch ==> {
            &&& b.patch(patch).patch.vars() == Seq::<Binding>::empty()
            &&& b.patch_flags(text).patch.vars() == Seq::<Binding>::empty()
            &&& b.pre_patch(text).patch.vars() == Seq::<Binding>::empty()
            &&& b.patch_phase(text).patch.vars() == Seq::<Binding>::empty()
            &&& b.post_patch(text).patch.vars() == Seq::<Binding>::empty()
        },
        !b.configure.configure ==> {
            &&& b.configure_script(text).configure.vars() == Seq::<Binding>::empty()
            &&& b.configure_flags(text).configure.vars() == Seq::<Binding>::empty()
            &&& b.pre_configure(text).configure.vars() == Seq::<Binding>::empty()
            &&& b.configure_phase(text).configure.vars() == Seq::<Binding>::empty()
            &&& b.post_configure(text).configure.vars() == Seq::<Binding>::empty()
        },
        !b.build.build ==> {
            &&& b.makefile(text).build.vars() == Seq::<Binding>::empty()
            &&& b.make_flags(text).build.vars() == Seq::<Binding>::empty()
            &&& b.pre_build(text).build.vars() == Seq::<Binding>::empty()
            &&& b.build_phase(text).build.vars() == Seq::<Binding>::empty()
            &&& b.post_build(text).build.vars() == Seq::<Binding>::empty()
        },
        !b.check.check ==> {
            &&& b.check_flags(text).check.vars() == Seq::<Binding>::empty()
            &&& b.pre_check(text).check.vars() == Seq::<Binding>::empty()
            &&& b.check_phase(text).check.vars() == Seq::<Binding>::empty()
            &&& b.post_check(text).check.vars() == Seq::<Binding>::empty()
        },
        !b.install.install ==> {
            &&& b.install_targets(text).install.vars() == Seq::<Binding>::empty()
            &&& b.install_flags(text).install.vars() == Seq::<Binding>::empty()
            &&& b.pre_install(text).install.vars() == Seq::<Binding>::empty()
            &&& b.install_phase(text).install.vars() == Seq::<Binding>::empty()
            &&& b.post_install(text).install.vars() == Seq::<Binding>::empty()
        },
        !b.fix.fix ==> {
            &&& b.dont_strip().fix.vars() == Seq::<Binding>::empty()
            &&& b.dont_patch_elf().fix.vars() == Seq::<Binding>::empty()
            &&& b.pre_fix(text).fix.vars() == Seq::<Binding>::empty()
            &&& b.fix_phase(text).fix.vars() == Seq::<Binding>::empty()
            &&& b.post_fix(text).fix.vars() == Seq::<Binding>::empty()
        },
        !b.install_check.install_check ==> {
            &&& b.install_check_flags(text).install_check.vars() == Seq::<Binding>::empty()
            &&& b.pre_install_check(text).install_check.vars() == Seq::<Binding>::empty()
            &&& b.install_check_phase(text).install_check.vars() == Seq::<Binding>::empty()
            &&& b.post_install_check(text).install_check.vars() == Seq::<Binding>::empty()
        },
{
}

/// With every phase switched off the phases contribute nothing to the
/// compiled step.
pub proof fn law_all_phases_off(b: StdenvBuilderView)
    requires
        !b.unpack.unpack,
        !b.patch.patch,
        !b.configure.configure,
        !b.build.build,
        !b.check.check,
        !b.install.install,
        !b.fix.fix,
        !b.install_check.install_check,
    ensures
        b.phase_vars() == Seq::<Binding>::empty(),
        b.emitted() == b.own_vars() + b.dep_vars(),
{
    assert(b.phase_vars() =~= Seq::<Binding>::empty());
    assert(b.emitted() =~= b.own_vars() + b.dep_vars());
}

/// A dependency added to one slot shows in that slot alone: it comes last
/// there, and every other slot of the matrix holds what it held.
pub proof fn law_slot_exclusive(deps: DepsView, slot: Slot, dep: ExprView, other: Slot)
    ensures
        deps.add(slot, dep).slot(slot) == deps.slot(slot).push(dep),
        other != slot ==> deps.add(slot, dep).slot(other) == deps.slot(other),
        other != slot ==> forall|propagated: bool|
            #[trigger] deps.add(slot, dep).slot_var(other, propagated) == deps.slot_var(
                other,
                propagated,
            ),
{
}

/// The plain and the propagated matrix are independent: adding to one
/// leaves the other, and what it renders, as it was.
pub proof fn law_matrices_independent(b: StdenvBuilderView, slot: Slot, dep: ExprView)
    ensures
        b.dep(slot, dep).propagated == b.propagated,
        b.dep(slot, dep).propagated.vars(true) == b.propagated.vars(true),
        b.propagated_dep(slot, dep).deps == b.deps,
        b.propagated_dep(slot, dep).deps.vars(false) == b.deps.vars(false),
{
}

/// A matrix renders every slot, the empty ones too: six bindings, each
/// under the variable of its slot and bound to what the slot holds.
pub proof fn law_every_slot_is_rendered(deps: DepsView, propagated: bool, slot: Slot)
    ensures
        deps.vars(propagated).len() == 6,
        exists|i: int|
            0 <= i < 6 && #[trigger] deps.vars(propagated)[i] == (
                slot.var(propagated),
                ExprView::List(deps.slot(slot)),
            ),
        DepsView::new().slot(slot) == Seq::<ExprView>::empty(),
{
    let vars = deps.vars(propagated);
    match slot {
        Slot::BuildBuild => {
            assert(vars[0] == deps.slot_var(slot, propagated));
        },
        Slot::BuildHost => {
            assert(vars[1] == deps.slot_var(slot, propagated));
        },
        Slot::BuildTarget => {
            assert(vars[2] == deps.slot_var(slot, propagated));
        },
        Slot::HostHost => {
            assert(vars[3] == deps.slot_var(slot, propagated));
        },
        Slot::HostTarget => {
            assert(vars[4] == deps.slot_var(slot, propagated));
        },
        Slot::TargetTarget => {
            assert(vars[5] == deps.slot_var(slot, propagated));
        },
    }
}

/// A fixed-output step needs no dependency. A builder with a name and a
/// fixed hash compiles with both matrices empty: the step carries the
/// hash, and the variables of all twelve slots are bound to empty lists.
pub proof fn law_fixed_output_needs_no_deps(b: StdenvBuilderView, hash: Seq<char>, slot: Slot)
    requires
        b.name is Some,
        b.deps == DepsView::new(),
        b.propagated == DepsView::new(),
    ensures
        b.fixed_hash(hash).compile().fixed_hash == Some(hash),
        b.fixed_hash(hash).compile().inputs == b.compile().inputs,
        b.fixed_hash(hash).deps.slot_var(slot, false) == (
            slot.var(false),
            ExprView::List(Seq::empty()),
        ),
        b.fixed_hash(hash).propagated.slot_var(slot, true) == (
            slot.var(true),
            ExprView::List(Seq::empty()),
        ),
{
    reveal(StdenvBuilderView::compile);
}

/// The hash of a fixed-output step is independent of everything else that
/// is set: setting it changes no other field of the compiled step.
pub proof fn law_fixed_hash_changes_nothing_else(b: StdenvBuilderView, hash: Seq<char>)
    requires
        b.name is Some,
    ensures
        b.fixed_hash(hash).compile() == (DrvView { fixed_hash: Some(hash), ..b.compile() }),
{
    reveal(StdenvBuilderView::compile);
}

/// Every variable belongs to one part of the builder. The places of a
/// part's variables in the fixed order form a run of their own, so no name
/// is a variable of two parts.
pub proof fn lemma_owner_codes(name: Seq<char>)
    ensures
        StdenvBuilderView::owns(name) ==> 0 <= code(name) < 5,
        DepsView::owns(name, false) ==> 5 <= code(name) < 11,
        DepsView::owns(name, true) ==> 11 <= code(name) < 17,
        UnpackPhaseView::owns(name) ==> 17 <= code(name) < 22,
        PatchPhaseView::owns(name) ==> 22 <= code(name) < 28,
        ConfigurePhaseView::owns(name) ==> 28 <= code(name) < 34,
        BuildPhaseView::owns(name) ==> 34 <= code(name) < 40,
        CheckPhaseView::owns(name) ==> 40 <= code(name) < 45,
        InstallPhaseView::owns(name) ==> 45 <= code(name) < 51,
        FixPhaseView::owns(name) ==> 51 <= code(name) < 57,
        InstallCheckPhaseView::owns(name) ==> 57 <= code(name) < 62,
{
    lemma_codes();
    if DepsView::owns(name, false) {
        let slot = choose|slot: Slot| name == #[trigger] slot.var(false);
    }
    if DepsView::owns(name, true) {
        let slot = choose|slot: Slot| name == #[trigger] slot.var(true);
    }
}

/// The builder's own variables say what `own_value` says, of every name.
pub proof fn lemma_own_vars(b: StdenvBuilderView, name: Seq<char>)
    ensures
        value_of(b.own_vars(), name) == b.own_value(name),
        b.own_value(name) is Some ==> StdenvBuilderView::owns(name),
{
    lemma_codes();
    let stdenv = ThunkView::Step(b.stdenv.compile()).expr();
    let vars = seq![("stdenv"@, stdenv)];
    lemma_value_of_one("stdenv"@, stdenv, name);
    lemma_value_of_opt(vars, "SRC"@, b.src, name);
    let vars = vars + opt_var("SRC"@, b.src);
    lemma_value_of_opt(vars, "BUILD_COMMAND"@, b.build_command, name);
    let vars = vars + opt_var("BUILD_COMMAND"@, b.build_command);
    lemma_value_of_opt(vars, "PRE_PHASE"@, str_opt(b.pre_phase), name);
    let vars = vars + opt_var("PRE_PHASE"@, str_opt(b.pre_phase));
    lemma_value_of_opt(vars, "POST_PHASE"@, str_opt(b.post_phase), name);
}

/// The variables that compiling adds are those of `value`, name for name:
/// a variable has the value of the field behind it, a variable whose field
/// is unset or whose phase is off is not bound, and no name beside the
/// builder's variables is bound.
pub proof fn law_emitted_values(b: StdenvBuilderView, name: Seq<char>)
    ensures
        value_of(b.emitted(), name) == b.value(name),
        binds(b.emitted(), name) <==> b.value(name) is Some,
{
    lemma_owner_codes(name);
    lemma_own_vars(b, name);
    lemma_deps_vars(b.deps, name, false);
    lemma_deps_vars(b.propagated, name, true);
    lemma_unpack_vars(b.unpack, name);
    lemma_patch_vars(b.patch, name);
    lemma_configure_vars(b.configure, name);
    lemma_build_vars(b.build, name);
    lemma_check_vars(b.check, name);
    lemma_install_vars(b.install, name);
    lemma_fix_vars(b.fix, name);
    lemma_install_check_vars(b.install_check, name);

    let own = b.own_vars();
    let deps = b.deps.vars(false) + b.propagated.vars(true);
    lemma_value_of_concat(b.deps.vars(false), b.propagated.vars(true), name);
    lemma_value_of_binds(b.propagated.vars(true), name);
    lemma_value_of_binds(deps, name);
    lemma_value_of_concat(own, deps, name);

    let upto_unpack = b.unpack.vars();
    let upto_patch = upto_unpack + b.patch.vars();
    lemma_value_of_concat(upto_unpack, b.patch.vars(), name);
    lemma_value_of_binds(b.patch.vars(), name);
    let upto_configure = upto_patch + b.configure.vars();
    lemma_value_of_concat(upto_patch, b.configure.vars(), name);
    lemma_value_of_binds(b.configure.vars(), name);
    let upto_build = upto_configure + b.build.vars();
    lemma_value_of_concat(upto_configure, b.build.vars(), name);
    lemma_value_of_binds(b.build.vars(), name);
    let upto_check = upto_build + b.check.vars();
    lemma_value_of_concat(upto_build, b.check.vars(), name);
    lemma_value_of_binds(b.check.vars(), name);
    let upto_install = upto_check + b.install.vars();
    lemma_value_of_concat(upto_check, b.install.vars(), name);
    lemma_value_of_binds(b.install.vars(), name);
    let upto_fix = upto_install + b.fix.vars();
    lemma_value_of_concat(upto_install, b.fix.vars(), name);
    lemma_value_of_binds(b.fix.vars(), name);
    let phases = upto_fix + b.install_check.vars();
    lemma_value_of_concat(upto_fix, b.install_check.vars(), name);
    lemma_value_of_binds(b.install_check.vars(), name);
    assert(phases == b.phase_vars());
    lemma_value_of_binds(phases, name);

    lemma_value_of_concat(own + deps, phases, name);
    lemma_value_of_binds(b.emitted(), name);
}

/// Compiling gives no variable of a phase that is off a value, whatever
/// was set for the phase.
pub proof fn law_off_phase_has_no_value(b: StdenvBuilderView, name: Seq<char>)
    ensures
        !b.unpack.unpack && UnpackPhaseView::owns(name) ==> b.value(name) is None,
        !b.patch.patch && PatchPhaseView::owns(name) ==> b.value(name) is None,
        !b.configure.configure && ConfigurePhaseView::owns(name) ==> b.value(name) is None,
        !b.build.build && BuildPhaseView::owns(name) ==> b.value(name) is None,
        !b.check.check && CheckPhaseView::owns(name) ==> b.value(name) is None,
        !b.install.install && InstallPhaseView::owns(name) ==> b.value(name) is None,
        !b.fix.fix && FixPhaseView::owns(name) ==> b.value(name) is None,
        !b.install_check.install_check && InstallCheckPhaseView::owns(name) ==> b.value(name)
            is None,
{
    lemma_owner_codes(name);
}

/// In the compiled step a variable of the builder has the value that the
/// builder gives it. Where the builder gives it none, and for every other
/// name, the step says what was bound through `input`, and nothing where
/// nothing was.
pub proof fn law_compiled_values(b: StdenvBuilderView, name: Seq<char>)
    requires
        b.name is Some,
    ensures
        value_of(b.compile().inputs, name) == match b.value(name) {
            Some(v) => Some(v),
            None => value_of(b.drv_builder.inputs, name),
        },
{
    reveal(StdenvBuilderView::compile);
    law_emitted_values(b, name);
    lemma_value_of_concat(b.drv_builder.inputs, b.emitted(), name);
}

/// A field that is not set leaves its variable out of the compiled step.
/// Unless the recipe bound the name through `input`, the step does not
/// bind it: not to an empty value either.
pub proof fn law_unset_is_absent(b: StdenvBuilderView, name: Seq<char>)
    requires
        b.name is Some,
        b.value(name) is None,
        !binds(b.drv_builder.inputs, name),
    ensures
        !binds(b.compile().inputs, name),
        value_of(b.compile().inputs, name) is None,
{
    law_compiled_values(b, name);
    lemma_value_of_binds(b.drv_builder.inputs, name);
    lemma_value_of_binds(b.compile().inputs, name);
}

/// The optional fields of the builder itself, one by one: each that is not
/// set gives its variable no value.
pub proof fn law_unset_own_fields(b: StdenvBuilderView)
    ensures
        b.src is None ==> b.value("SRC"@) is None,
        b.build_command is None ==> b.value("BUILD_COMMAND"@) is None,
        b.pre_phase is None ==> b.value("PRE_PHASE"@) is None,
        b.post_phase is None ==> b.value("POST_PHASE"@) is None,
        b.value("stdenv"@) is Some,
{
    lemma_codes();
}

} // verus!

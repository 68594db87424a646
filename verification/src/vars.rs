//! The environment variables of a step.
//!
//! A step carries its variables as a run of bindings, in the order in which
//! they were bound. A name that is bound more than once has the value of
//! its latest binding.

use crate::drv::ThunkView;
use crate::expr::{Binding, ExprView};
use vstd::prelude::*;

verus! {

/// The binding that an optional value contributes: nothing where it is unset.
pub open spec fn opt_var(key: Seq<char>, v: Option<ExprView>) -> Seq<Binding> {
    match v {
        Some(e) => seq![(key, e)],
        None => Seq::empty(),
    }
}

/// The value that a flag stands for: `"1"` where it holds, and nothing
/// where it does not.
pub open spec fn flag_opt(v: bool) -> Option<ExprView> {
    if v {
        Some(ExprView::Str("1"@))
    } else {
        None
    }
}

/// The binding that a flag contributes: the variable set to `"1"` where the
/// flag holds, and nothing where it does not.
pub open spec fn flag_var(key: Seq<char>, v: bool) -> Seq<Binding> {
    opt_var(key, flag_opt(v))
}

/// The value that an optional string stands for.
pub open spec fn str_opt(v: Option<Seq<char>>) -> Option<ExprView> {
    match v {
        Some(s) => Some(ExprView::Str(s)),
        None => None,
    }
}

/// The binding that an optional string contributes: nothing where it is
/// unset.
pub open spec fn str_var(key: Seq<char>, v: Option<Seq<char>>) -> Seq<Binding> {
    opt_var(key, str_opt(v))
}

/// The value that an optional handle stands for: the path of its default
/// output.
pub open spec fn drv_opt(v: Option<ThunkView>) -> Option<ExprView> {
    match v {
        Some(t) => Some(t.expr()),
        None => None,
    }
}

/// Whether some binding of `vars` has the name `name`.
pub open spec fn binds(vars: Seq<Binding>, name: Seq<char>) -> bool {
    exists|i: int| 0 <= i < vars.len() && (#[trigger] vars[i]).0 == name
}

/// The value of `name` under `vars`: that of its last binding, or `None`
/// where no binding has the name.
pub open spec fn value_of(vars: Seq<Binding>, name: Seq<char>) -> Option<ExprView>
    decreases vars.len(),
{
    if vars.len() == 0 {
        None
    } else if vars.last().0 == name {
        Some(vars.last().1)
    } else {
        value_of(vars.drop_last(), name)
    }
}

/// A name has a value exactly where a binding has the name.
pub proof fn lemma_value_of_binds(vars: Seq<Binding>, name: Seq<char>)
    ensures
        value_of(vars, name) is Some <==> binds(vars, name),
    decreases vars.len(),
{
    if vars.len() > 0 {
        let init = vars.drop_last();
        lemma_value_of_binds(init, name);
        if vars.last().0 == name {
            assert(vars[vars.len() - 1].0 == name);
        } else if binds(init, name) {
            let i = choose|i: int| 0 <= i < init.len() && (#[trigger] init[i]).0 == name;
            assert(vars[i].0 == name);
        } else if binds(vars, name) {
            let i = choose|i: int| 0 <= i < vars.len() && (#[trigger] vars[i]).0 == name;
            assert(init[i].0 == name);
        }
    }
}

/// Under a run of variables a name has the value that the later part gives
/// it, and that of the earlier part where the later part does not bind it.
pub proof fn lemma_value_of_concat(first: Seq<Binding>, second: Seq<Binding>, name: Seq<char>)
    ensures
        value_of(first + second, name) == if binds(second, name) {
            value_of(second, name)
        } else {
            value_of(first, name)
        },
    decreases second.len(),
{
    if second.len() == 0 {
        assert(first + second =~= first);
    } else {
        let all = first + second;
        let init = second.drop_last();
        assert(all.drop_last() =~= first + init);
        assert(all.last() == second.last());
        lemma_value_of_concat(first, init, name);
        if second.last().0 == name {
            assert(second[second.len() - 1].0 == name);
        } else if binds(init, name) {
            let i = choose|i: int| 0 <= i < init.len() && (#[trigger] init[i]).0 == name;
            assert(second[i].0 == name);
        } else if binds(second, name) {
            let i = choose|i: int| 0 <= i < second.len() && (#[trigger] second[i]).0 == name;
            assert(init[i].0 == name);
        }
    }
}

/// One binding gives its name its value, and no other name any.
pub proof fn lemma_value_of_one(key: Seq<char>, value: ExprView, name: Seq<char>)
    ensures
        value_of(seq![(key, value)], name) == if name == key {
            Some(value)
        } else {
            None
        },
{
    let vars = seq![(key, value)];
    assert(vars.last() == (key, value));
    assert(vars.drop_last() =~= Seq::<Binding>::empty());
    assert(value_of(Seq::<Binding>::empty(), name) is None);
}

/// After an optional binding its name has the value that was set, where
/// one was; every other name, and this one where none was set, keeps the
/// value it had.
pub proof fn lemma_value_of_opt(
    vars: Seq<Binding>,
    key: Seq<char>,
    value: Option<ExprView>,
    name: Seq<char>,
)
    ensures
        value_of(vars + opt_var(key, value), name) == if name == key && value is Some {
            value
        } else {
            value_of(vars, name)
        },
{
    match value {
        Some(v) => {
            lemma_value_of_one(key, v, name);
            lemma_value_of_concat(vars, opt_var(key, value), name);
            lemma_value_of_binds(opt_var(key, value), name);
        },
        None => {
            assert(vars + opt_var(key, value) =~= vars);
        },
    }
}

} // verus!

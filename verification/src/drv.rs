//! Build steps and handles to them.

use crate::builtins::{FetchUrl, FetchUrlView};
use crate::expr::{bindings_view, exprs_view, Binding, Expr, ExprView};
use crate::vars::{flag_var, opt_var, value_of};
use crate::system::System;
use std::rc::Rc;
use vstd::prelude::*;

verus! {

/// The description of one build step, as far as a recipe sets it: its
/// name, the executable that runs it with its arguments, its named outputs,
/// its environment variables in the order in which they were bound, the
/// hash of its output where the step is fixed-output, and its platform.
#[derive(Debug, PartialEq, Eq)]
pub struct Drv {
    pub name: String,
    pub builder: Expr,
    pub args: Vec<Expr>,
    pub outputs: Vec<String>,
    pub inputs: Vec<(String, Expr)>,
    pub fixed_hash: Option<crate::hash::Hash>,
    pub system: Option<System>,
}

/// What a recipe lacks that cannot be built.
#[derive(Clone, Copy, Debug, PartialEq, Eq, Structural)]
pub enum Missing {
    /// The step was never named.
    Name,
    /// The environment brings no C library.
    Libc,
}

/// What a handle stands for, which is what forcing it yields: a step that
/// a recipe describes, a download that the engine performs itself, or
/// nothing, where the recipe behind the handle cannot be built. Making such
/// a handle is no error; forcing it is.
#[derive(Debug, PartialEq, Eq)]
pub enum Thunk {
    Step(Drv),
    FetchUrl(FetchUrl),
    Unbuildable(Missing),
}

/// A shared handle to a step. Copies of a handle stand for the same step,
/// and two handles are equal where what they stand for is. A handle can be
/// made for every recipe, also for one that cannot be built: what the
/// recipe needs is owed where the handle is forced.
#[derive(Debug, PartialEq, Eq)]
pub struct LazyDrv {
    pub thunk: Rc<Thunk>,
}

/// A step as a mathematical value.
pub struct DrvView {
    pub name: Seq<char>,
    pub builder: ExprView,
    pub args: Seq<ExprView>,
    pub outputs: Seq<Seq<char>>,
    pub inputs: Seq<Binding>,
    pub fixed_hash: Option<Seq<char>>,
    pub system: Option<System>,
}

/// What a handle stands for, as a mathematical value.
pub enum ThunkView {
    Step(DrvView),
    FetchUrl(FetchUrlView),
    Unbuildable(Missing),
}

impl Drv {
    pub open spec fn view(&self) -> DrvView
        decreases self,
    {
        DrvView {
            name: self.name@,
            builder: self.builder.view(),
            args: exprs_view(self.args@),
            outputs: self.outputs.deep_view(),
            inputs: bindings_view(self.inputs@),
            fixed_hash: match self.fixed_hash {
                Some(h) => Some(h@),
                None => None,
            },
            system: self.system,
        }
    }

    /// Looks the variable `name` up: its value under the latest binding,
    /// or `None` where the step does not bind it.
    pub fn get(&self, name: &str) -> (value: Option<&Expr>)
        ensures
            match value {
                Some(e) => value_of(self@.inputs, name@) == Some(e@),
                None => value_of(self@.inputs, name@) is None,
            },
    {
        let key = String::from_str(name);
        let ghost vars = self@.inputs;
        let mut i: usize = self.inputs.len();
        assert(vars.take(i as int) =~= vars);
        while i > 0
            invariant
                i <= self.inputs.len(),
                vars == self@.inputs,
                vars.len() == self.inputs.len(),
                key@ == name@,
                value_of(vars, name@) == value_of(vars.take(i as int), name@),
            decreases i,
        {
            i -= 1;
            assert(vars.take(i + 1).drop_last() =~= vars.take(i as int));
            assert(vars.take(i + 1).last() == vars[i as int]);
            assert(vars[i as int] == (self.inputs[i as int].0@, self.inputs[i as int].1@));
            if self.inputs[i].0 == key {
                return Some(&self.inputs[i].1);
            }
        }
        None
    }
}

impl Thunk {
    pub open spec fn view(&self) -> ThunkView
        decreases self,
    {
        match self {
            Thunk::Step(d) => ThunkView::Step(d.view()),
            Thunk::FetchUrl(f) => ThunkView::FetchUrl(f@),
            Thunk::Unbuildable(missing) => ThunkView::Unbuildable(*missing),
        }
    }
}

impl LazyDrv {
    pub open spec fn view(&self) -> ThunkView
        decreases self,
    {
        self.thunk.view()
    }

    /// A handle to the step that `drv` describes.
    pub fn new(drv: Drv) -> (h: LazyDrv)
        ensures
            h@ == ThunkView::Step(drv@),
    {
        LazyDrv { thunk: Rc::new(Thunk::Step(drv)) }
    }

    /// A handle to what the engine's own fetcher will download.
    pub fn builtin(fetch: FetchUrl) -> (h: LazyDrv)
        ensures
            h@ == ThunkView::FetchUrl(fetch@),
    {
        LazyDrv { thunk: Rc::new(Thunk::FetchUrl(fetch)) }
    }

    /// A handle to a recipe that cannot be built for want of `missing`.
    /// The handle can be held and passed on like any other.
    pub fn unbuildable(missing: Missing) -> (h: LazyDrv)
        ensures
            h@ == ThunkView::Unbuildable(missing),
    {
        LazyDrv { thunk: Rc::new(Thunk::Unbuildable(missing)) }
    }

    /// The step that the handle stands for, where it stands for one.
    pub fn step(&self) -> (step: Option<&Drv>)
        ensures
            match step {
                Some(drv) => self@ == ThunkView::Step(drv@),
                None => !(self@ is Step),
            },
    {
        match &*self.thunk {
            Thunk::Step(drv) => Some(drv),
            _ => None,
        }
    }

    /// Forces the handle: the step of the recipe behind it. What the recipe
    /// needs to be built is owed here, not where the handle was made.
    pub fn force(&self) -> (drv: &Drv)
        requires
            self@ is Step,
        ensures
            self@ == ThunkView::Step(drv@),
    {
        match &*self.thunk {
            Thunk::Step(drv) => drv,
            _ => vstd::pervasive::unreached(),
        }
    }
}

/// `Rc::clone`: a second pointer to the same allocation, so both stand for
/// the same value.
#[verifier::external_body]
pub(crate) fn share<T>(thunk: &Rc<T>) -> (r: Rc<T>)
    ensures
        r == *thunk,
{
    Rc::clone(thunk)
}

impl Clone for LazyDrv {
    fn clone(&self) -> (h: LazyDrv)
        ensures
            h == *self,
    {
        LazyDrv { thunk: share(&self.thunk) }
    }
}

/// Accumulates the fields of a step until `build` fixes them.
#[derive(Debug, PartialEq, Eq)]
pub struct DrvBuilder {
    pub name: Option<String>,
    pub builder: Option<Expr>,
    pub args: Vec<Expr>,
    pub outputs: Vec<String>,
    pub inputs: Vec<(String, Expr)>,
    pub fixed_hash: Option<crate::hash::Hash>,
    pub system: Option<System>,
}

/// The accumulated fields as a mathematical value.
pub struct DrvBuilderView {
    pub name: Option<Seq<char>>,
    pub builder: Option<ExprView>,
    pub args: Seq<ExprView>,
    pub outputs: Seq<Seq<char>>,
    pub inputs: Seq<Binding>,
    pub fixed_hash: Option<Seq<char>>,
    pub system: Option<System>,
}

/// The view of an optional handle.
pub open spec fn opt_drv_view(h: Option<LazyDrv>) -> Option<ThunkView> {
    match h {
        Some(h) => Some(h@),
        None => None,
    }
}

impl DrvBuilderView {
    pub open spec fn empty() -> DrvBuilderView {
        DrvBuilderView {
            name: None,
            builder: None,
            args: Seq::empty(),
            outputs: Seq::empty(),
            inputs: Seq::empty(),
            fixed_hash: None,
            system: None,
        }
    }

    pub open spec fn name(self, name: Seq<char>) -> DrvBuilderView {
        DrvBuilderView { name: Some(name), ..self }
    }

    pub open spec fn builder(self, builder: ExprView) -> DrvBuilderView {
        DrvBuilderView { builder: Some(builder), ..self }
    }

    pub open spec fn arg(self, arg: ExprView) -> DrvBuilderView {
        DrvBuilderView { args: self.args.push(arg), ..self }
    }

    pub open spec fn out(self, out: Seq<char>) -> DrvBuilderView {
        DrvBuilderView { outputs: self.outputs.push(out), ..self }
    }

    pub open spec fn fixed_hash(self, hash: Seq<char>) -> DrvBuilderView {
        DrvBuilderView { fixed_hash: Some(hash), ..self }
    }

    pub open spec fn system(self, system: System) -> DrvBuilderView {
        DrvBuilderView { system: Some(system), ..self }
    }

    /// Appends `vars` to the variables, in order.
    pub open spec fn inputs(self, vars: Seq<Binding>) -> DrvBuilderView {
        DrvBuilderView { inputs: self.inputs + vars, ..self }
    }

    pub open spec fn input(self, key: Seq<char>, value: ExprView) -> DrvBuilderView {
        self.inputs(seq![(key, value)])
    }

    pub open spec fn input_if(self, key: Seq<char>, value: Option<ExprView>) -> DrvBuilderView {
        self.inputs(opt_var(key, value))
    }

    pub open spec fn input_bool(self, key: Seq<char>, v: bool) -> DrvBuilderView {
        self.inputs(flag_var(key, v))
    }

    /// The step that the accumulated fields describe.
    pub open spec fn build(self) -> DrvView
        recommends
            self.name is Some,
            self.builder is Some,
    {
        DrvView {
            name: self.name->0,
            builder: self.builder->0,
            args: self.args,
            outputs: self.outputs,
            inputs: self.inputs,
            fixed_hash: self.fixed_hash,
            system: self.system,
        }
    }
}

/// Appending variables in two steps is appending both runs at once.
pub proof fn lemma_inputs_twice(b: DrvBuilderView, first: Seq<Binding>, second: Seq<Binding>)
    ensures
        b.inputs(first).inputs(second) == b.inputs(first + second),
{
    vstd::seq_lib::lemma_concat_associative(b.inputs, first, second);
}

/// The view of an optional value.
pub open spec fn opt_expr_view(e: Option<Expr>) -> Option<ExprView> {
    match e {
        Some(e) => Some(e@),
        None => None,
    }
}

/// The view of an optional hash.
pub open spec fn opt_hash_view(h: Option<crate::hash::Hash>) -> Option<Seq<char>> {
    match h {
        Some(h) => Some(h@),
        None => None,
    }
}

impl DrvBuilder {
    pub open spec fn view(&self) -> DrvBuilderView {
        DrvBuilderView {
            name: self.name.deep_view(),
            builder: opt_expr_view(self.builder),
            args: exprs_view(self.args@),
            outputs: self.outputs.deep_view(),
            inputs: bindings_view(self.inputs@),
            fixed_hash: opt_hash_view(self.fixed_hash),
            system: self.system,
        }
    }

    /// A builder with nothing set.
    pub fn new() -> (b: DrvBuilder)
        ensures
            b@ == DrvBuilderView::empty(),
    {
        let b = DrvBuilder {
            name: None,
            builder: None,
            args: Vec::new(),
            outputs: Vec::new(),
            inputs: Vec::new(),
            fixed_hash: None,
            system: None,
        };
        assert(b@.args =~= Seq::empty());
        assert(b@.outputs =~= Seq::empty());
        assert(b@.inputs =~= Seq::empty());
        b
    }

    /// Sets the step's name; a later call replaces an earlier one.
    pub fn name(self, name: &str) -> (b: DrvBuilder)
        ensures
            b@ == self@.name(name@),
    {
        let mut b = self;
        b.name = Some(String::from_str(name));
        b
    }

    /// Sets the executable that runs the step.
    pub fn builder(self, builder: Expr) -> (b: DrvBuilder)
        ensures
            b@ == self@.builder(builder@),
    {
        let mut b = self;
        b.builder = Some(builder);
        b
    }

    /// Appends one argument of the executable.
    pub fn arg(self, arg: Expr) -> (b: DrvBuilder)
        ensures
            b@ == self@.arg(arg@),
    {
        let mut b = self;
        b.args.push(arg);
        assert(exprs_view(b.args@) =~= exprs_view(self.args@).push(arg@));
        b
    }

    /// Declares one more named output.
    pub fn out(self, out: &str) -> (b: DrvBuilder)
        ensures
            b@ == self@.out(out@),
    {
        let mut b = self;
        b.outputs.push(String::from_str(out));
        assert(b.outputs.deep_view() =~= self.outputs.deep_view().push(out@));
        b
    }

    /// Marks the step as fixed-output, verified against `hash`.
    pub fn fixed_hash(self, hash: crate::hash::Hash) -> (b: DrvBuilder)
        ensures
            b@ == self@.fixed_hash(hash@),
    {
        let mut b = self;
        b.fixed_hash = Some(hash);
        b
    }

    /// Sets the platform that the step is built on.
    pub fn system(self, system: System) -> (b: DrvBuilder)
        ensures
            b@ == self@.system(system),
    {
        let mut b = self;
        b.system = Some(system);
        b
    }

    /// Binds the variable `key` to `value`, after all earlier bindings.
    pub fn input(self, key: &str, value: Expr) -> (b: DrvBuilder)
        ensures
            b@ == self@.input(key@, value@),
    {
        let mut b = self;
        b.inputs.push((String::from_str(key), value));
        assert(bindings_view(b.inputs@) =~= bindings_view(self.inputs@) + seq![(key@, value@)]);
        b
    }

    /// Binds the variable `key` where `value` is set, and leaves the builder
    /// as it is where it is not.
    pub fn input_if(self, key: &str, value: Option<Expr>) -> (b: DrvBuilder)
        ensures
            b@ == self@.input_if(key@, opt_expr_view(value)),
    {
        match value {
            Some(e) => self.input(key, e),
            None => {
                assert(self@.inputs + Seq::<Binding>::empty() =~= self@.inputs);
                self
            },
        }
    }

    /// Binds the variable `key` to `"1"` where `v` holds, and leaves the
    /// builder as it is where it does not.
    pub fn input_bool(self, key: &str, v: bool) -> (b: DrvBuilder)
        ensures
            b@ == self@.input_bool(key@, v),
    {
        if v {
            self.input(key, Expr::str("1"))
        } else {
            assert(self@.inputs + Seq::<Binding>::empty() =~= self@.inputs);
            self
        }
    }

    /// Fixes the accumulated fields as a step.
    pub fn build(self) -> (drv: Drv)
        requires
            self.name is Some,
            self.builder is Some,
        ensures
            drv@ == self@.build(),
    {
        Drv {
            name: self.name.unwrap(),
            builder: self.builder.unwrap(),
            args: self.args,
            outputs: self.outputs,
            inputs: self.inputs,
            fixed_hash: self.fixed_hash,
            system: self.system,
        }
    }
}

} // verus!

//! Value expressions: what an argument or an environment variable of a step
//! may hold.

use crate::drv::{LazyDrv, ThunkView};
use vstd::prelude::*;

verus! {

/// A value of an argument or of an environment variable.
#[derive(Debug, PartialEq, Eq)]
pub enum Expr {
    /// A literal string.
    Str(String),
    /// A file that ships with the recipe, by its path relative to the recipe.
    File(String),
    /// A path inside what another step produces.
    Drv(DrvPath),
    /// An ordered list of values.
    List(Vec<Expr>),
}

/// A path inside what a step produces: one of its outputs (the default one
/// where `output` is `None`), and below it the sub-path `suffix`.
#[derive(Debug, PartialEq, Eq)]
pub struct DrvPath {
    pub drv: LazyDrv,
    pub output: Option<String>,
    pub suffix: Option<String>,
}

/// `Expr` as a mathematical value: every string a sequence of characters,
/// every list a sequence.
pub enum ExprView {
    Str(Seq<char>),
    File(Seq<char>),
    Drv(DrvPathView),
    List(Seq<ExprView>),
}

/// `DrvPath` as a mathematical value: every string a sequence of characters,
/// every list a sequence.
pub struct DrvPathView {
    pub drv: Box<ThunkView>,
    pub output: Option<Seq<char>>,
    pub suffix: Option<Seq<char>>,
}

/// One environment variable of a step: its name and its value.
pub type Binding = (Seq<char>, ExprView);

/// The values of `s`, each by its view.
pub open spec fn exprs_view(s: Seq<Expr>) -> Seq<ExprView>
    decreases s,
{
    Seq::new(
        s.len(),
        |i: int|
            if 0 <= i < s.len() {
                s[i].view()
            } else {
                arbitrary()
            },
    )
}

/// The bindings of `s`, each name and value by its view.
pub open spec fn bindings_view(s: Seq<(String, Expr)>) -> Seq<Binding>
    decreases s,
{
    Seq::new(
        s.len(),
        |i: int|
            if 0 <= i < s.len() {
                (s[i].0@, s[i].1.view())
            } else {
                arbitrary()
            },
    )
}

impl DrvPath {
    pub open spec fn view(&self) -> DrvPathView
        decreases self,
    {
        DrvPathView {
            drv: Box::new(self.drv.view()),
            output: self.output.deep_view(),
            suffix: self.suffix.deep_view(),
        }
    }

    /// The path `suffix` below this one.
    pub fn suff(self, suffix: &str) -> (p: DrvPath)
        ensures
            p@ == self@.suff(suffix@),
    {
        let joined = match self.suffix {
            Some(s) => s.concat(suffix),
            None => String::from_str(suffix),
        };
        DrvPath { drv: self.drv, output: self.output, suffix: Some(joined) }
    }
}

impl DrvPathView {
    /// The path `suffix` below this one.
    pub open spec fn suff(self, suffix: Seq<char>) -> DrvPathView {
        DrvPathView {
            suffix: Some(
                match self.suffix {
                    Some(s) => s + suffix,
                    None => suffix,
                },
            ),
            ..self
        }
    }
}

impl ThunkView {
    /// The default output of the step.
    pub open spec fn path(self) -> DrvPathView {
        DrvPathView { drv: Box::new(self), output: None, suffix: None }
    }

    /// The output `output` of the step.
    pub open spec fn out(self, output: Seq<char>) -> DrvPathView {
        DrvPathView { drv: Box::new(self), output: Some(output), suffix: None }
    }

    /// The path `suffix` below the default output of the step.
    pub open spec fn suff(self, suffix: Seq<char>) -> DrvPathView {
        DrvPathView { drv: Box::new(self), output: None, suffix: Some(suffix) }
    }

    /// The default output of the step, as a value.
    pub open spec fn expr(self) -> ExprView {
        ExprView::Drv(self.path())
    }
}

impl LazyDrv {
    /// The output `output` of the step.
    pub fn out(&self, output: &str) -> (p: DrvPath)
        ensures
            p@ == self@.out(output@),
    {
        DrvPath { drv: self.clone(), output: Some(String::from_str(output)), suffix: None }
    }

    /// The path `suffix` below the default output of the step.
    pub fn suff(&self, suffix: &str) -> (p: DrvPath)
        ensures
            p@ == self@.suff(suffix@),
    {
        DrvPath { drv: self.clone(), output: None, suffix: Some(String::from_str(suffix)) }
    }
}

impl Expr {
    pub open spec fn view(&self) -> ExprView
        decreases self,
    {
        match self {
            Expr::Str(s) => ExprView::Str(s@),
            Expr::File(s) => ExprView::File(s@),
            Expr::Drv(p) => ExprView::Drv(p.view()),
            Expr::List(items) => ExprView::List(exprs_view(items@)),
        }
    }

    /// A literal string.
    pub fn str(s: &str) -> (e: Expr)
        ensures
            e@ == ExprView::Str(s@),
    {
        Expr::Str(String::from_str(s))
    }

    /// The path of another step's default output.
    pub fn drv(drv: LazyDrv) -> (e: Expr)
        ensures
            e@ == drv@.expr(),
    {
        Expr::Drv(DrvPath { drv, output: None, suffix: None })
    }

    /// The literal that an optional string holds, where it holds one.
    pub fn opt_string(v: Option<String>) -> (e: Option<Expr>)
        ensures
            crate::drv::opt_expr_view(e) == crate::vars::str_opt(v.deep_view()),
    {
        match v {
            Some(s) => Some(Expr::Str(s)),
            None => None,
        }
    }

    /// The default output of the step that an optional handle stands for,
    /// where there is one.
    pub fn opt_drv(v: Option<LazyDrv>) -> (e: Option<Expr>)
        ensures
            crate::drv::opt_expr_view(e) == crate::vars::drv_opt(crate::drv::opt_drv_view(v)),
    {
        match v {
            Some(h) => Some(Expr::drv(h)),
            None => None,
        }
    }

    /// A list of values, in the order given.
    pub fn list(items: Vec<Expr>) -> (e: Expr)
        ensures
            e@ == ExprView::List(exprs_view(items@)),
    {
        Expr::List(items)
    }
}

/// A file that ships with the recipe, named by its path relative to the
/// recipe's own directory.
pub fn local_file(path: &str) -> (e: Expr)
    ensures
        e@ == ExprView::File(path@),
{
    Expr::File(String::from_str(path))
}

/// Copies a list of values.
pub fn clone_exprs(items: &Vec<Expr>) -> (r: Vec<Expr>)
    ensures
        exprs_view(r@) == exprs_view(items@),
    decreases items,
{
    let mut out: Vec<Expr> = Vec::new();
    let mut i: usize = 0;
    while i < items.len()
        invariant
            i <= items.len(),
            out.len() == i,
            forall|j: int| 0 <= j < i ==> (#[trigger] out[j]).view() == items[j].view(),
        decreases items.len() - i,
    {
        let item = items[i].clone();
        out.push(item);
        i += 1;
    }
    assert(exprs_view(out@) =~= exprs_view(items@));
    out
}

impl Clone for DrvPath {
    fn clone(&self) -> (r: DrvPath)
        ensures
            r@ == self@,
    {
        DrvPath {
            drv: self.drv.clone(),
            output: self.output.clone(),
            suffix: self.suffix.clone(),
        }
    }
}

impl Clone for Expr {
    fn clone(&self) -> (r: Expr)
        ensures
            r@ == self@,
        decreases self,
    {
        match self {
            Expr::Str(s) => Expr::Str(s.clone()),
            Expr::File(s) => Expr::File(s.clone()),
            Expr::Drv(p) => Expr::Drv(p.clone()),
            Expr::List(items) => Expr::List(clone_exprs(items)),
        }
    }
}

} // verus!

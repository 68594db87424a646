//! A fetcher that downloads nothing: its steps only write down what they
//! were asked for. It serves to try a package set out where there is no
//! network.

use crate::drv::{Drv, DrvBuilder, DrvBuilderView, DrvView, LazyDrv, ThunkView};
use crate::expr::{Expr, ExprView};
use crate::stdenv::Stdenv;
use crate::text::{base_name, base_name_of};
use std::ops::Deref;
use vstd::prelude::*;

verus! {

/// What the fetcher's own step runs.
pub const FETCHURL_COMMAND: &'static str = r#"printf "%s\n" "---hello from fetchurl---" $name > $out"#;

/// What the step for one URL runs.
pub const FETCH_COMMAND: &'static str =
    r#"printf "%s\n" "---hello from fetchurlparam---" $name $url $hash > $out"#;

/// The fetcher as a step of its own.
pub struct FetchUrlDrv {
    pub stdenv: Stdenv,
}

/// The fetcher's own step. It does not depend on the environment it is
/// given.
pub open spec fn fetchurl_step() -> DrvView {
    DrvBuilderView::empty().name("fetchurl-0.0.0"@).builder(ExprView::Str("/bin/sh"@)).arg(
        ExprView::Str("-c"@),
    ).arg(ExprView::Str(FETCHURL_COMMAND@)).build()
}

impl FetchUrlDrv {
    /// Describes the fetcher's own step.
    pub fn into_drv(self) -> (drv: Drv)
        ensures
            drv@ == fetchurl_step(),
    {
        DrvBuilder::new().name("fetchurl-0.0.0").builder(Expr::str("/bin/sh")).arg(
            Expr::str("-c"),
        ).arg(Expr::str(FETCHURL_COMMAND)).build()
    }
}

/// A handle to the fetcher, by which sources are fetched.
pub struct FetchUrl(pub LazyDrv);

impl View for FetchUrl {
    type V = ThunkView;

    open spec fn view(&self) -> ThunkView {
        self.0@
    }
}

impl Clone for FetchUrl {
    fn clone(&self) -> (r: FetchUrl)
        ensures
            r == *self,
    {
        FetchUrl(self.0.clone())
    }
}

impl Deref for FetchUrl {
    type Target = LazyDrv;

    fn deref(&self) -> (r: &LazyDrv)
        ensures
            *r == self.0,
    {
        &self.0
    }
}

/// The step for one URL: fixed-output, named after the last component of
/// the URL, with the fetcher and the URL as its inputs.
pub open spec fn fetch_step(fetchurl: ThunkView, url: Seq<char>, hash: Seq<char>) -> DrvView {
    DrvBuilderView::empty().name(base_name_of(url)).builder(ExprView::Str("/bin/sh"@)).arg(
        ExprView::Str("-c"@),
    ).arg(ExprView::Str(FETCH_COMMAND@)).fixed_hash(hash).input("fetchurl"@, fetchurl.expr()).input(
        "url"@,
        ExprView::Str(url),
    ).build()
}

impl FetchUrl {
    /// A handle to the fetcher that `fetchurl` describes.
    pub fn new(fetchurl: FetchUrlDrv) -> (f: FetchUrl)
        ensures
            f@ == ThunkView::Step(fetchurl_step()),
    {
        FetchUrl(LazyDrv::new(fetchurl.into_drv()))
    }

    /// A handle to the source at `url`, whose content must have the hash
    /// `hash`.
    pub fn fetch(&self, url: &str, hash: crate::hash::Hash) -> (h: LazyDrv)
        ensures
            h@ == ThunkView::Step(fetch_step(self@, url@, hash@)),
    {
        LazyDrv::new(
            FetchUrlParam { fetchurl: self.0.clone(), url: String::from_str(url), hash }.into_drv(),
        )
    }
}

/// One request to the fetcher.
pub struct FetchUrlParam {
    pub fetchurl: LazyDrv,
    pub url: String,
    pub hash: crate::hash::Hash,
}

impl FetchUrlParam {
    /// Describes the step that serves the request.
    pub fn into_drv(self) -> (drv: Drv)
        ensures
            drv@ == fetch_step(self.fetchurl@, self.url@, self.hash@),
    {
        let name = base_name(self.url.as_str());
        DrvBuilder::new().name(name.as_str()).builder(Expr::str("/bin/sh")).arg(
            Expr::str("-c"),
        ).arg(Expr::str(FETCH_COMMAND)).fixed_hash(self.hash).input(
            "fetchurl",
            Expr::drv(self.fetchurl),
        ).input("url", Expr::Str(self.url)).build()
    }
}

} // verus!

//! Fetching a source by its URL.

use crate::drv::{Drv, DrvView, LazyDrv, ThunkView};
use crate::expr::{local_file, Expr, ExprView};
use crate::stdenv::{Stdenv, StdenvBuilderView, StdenvDrvView};
use crate::text::{base_name, base_name_of};
use vstd::prelude::*;

verus! {

/// How sources are fetched: by a step that runs curl in a standard
/// environment, or by the engine's own fetcher.
pub enum FetchUrl {
    Stdenv(StdenvFetchUrl),
    Builtins,
}

/// What the fetching step needs: an environment without a compiler, and
/// curl.
pub struct StdenvFetchUrl {
    pub stdenv_no_cc: Stdenv,
    pub curl: LazyDrv,
}

/// `FetchUrl` as a mathematical value: every string a sequence of characters,
/// every list a sequence.
pub enum FetchUrlView {
    Stdenv { stdenv_no_cc: StdenvDrvView, curl: ThunkView },
    Builtins,
}

/// The fetching step for one URL: fixed-output, named after the last
/// component of the URL.
#[verifier::opaque]
pub open spec fn fetch_step(
    stdenv_no_cc: StdenvDrvView,
    curl: ThunkView,
    url: Seq<char>,
    hash: Seq<char>,
) -> DrvView {
    StdenvBuilderView::new(stdenv_no_cc).name(base_name_of(url)).builder(
        ExprView::File("builder.sh"@),
    ).fixed_hash(hash).input("url"@, ExprView::Str(url)).input("curl"@, curl.expr()).compile()
}

impl FetchUrlView {
    /// What a handle to the fetched source stands for.
    pub open spec fn fetch(self, url: Seq<char>, hash: Seq<char>) -> ThunkView {
        match self {
            FetchUrlView::Stdenv { stdenv_no_cc, curl } => ThunkView::Step(
                fetch_step(stdenv_no_cc, curl, url, hash),
            ),
            FetchUrlView::Builtins => ThunkView::FetchUrl(
                crate::builtins::FetchUrlView {
                    name: None,
                    url,
                    hash,
                    unpack: false,
                    executable: false,
                },
            ),
        }
    }
}

impl View for FetchUrl {
    type V = FetchUrlView;

    open spec fn view(&self) -> FetchUrlView {
        match self {
            FetchUrl::Stdenv(f) => FetchUrlView::Stdenv {
                stdenv_no_cc: f.stdenv_no_cc@,
                curl: f.curl@,
            },
            FetchUrl::Builtins => FetchUrlView::Builtins,
        }
    }
}

impl Clone for StdenvFetchUrl {
    fn clone(&self) -> (r: StdenvFetchUrl)
        ensures
            r == *self,
    {
        StdenvFetchUrl { stdenv_no_cc: self.stdenv_no_cc.clone(), curl: self.curl.clone() }
    }
}

impl Clone for FetchUrl {
    fn clone(&self) -> (r: FetchUrl)
        ensures
            r == *self,
    {
        match self {
            FetchUrl::Stdenv(f) => FetchUrl::Stdenv(f.clone()),
            FetchUrl::Builtins => FetchUrl::Builtins,
        }
    }
}

impl FetchUrl {
    /// Fetching by a step in a standard environment.
    pub fn new(fetchurl: StdenvFetchUrl) -> (f: FetchUrl)
        ensures
            f == FetchUrl::Stdenv(fetchurl),
    {
        FetchUrl::Stdenv(fetchurl)
    }

    /// Fetching by the engine's own fetcher.
    pub fn from_builtins() -> (f: FetchUrl)
        ensures
            f == FetchUrl::Builtins,
    {
        FetchUrl::Builtins
    }

    /// A handle to the source at `url`, whose content must have the hash
    /// `hash`.
    pub fn fetch(&self, url: &str, hash: crate::hash::Hash) -> (h: LazyDrv)
        ensures
            h@ == self@.fetch(url@, hash@),
    {
        match self {
            FetchUrl::Stdenv(fetchurl) => LazyDrv::new(
                FetchUrlParam {
                    stdenv_no_cc: fetchurl.stdenv_no_cc.clone(),
                    curl: fetchurl.curl.clone(),
                    url: String::from_str(url),
                    hash,
                }.into_drv(),
            ),
            FetchUrl::Builtins => LazyDrv::builtin(
                crate::builtins::FetchUrl {
                    name: None,
                    url: String::from_str(url),
                    hash,
                    unpack: false,
                    executable: false,
                },
            ),
        }
    }
}

struct FetchUrlParam {
    stdenv_no_cc: Stdenv,
    curl: LazyDrv,
    url: String,
    hash: crate::hash::Hash,
}

impl FetchUrlParam {
    fn into_drv(self) -> (drv: Drv)
        ensures
            drv@ == fetch_step(self.stdenv_no_cc@, self.curl@, self.url@, self.hash@),
    {
        proof {
            reveal(fetch_step);
        }
        let name = base_name(self.url.as_str());
        self.stdenv_no_cc.make_derivation().name(name.as_str()).builder(
            local_file("builder.sh"),
        ).fixed_hash(self.hash).input("url", Expr::Str(self.url)).input(
            "curl",
            Expr::drv(self.curl),
        ).build()
    }
}

} // verus!

//! Every package of the set, built against one bootstrapped environment.

use crate::build::curl::{self, Curl};
use crate::build::fetchurl::{FetchUrl, FetchUrlView, StdenvFetchUrl};
use crate::build::pkg_config::{self, PkgConfig};
use crate::development::interpreters::perl::{self, Perl};
use crate::development::libraries::libiconv::{self, LibIConv};
use crate::development::libraries::zlib::{self, Zlib};
use crate::drv::{LazyDrv, ThunkView};
use crate::expr::Expr;
use crate::misc::hello::{self, Hello};
use crate::stdenv::linux::{bootstrapped, can_bootstrap, Noop};
use crate::stdenv::{Stdenv, StdenvDrvView};
use crate::system::System;
use vstd::prelude::*;

verus! {

/// The environment, the fetcher, and a handle to each package.
pub struct AllPkgs {
    pub stdenv: Stdenv,
    pub fetchurl: FetchUrl,
    pub zlib: LazyDrv,
    pub libiconv: LazyDrv,
    pub pkg_config: LazyDrv,
    pub perl: LazyDrv,
    pub curl: LazyDrv,
    pub hello: LazyDrv,
}

/// `AllPkgs` as a mathematical value: every string a sequence of characters,
/// every list a sequence.
pub struct AllPkgsView {
    pub stdenv: StdenvDrvView,
    pub fetchurl: FetchUrlView,
    pub zlib: ThunkView,
    pub libiconv: ThunkView,
    pub pkg_config: ThunkView,
    pub perl: ThunkView,
    pub curl: ThunkView,
    pub hello: ThunkView,
}

impl View for AllPkgs {
    type V = AllPkgsView;

    open spec fn view(&self) -> AllPkgsView {
        AllPkgsView {
            stdenv: self.stdenv@,
            fetchurl: self.fetchurl@,
            zlib: self.zlib@,
            libiconv: self.libiconv@,
            pkg_config: self.pkg_config@,
            perl: self.perl@,
            curl: self.curl@,
            hello: self.hello@,
        }
    }
}

/// The curl that fetches for the package set. Its own sources, and those
/// of everything it is built from, come through the engine's fetcher.
pub open spec fn fetching_curl(stdenv: StdenvDrvView) -> ThunkView {
    let libiconv = ThunkView::Step(libiconv::step(stdenv, FetchUrlView::Builtins, None));
    let pkg_config = ThunkView::Step(
        pkg_config::step(stdenv, FetchUrlView::Builtins, libiconv, None),
    );
    let zlib = ThunkView::Step(zlib::step(stdenv, FetchUrlView::Builtins, None, None, None));
    let perl = perl::thunk(stdenv, FetchUrlView::Builtins, zlib, true);
    ThunkView::Step(curl::step(stdenv, FetchUrlView::Builtins, pkg_config, perl))
}

/// The fetcher of the package set: a step in `stdenv` that runs the
/// fetching curl.
pub open spec fn fetcher(stdenv: StdenvDrvView) -> FetchUrlView {
    FetchUrlView::Stdenv { stdenv_no_cc: stdenv, curl: fetching_curl(stdenv) }
}

/// The package set over `stdenv`. Curl is built without pkg-config: a
/// step that does nothing stands in for it.
pub open spec fn packages_in(stdenv: StdenvDrvView) -> AllPkgsView {
    let fetchurl = fetcher(stdenv);
    let zlib = ThunkView::Step(zlib::step(stdenv, fetchurl, None, None, None));
    let libiconv = ThunkView::Step(libiconv::step(stdenv, fetchurl, None));
    let pkg_config = ThunkView::Step(pkg_config::step(stdenv, fetchurl, libiconv, None));
    let perl = perl::thunk(stdenv, fetchurl, zlib, true);
    let curl = ThunkView::Step(
        curl::step(stdenv, fetchurl, ThunkView::Step(Noop::step()), perl),
    );
    let hello = ThunkView::Step(hello::step(stdenv, fetchurl));
    AllPkgsView { stdenv, fetchurl, zlib, libiconv, pkg_config, perl, curl, hello }
}

/// The package set of a platform.
pub open spec fn packages(system: System) -> AllPkgsView {
    packages_in(bootstrapped(system))
}

/// The packages by name, in the order in which they are built.
pub open spec fn by_name(pkgs: AllPkgsView) -> Seq<(Seq<char>, ThunkView)> {
    seq![
        ("zlib"@, pkgs.zlib),
        ("libiconv"@, pkgs.libiconv),
        ("pkg-config"@, pkgs.pkg_config),
        ("perl"@, pkgs.perl),
        ("curl"@, pkgs.curl),
        ("hello"@, pkgs.hello),
    ]
}

/// The names and handles of `entries`, each by its view.
pub open spec fn entries_view(entries: Seq<(String, LazyDrv)>) -> Seq<(Seq<char>, ThunkView)> {
    Seq::new(entries.len(), |i: int| (entries[i].0@, entries[i].1@))
}

/// Builds the package set of `system`: the packages by name, and the set
/// as a record.
pub fn all_pkgs(system: System) -> (r: (Vec<(String, LazyDrv)>, Box<AllPkgs>))
    requires
        can_bootstrap(system, true),
    ensures
        r.1@ == packages(system),
        entries_view(r.0@) == by_name(packages(system)),
{
    let stdenv = build_stdenv(system);
    let fetchurl = build_fetchurl(&stdenv);
    let mut pkgs: Vec<(String, LazyDrv)> = Vec::new();

    let zlib = LazyDrv::new(
        Zlib {
            stdenv: stdenv.clone(),
            fetchurl: fetchurl.clone(),
            shared: None,
            static_lib: None,
            split_static_out: None,
        }.into_drv(),
    );
    pkgs.push((String::from_str("zlib"), zlib.clone()));

    let libiconv = LazyDrv::new(
        LibIConv {
            stdenv: stdenv.clone(),
            fetchurl: fetchurl.clone(),
            update_autotools_gnu_config_scripts: Expr::str(""),
            shared: None,
            static_lib: None,
        }.into_drv(),
    );
    pkgs.push((String::from_str("libiconv"), libiconv.clone()));

    let pkg_config = LazyDrv::new(
        PkgConfig {
            stdenv: stdenv.clone(),
            fetchurl: fetchurl.clone(),
            libiconv: libiconv.clone(),
            vanilla: None,
        }.into_drv(),
    );
    pkgs.push((String::from_str("pkg-config"), pkg_config.clone()));

    let perl = Perl {
        stdenv: stdenv.clone(),
        fetchurl: fetchurl.clone(),
        zlib: zlib.clone(),
        enable_threading: true,
    }.lazy();
    pkgs.push((String::from_str("perl"), perl.clone()));

    let curl = LazyDrv::new(
        Curl {
            stdenv: stdenv.clone(),
            fetchurl: fetchurl.clone(),
            pkg_config: LazyDrv::new(Noop.into_drv()),
            perl: perl.clone(),
        }.into_drv(),
    );
    pkgs.push((String::from_str("curl"), curl.clone()));

    let hello = LazyDrv::new(
        Hello { stdenv: stdenv.clone(), fetchurl: fetchurl.clone() }.into_drv(),
    );
    pkgs.push((String::from_str("hello"), hello.clone()));

    let all = AllPkgs { stdenv, fetchurl, zlib, libiconv, pkg_config, perl, curl, hello };
    assert(entries_view(pkgs@) =~= by_name(all@));
    (pkgs, Box::new(all))
}

/// Bootstraps the environment of `system`, with the GNU C library.
fn build_stdenv(system: System) -> (stdenv: Stdenv)
    requires
        can_bootstrap(system, true),
    ensures
        stdenv@ == bootstrapped(system),
{
    Stdenv::new(crate::stdenv::linux::build_stdenv(system, true))
}

/// Builds the fetcher of the package set over `stdenv`. The sources of the
/// fetcher itself come through the engine's fetcher. Every environment
/// gets a fetcher: the interpreter that its curl is built with is held by
/// a handle and not forced here.
pub fn build_fetchurl(stdenv: &Stdenv) -> (fetchurl: FetchUrl)
    ensures
        fetchurl@ == fetcher(stdenv@),
{
    FetchUrl::new(
        StdenvFetchUrl {
            stdenv_no_cc: stdenv.clone(),
            curl: LazyDrv::new(
                Curl {
                    stdenv: stdenv.clone(),
                    fetchurl: FetchUrl::Builtins,
                    pkg_config: LazyDrv::new(
                        PkgConfig {
                            stdenv: stdenv.clone(),
                            fetchurl: FetchUrl::Builtins,
                            libiconv: LazyDrv::new(
                                LibIConv {
                                    stdenv: stdenv.clone(),
                                    fetchurl: FetchUrl::Builtins,
                                    update_autotools_gnu_config_scripts: Expr::str(""),
                                    static_lib: None,
                                    shared: None,
                                }.into_drv(),
                            ),
                            vanilla: None,
                        }.into_drv(),
                    ),
                    perl: Perl {
                        stdenv: stdenv.clone(),
                        fetchurl: FetchUrl::Builtins,
                        zlib: LazyDrv::new(
                            Zlib {
                                stdenv: stdenv.clone(),
                                fetchurl: FetchUrl::Builtins,
                                shared: None,
                                static_lib: None,
                                split_static_out: None,
                            }.into_drv(),
                        ),
                        enable_threading: true,
                    }.lazy(),
                }.into_drv(),
            ),
        },
    )
}

} // verus!

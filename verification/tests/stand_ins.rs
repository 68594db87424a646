use pkgs::drv::{Drv, LazyDrv, Thunk};
use pkgs::expr::{local_file, Expr};
use pkgs::fetchers::fetchurl::{FetchUrl, FetchUrlDrv, FetchUrlParam};
use pkgs::hello::Hello;
use pkgs::perl::Perl;
use pkgs::stdenv::linux::build_stdenv;
use pkgs::stdenv::Stdenv;
use pkgs::system::System;

fn stdenv() -> Stdenv {
    Stdenv::new(build_stdenv(System::x86_64_linux, true))
}

fn step(h: &LazyDrv) -> &Drv {
    match &*h.thunk {
        Thunk::Step(d) => d,
        _ => panic!("a step was expected"),
    }
}

#[test]
fn recording_fetcher_step() {
    let drv = FetchUrlDrv { stdenv: stdenv() }.into_drv();
    assert_eq!(drv.name, "fetchurl-0.0.0");
    assert_eq!(drv.builder, Expr::str("/bin/sh"));
    assert_eq!(
        drv.args,
        vec![Expr::str("-c"), Expr::str("printf \"%s\\n\" \"---hello from fetchurl---\" $name > $out")]
    );
    assert!(drv.inputs.is_empty() && drv.outputs.is_empty());
    assert_eq!(drv.fixed_hash, None);
}

#[test]
fn recording_fetcher_fetches_by_base_name() {
    let fetchurl = FetchUrl::new(FetchUrlDrv { stdenv: stdenv() });
    assert_eq!(*fetchurl, LazyDrv::new(FetchUrlDrv { stdenv: stdenv() }.into_drv()));
    let h = fetchurl.fetch("https://fake.url.com/test2/testurl-1.0", pkgs::hash::Hash::new("sha256:aa"));
    let drv = step(&h);
    assert_eq!(drv.name, "testurl-1.0");
    assert_eq!(drv.builder, Expr::str("/bin/sh"));
    assert_eq!(
        drv.args,
        vec![
            Expr::str("-c"),
            Expr::str("printf \"%s\\n\" \"---hello from fetchurlparam---\" $name $url $hash > $out")
        ]
    );
    assert_eq!(drv.fixed_hash, Some(pkgs::hash::Hash::new("sha256:aa")));
    assert_eq!(
        drv.inputs,
        vec![
            ("fetchurl".to_string(), Expr::drv((*fetchurl).clone())),
            ("url".to_string(), Expr::str("https://fake.url.com/test2/testurl-1.0")),
        ]
    );
    assert_eq!(fetchurl.clone().0, fetchurl.0);
}

#[test]
fn fetch_request_step() {
    let fetchurl = FetchUrl::new(FetchUrlDrv { stdenv: stdenv() });
    let by_hand = FetchUrlParam {
        fetchurl: fetchurl.0.clone(),
        url: "a/b/c.tar".to_string(),
        hash: pkgs::hash::Hash::new("sha256:bb"),
    }
    .into_drv();
    assert_eq!(by_hand.name, "c.tar");
    assert_eq!(&by_hand, step(&fetchurl.fetch("a/b/c.tar", pkgs::hash::Hash::new("sha256:bb"))));
}

#[test]
fn scripted_hello_step() {
    let fetchurl = FetchUrl::new(FetchUrlDrv { stdenv: stdenv() });
    let perl = LazyDrv::new(Perl { stdenv: stdenv(), fetchurl: fetchurl.clone() }.into_drv());
    let drv = Hello { fetchurl: fetchurl.clone(), stdenv: stdenv(), perl: perl.clone() }.into_drv();
    assert_eq!(drv.name, "hello-0.0.1");
    assert_eq!(drv.builder, local_file("builder.sh"));
    assert!(drv.args.is_empty() && drv.outputs.is_empty());
    assert_eq!(
        drv.inputs,
        vec![
            ("perl".to_string(), Expr::Drv(perl.out("bin").suff("/bin/perl"))),
            (
                "src".to_string(),
                Expr::drv(fetchurl.fetch(
                    "https://fake.url.com/test2/testurl-1.0",
                    pkgs::hash::Hash::new("sha256:abcdefghabcdefghabcdefghabcdefghabcdefghijk")
                ))
            ),
            (
                "patches".to_string(),
                Expr::List(vec![local_file("patches/abcd.patch"), local_file("patches/efgh.patch")])
            ),
            (
                "usrs".to_string(),
                Expr::List(vec![
                    Expr::str("alice"),
                    Expr::str("bob"),
                    Expr::List(vec![Expr::str("eve"), Expr::str("john \"doe\"")]),
                ])
            ),
        ]
    );
}

#[test]
fn stand_in_perl_step() {
    let fetchurl = FetchUrl::new(FetchUrlDrv { stdenv: stdenv() });
    let drv = Perl { stdenv: stdenv(), fetchurl }.into_drv();
    assert_eq!(drv.name, "perl");
    assert_eq!(drv.outputs, vec!["bin".to_string()]);
    assert_eq!(drv.builder, Expr::str("/bin/sh"));
    assert_eq!(drv.args, vec![Expr::str("-c"), Expr::str("echo \"---hello from perl---\" > $bin")]);
    assert!(drv.inputs.is_empty());
}

use pkgs::build::curl::Curl;
use pkgs::build::fetchurl::{FetchUrl, StdenvFetchUrl};
use pkgs::build::pkg_config::PkgConfig;
use pkgs::development::interpreters::perl::Perl;
use pkgs::development::libraries::libiconv::LibIConv;
use pkgs::development::libraries::zlib::Zlib;
use pkgs::drv::{Drv, DrvBuilder, LazyDrv, Missing, Thunk};
use pkgs::expr::{local_file, Expr};
use pkgs::misc::hello::Hello;
use pkgs::stdenv::linux::{build_stdenv, Noop};
use pkgs::stdenv::{Stdenv, StdenvDrv};
use pkgs::system::System;
use pkgs::top_level::all_packages::{all_pkgs, build_fetchurl};

fn stdenv() -> Stdenv {
    Stdenv::new(build_stdenv(System::x86_64_linux, true))
}

fn tool(name: &str) -> LazyDrv {
    LazyDrv::new(DrvBuilder::new().name(name).builder(Expr::str("/bin/sh")).build())
}

fn text(s: &str) -> Expr {
    Expr::Str(s.to_string())
}

fn step(h: &LazyDrv) -> &Drv {
    match &*h.thunk {
        Thunk::Step(d) => d,
        _ => panic!("a step was expected"),
    }
}

fn zlib(shared: Option<bool>, static_lib: Option<bool>, split: Option<bool>) -> Drv {
    Zlib { stdenv: stdenv(), fetchurl: FetchUrl::Builtins, shared, static_lib, split_static_out: split }
        .into_drv()
}

#[test]
fn zlib_shared_and_static() {
    let drv = zlib(Some(true), Some(true), None);
    assert_eq!(drv.name, "zlib-1.3.1");
    assert_eq!(drv.get("CONFIGURE_FLAGS"), Some(&text("--static--shared")));
    assert_eq!(drv.get("CHECK"), Some(&text("1")));
    assert_eq!(drv.outputs, vec!["out".to_string(), "dev".to_string(), "static".to_string()]);
    assert_eq!(drv.get("POST_INSTALL"), Some(&text("moveToOutput lib/libz.a \"$static\"")));
    assert_eq!(drv.get("MAKE_FLAGS"), Some(&text("SHARED_MODE=1")));
}

#[test]
fn zlib_defaults_are_shared_and_static() {
    assert_eq!(zlib(None, None, None), zlib(Some(true), Some(true), Some(true)));
}

#[test]
fn zlib_variables() {
    let drv = zlib(None, None, None);
    assert_eq!(drv.get("STRICT_DEPS"), Some(&text("1")));
    assert_eq!(drv.get("DONT_DISABLE_STATIC"), Some(&text("1")));
    assert_eq!(drv.get("DONT_ADD_STATIC_CONFIGURE_FLAGS"), Some(&text("1")));
    assert_eq!(drv.get("SET_OUTPUT_FLAG"), None);
    assert_eq!(drv.get("OUTPUT_DOC"), Some(&text("dev")));
    assert_eq!(drv.get("ENABLE_PARALLEL_BUILDING"), Some(&text("1")));
    assert_eq!(
        drv.get("SRC"),
        Some(&Expr::drv(FetchUrl::Builtins.fetch(
            "https://www.zlib.net/fossils/zlib-1.3.1.tar.gz",
            pkgs::hash::Hash::new(
                "sha512:vUFhtqfzz1sc1ZrLRgf5N5tgEXZmVUiOz98ArlTJJkRE3wkwnPxOaZKbZlNaFwFpJZTF0ppe5awPrKPUKpHm_g"
            )
        )))
    );
    assert_eq!(
        &drv.inputs.iter().map(|(k, _)| k.as_str()).collect::<Vec<_>>()[..6],
        [
            "STRICT_DEPS",
            "DONT_DISABLE_STATIC",
            "DONT_ADD_STATIC_CONFIGURE_FLAGS",
            "OUTPUT_DOC",
            "ENABLE_PARALLEL_BUILDING",
            "stdenv"
        ]
    );
}

#[test]
fn zlib_static_only() {
    let drv = zlib(Some(false), Some(true), None);
    assert_eq!(drv.get("CONFIGURE_FLAGS"), Some(&text("--static")));
    assert_eq!(drv.outputs, vec!["out".to_string(), "dev".to_string()]);
    assert_eq!(drv.get("POST_INSTALL"), Some(&text("")));
    assert_eq!(drv.get("MAKE_FLAGS"), Some(&text("")));
}

#[test]
fn zlib_shared_only() {
    let drv = zlib(Some(true), Some(false), None);
    assert_eq!(drv.get("CONFIGURE_FLAGS"), Some(&text("--shared")));
    assert_eq!(drv.outputs, vec!["out".to_string(), "dev".to_string()]);
    assert_eq!(drv.get("MAKE_FLAGS"), Some(&text("SHARED_MODE=1")));
}

#[test]
fn zlib_neither_kind() {
    let drv = zlib(Some(false), Some(false), None);
    assert_eq!(drv.get("CONFIGURE_FLAGS"), Some(&text("")));
}

#[test]
fn zlib_split_can_be_forced() {
    let drv = zlib(Some(false), Some(true), Some(true));
    assert_eq!(drv.outputs, vec!["out".to_string(), "dev".to_string(), "static".to_string()]);
    assert_eq!(drv.get("POST_INSTALL"), Some(&text("moveToOutput lib/libz.a \"$static\"")));
    let drv = zlib(Some(true), Some(true), Some(false));
    assert_eq!(drv.outputs, vec!["out".to_string(), "dev".to_string()]);
    assert_eq!(drv.get("POST_INSTALL"), Some(&text("")));
}

fn libiconv(static_lib: Option<bool>, shared: Option<bool>) -> Drv {
    LibIConv {
        stdenv: stdenv(),
        fetchurl: FetchUrl::Builtins,
        update_autotools_gnu_config_scripts: text(""),
        static_lib,
        shared,
    }
    .into_drv()
}

#[test]
fn libiconv_default() {
    let drv = libiconv(None, None);
    assert_eq!(drv.name, "libiconv-1.17");
    assert_eq!(drv.get("CONFIGURE_FLAGS"), Some(&text("disable-static enable-shared")));
    assert_eq!(drv.get("POST_PATCH"), Some(&text("")));
    assert_eq!(drv.get("ENABLE_PARALLEL_BUILDING"), Some(&text("1")));
    assert_eq!(
        drv.get("SETUP_HOOKS"),
        Some(&Expr::List(vec![
            local_file("../../../build/setup-hooks/role.bash"),
            local_file("setup-hook.sh")
        ]))
    );
    assert_eq!(
        drv.get("SRC"),
        Some(&Expr::drv(FetchUrl::Builtins.fetch(
            "mirror://gnu/libiconv/libiconv-1.17.tar.gz",
            pkgs::hash::Hash::new(
                "sha512:tV3EG2q4Dl4Z_KqSDqaQcMRHakko0t9aNhFfnpM-Semzv05RLy5zbhHAPqxIrV3cmNdDdahkRYtwn166fZdyHA"
            )
        )))
    );
    assert!(drv.outputs.is_empty());
    assert_eq!(drv.get("CHECK"), None);
}

#[test]
fn libiconv_static_decides_both_kinds() {
    let drv = libiconv(Some(true), None);
    assert_eq!(drv.get("CONFIGURE_FLAGS"), Some(&text("enable-static enable-shared")));
    assert_eq!(drv.get("POST_PATCH"), Some(&text("")));
    let drv = libiconv(Some(false), None);
    assert_eq!(drv.get("CONFIGURE_FLAGS"), Some(&text("disable-static disable-shared")));
    assert_eq!(drv.get("POST_PATCH"), Some(&text("sed -i -e '/preload/d' Makefile.in")));
}

#[test]
fn libiconv_does_not_consult_shared() {
    assert_eq!(libiconv(None, Some(false)), libiconv(None, Some(true)));
    assert_eq!(libiconv(Some(false), Some(true)), libiconv(Some(false), None));
}

fn pkg_config(vanilla: Option<bool>) -> Drv {
    PkgConfig { stdenv: stdenv(), fetchurl: FetchUrl::Builtins, libiconv: tool("libiconv"), vanilla }
        .into_drv()
}

#[test]
fn pkg_config_default_carries_the_patch() {
    let drv = pkg_config(None);
    assert_eq!(drv.name, "pkg-config-0.29.2");
    assert_eq!(drv.outputs, vec!["out".to_string(), "man".to_string(), "doc".to_string()]);
    assert_eq!(drv.get("PATCHES"), Some(&Expr::List(vec![local_file("requires-private.patch")])));
    assert_eq!(
        drv.get("POST_PATCH"),
        Some(&text(
            "substituteInPlace ./config.guess ./glib/config.guess --replace-fail /usr/bin/uname uname\nrm -f check/check-requires-private check/check-gtk check/missing"
        ))
    );
    assert_eq!(drv.get("DEPS_BUILD_HOST"), Some(&Expr::List(vec![Expr::drv(tool("libiconv"))])));
    assert_eq!(drv.get("CONFIGURE_FLAGS"), Some(&text("--with-internal-glib")));
    assert_eq!(drv.get("STRICT_DEPS"), Some(&text("1")));
    assert_eq!(drv.get("ENABLE_PARALLEL_BUILDING"), Some(&text("1")));
    assert_eq!(drv.get("CHECK"), Some(&text("1")));
    assert_eq!(drv.get("POST_INSTALL"), Some(&text("rm -f \"$out\"/bin/*-pkg-config")));
    assert_eq!(
        drv.get("SRC"),
        Some(&Expr::drv(FetchUrl::Builtins.fetch(
            "https://pkg-config.freedesktop.org/releases/pkg-config-0.29.2.tar.gz",
            pkgs::hash::Hash::new(
                "sha512:YzJSc1lXcHFabXhyWVhOa2FtWnNZWE5xWm14ellXcG1jMjNSc2FtWnNjMlJxYkdaaGFuTnNhMlpoYzJSclphcw"
            )
        )))
    );
    assert_eq!(pkg_config(Some(false)), drv);
}

#[test]
fn pkg_config_vanilla() {
    let drv = pkg_config(Some(true));
    assert_eq!(drv.get("PATCHES"), None);
    assert_eq!(
        drv.get("POST_PATCH"),
        Some(&text(
            "substituteInPlace ./config.guess ./glib/config.guess --replace-fail /usr/bin/uname uname\n"
        ))
    );
}

#[test]
fn curl_step() {
    let drv = Curl {
        stdenv: stdenv(),
        fetchurl: FetchUrl::Builtins,
        pkg_config: tool("pkg-config"),
        perl: tool("perl"),
    }
    .into_drv();
    assert_eq!(drv.name, "curl-8.14.1");
    assert_eq!(
        drv.outputs,
        vec!["bin".to_string(), "dev".to_string(), "out".to_string(), "man".to_string(), "devdoc".to_string()]
    );
    assert_eq!(
        drv.get("POST_PATCH"),
        Some(&text(
            "substituteInPlace ./config.guess --replace-fail /usr/bin/uname uname\npatchShebangs scripts"
        ))
    );
    assert_eq!(
        drv.get("PRE_CONFIGURE"),
        Some(&text("sed -e 's|/usr/bin|/no-such-path|g' -i.bak configure\nrm src/tool_hugehelp.c"))
    );
    assert_eq!(
        drv.get("CONFIGURE_FLAGS"),
        Some(&text("--enable-versioned-symbols --disable-manual"))
    );
    assert_eq!(drv.get("CXX"), Some(&text("TODOc++")));
    assert_eq!(drv.get("CXXCPP"), Some(&text("TODOc++ -E")));
    assert_eq!(drv.get("ENABLE_PARALLEL_BUILDING"), Some(&text("1")));
    assert_eq!(drv.get("STRICT_DEPS"), Some(&text("1")));
    assert_eq!(
        drv.get("DEPS_BUILD_HOST"),
        Some(&Expr::List(vec![Expr::drv(tool("pkg-config")), Expr::drv(tool("perl"))]))
    );
    assert_eq!(drv.get("CHECK"), Some(&text("1")));
    assert_eq!(drv.get("PRE_CHECK"), Some(&text("patchShebangs tests/")));
    assert_eq!(
        drv.get("POST_INSTALL"),
        Some(&text("moveToOutput bin/curl-config \"$dev\"\n# Install completions\nmake -C scripts install"))
    );
    assert_eq!(
        drv.get("SRC"),
        Some(&Expr::drv(FetchUrl::Builtins.fetch(
            "https://curl.haxx.se/download/curl-8.14.1.tar.xz",
            pkgs::hash::Hash::new(
                "sha512:YzJSc1lXcHFabXhyWVhOa2FtWnNZWE5xWm14ellXcG1jMjNSc2FtWnNjMlJxYkdaaGFuTnNhMlpoYzJSclphcw"
            )
        )))
    );
}

fn perl(enable_threading: bool) -> Drv {
    Perl { stdenv: stdenv(), fetchurl: FetchUrl::Builtins, zlib: tool("zlib"), enable_threading }.into_drv()
}

#[test]
fn perl_without_threads() {
    let drv = perl(false);
    assert_eq!(drv.name, "perl");
    assert_eq!(drv.outputs, vec!["out".to_string(), "man".to_string(), "devdoc".to_string()]);
    assert_eq!(
        drv.get("PRE_PHASE"),
        Some(&text(
            "CONFIGURE_FLAGS=-de -Dprefix=$out -Dman1dir=$out/share/man/man1 -Dman3dir=$out/share/man/man3 -Dcc=cc -Duseshrplib -Uinstallusrbinperl -Dinstallstyle=lib/perl5 -Dlocincpth=$libcInc/include -Dloclibpth=$libcLib/lib\\nCONFIGURE_SCRIPT=\"$shell ./Configure\""
        ))
    );
    assert_eq!(
        drv.get("PATCHES"),
        Some(&Expr::List(vec![
            local_file("patches/CVE-2024-56406.patch"),
            local_file("patches/CVE-2025-40909.patch"),
            local_file("patches/fix-build-with-only-C-locale-5.40.0.patch"),
            local_file("patches/no-sys-dirs-5.40.0.patch"),
        ]))
    );
    assert_eq!(
        drv.get("POST_PATCH"),
        Some(&text(
            "postPatch =\nsubstituteInPlace dist/PathTools/Cwd.pm \\\n    --replace \"/bin/pwd\" \"$(type -P pwd)\"\nunset src\n"
        ))
    );
    let env = stdenv();
    let glibc = env.glibc.clone().unwrap();
    assert_eq!(drv.get("libcInc"), Some(&Expr::Drv(glibc.out("dev"))));
    assert_eq!(drv.get("libcLib"), Some(&Expr::Drv(glibc.out("lib"))));
    assert_eq!(drv.get("zlibDev"), Some(&Expr::Drv(tool("zlib").out("dev"))));
    assert_eq!(drv.get("zlibOut"), Some(&Expr::Drv(tool("zlib").out("out"))));
    assert_eq!(drv.get("cc"), None);
    assert_eq!(drv.get("STRICT_DEPS"), Some(&text("1")));
    assert_eq!(drv.get("ENABLE_PARALLEL_BUILDING"), Some(&text("")));
    assert_eq!(drv.get("SETUP_HOOK"), Some(&local_file("setup-hook.sh")));
    assert_eq!(drv.get("CONFIGURE_FLAGS"), None);
    assert_eq!(drv.get("CHECK"), None);
    assert!(matches!(drv.get("PRE_CONFIGURE"), Some(Expr::Str(s)) if s.starts_with("\ncat > config.over <<EOF\nosvers=\"gnulinux\"\n") && s.ends_with("ZLIB_LIB     = $zlibOut/lib\nEOF")));
    assert!(matches!(drv.get("POST_INSTALL"), Some(Expr::Str(s)) if s.starts_with("# Remove dependency between \"out\" and \"man\" outputs.\nrm \"$out\"/lib/perl5/*/*/.packlist\n") && s.ends_with("  --replace \"$man\" /no-such-path")));
    assert_eq!(
        drv.get("SRC"),
        Some(&Expr::drv(FetchUrl::Builtins.fetch(
            "mirror://cpan/src/5.0/perl-5.40.0.tar.gz",
            pkgs::hash::Hash::new(
                "sha512:fq6a0PymjshE-2APytfavrpCdpV8y0oXomFi8Icb-eRgqyENgsaf_CcLYkYQxxqnZO_pvr5pZzSQG016MKdTEg"
            )
        )))
    );
}

#[test]
fn perl_with_threads() {
    let drv = perl(true);
    assert_eq!(
        drv.get("PRE_PHASE"),
        Some(&text(
            "CONFIGURE_FLAGS=-de -Dprefix=$out -Dman1dir=$out/share/man/man1 -Dman3dir=$out/share/man/man3 -Dcc=cc -Duseshrplib -Uinstallusrbinperl -Dinstallstyle=lib/perl5 -Dlocincpth=$libcInc/include -Dloclibpth=$libcLib/lib -Dusethreads\\nCONFIGURE_SCRIPT=\"$shell ./Configure\""
        ))
    );
}

#[test]
fn hello_sets_every_hook() {
    let drv = Hello { stdenv: stdenv(), fetchurl: FetchUrl::Builtins }.into_drv();
    assert_eq!(drv.name, "hello-2.12.1");
    assert_eq!(drv.get("CHECK"), Some(&text("1")));
    assert_eq!(drv.get("INSTALL_CHECK"), Some(&text("1")));
    for (var, words) in [
        ("UNPACK", "unpack"),
        ("PATCH", "patch"),
        ("CONFIGURE", "configure"),
        ("BUILD", "build"),
        ("CHECK", "check"),
        ("INSTALL", "install"),
        ("FIX", "fix"),
        ("INSTALL_CHECK", "install check"),
    ] {
        assert_eq!(
            drv.get(&format!("PRE_{}", var)),
            Some(&text(&format!("echo \"hello pre {}\"", words))),
            "{}",
            var
        );
        assert_eq!(
            drv.get(&format!("POST_{}", var)),
            Some(&text(&format!("echo \"hello post {}\"", words))),
            "{}",
            var
        );
    }
    assert_eq!(
        drv.inputs.iter().filter(|(k, _)| k == "POST_INSTALL_CHECK").count(),
        1
    );
    assert_eq!(
        drv.get("SRC"),
        Some(&Expr::drv(FetchUrl::Builtins.fetch(
            "mirror://gnu/hello/hello-2.12.1.tar.gz",
            pkgs::hash::Hash::new(
                "sha512:YzJSc1lXcHFabXhyWVhOa2FtWnNZWE5xWm14ellXcG1jMjNSc2FtWnNjMlJxYkdaaGFuTnNhMlpoYzJSclphcw"
            )
        )))
    );
}

#[test]
fn builtin_fetcher_asks_the_engine() {
    let h = FetchUrl::from_builtins().fetch("https://example.org/a/b.tar.gz", pkgs::hash::Hash::new("sha256:ff"));
    match &*h.thunk {
        Thunk::FetchUrl(f) => {
            assert_eq!(f.name, None);
            assert_eq!(f.url, "https://example.org/a/b.tar.gz");
            assert_eq!(f.hash.text, "sha256:ff");
            assert!(!f.unpack);
            assert!(!f.executable);
        }
        _ => panic!("the engine's fetcher was asked for"),
    }
}

#[test]
fn stdenv_fetcher_builds_a_fixed_output_step() {
    let env = stdenv();
    let fetchurl = FetchUrl::new(StdenvFetchUrl { stdenv_no_cc: env.clone(), curl: tool("curl") });
    let h = fetchurl.fetch("https://example.org/a/b.tar.gz", pkgs::hash::Hash::new("sha256:ff"));
    let drv = step(&h);
    assert_eq!(drv.name, "b.tar.gz");
    assert_eq!(drv.fixed_hash, Some(pkgs::hash::Hash::new("sha256:ff")));
    assert_eq!(drv.get("url"), Some(&text("https://example.org/a/b.tar.gz")));
    assert_eq!(drv.get("curl"), Some(&Expr::drv(tool("curl"))));
    assert_eq!(drv.args[2], local_file("builder.sh"));
    assert_eq!(drv.get("DEPS_BUILD_HOST"), Some(&Expr::List(Vec::new())));
    assert_eq!(drv.get("SRC"), None);
    assert_eq!(fetchurl.clone().fetch("x/y", pkgs::hash::Hash::new("h")), fetchurl.fetch("x/y", pkgs::hash::Hash::new("h")));
}

#[test]
fn package_set_names_and_handles() {
    let (by_name, all) = all_pkgs(System::x86_64_linux);
    let names: Vec<&str> = by_name.iter().map(|(k, _)| k.as_str()).collect();
    assert_eq!(names, ["zlib", "libiconv", "pkg-config", "perl", "curl", "hello"]);
    assert_eq!(by_name[0].1, all.zlib);
    assert_eq!(by_name[1].1, all.libiconv);
    assert_eq!(by_name[2].1, all.pkg_config);
    assert_eq!(by_name[3].1, all.perl);
    assert_eq!(by_name[4].1, all.curl);
    assert_eq!(by_name[5].1, all.hello);
    assert_eq!(step(&all.zlib).name, "zlib-1.3.1");
    assert_eq!(step(&all.libiconv).name, "libiconv-1.17");
    assert_eq!(step(&all.pkg_config).name, "pkg-config-0.29.2");
    assert_eq!(step(&all.perl).name, "perl");
    assert_eq!(step(&all.curl).name, "curl-8.14.1");
    assert_eq!(step(&all.hello).name, "hello-2.12.1");
    assert_eq!(*all.stdenv, build_stdenv(System::x86_64_linux, true));
}

#[test]
fn package_set_wiring() {
    let (_, all) = all_pkgs(System::i686_linux);
    let env = Stdenv::new(build_stdenv(System::i686_linux, true));
    let fetchurl = build_fetchurl(&env);
    let zlib = LazyDrv::new(
        Zlib {
            stdenv: env.clone(),
            fetchurl: fetchurl.clone(),
            shared: None,
            static_lib: None,
            split_static_out: None,
        }
        .into_drv(),
    );
    assert_eq!(all.zlib, zlib);
    let perl = LazyDrv::new(
        Perl { stdenv: env.clone(), fetchurl: fetchurl.clone(), zlib: zlib.clone(), enable_threading: true }
            .into_drv(),
    );
    assert_eq!(all.perl, perl);
    let curl = LazyDrv::new(
        Curl {
            stdenv: env.clone(),
            fetchurl: fetchurl.clone(),
            pkg_config: LazyDrv::new(Noop.into_drv()),
            perl: perl.clone(),
        }
        .into_drv(),
    );
    assert_eq!(all.curl, curl);
    assert_eq!(
        step(&all.pkg_config).get("DEPS_BUILD_HOST"),
        Some(&Expr::List(vec![Expr::drv(all.libiconv.clone())]))
    );
}

#[test]
fn fetcher_of_the_package_set_is_built_through_the_engine() {
    let env = stdenv();
    let fetchurl = build_fetchurl(&env);
    match &fetchurl {
        FetchUrl::Stdenv(f) => {
            assert_eq!(*f.stdenv_no_cc, *env);
            let curl = step(&f.curl);
            assert_eq!(curl.name, "curl-8.14.1");
            assert_eq!(
                curl.get("SRC"),
                Some(&Expr::drv(FetchUrl::Builtins.fetch(
                    "https://curl.haxx.se/download/curl-8.14.1.tar.xz",
                    pkgs::hash::Hash::new(
                        "sha512:YzJSc1lXcHFabXhyWVhOa2FtWnNZWE5xWm14ellXcG1jMjNSc2FtWnNjMlJxYkdaaGFuTnNhMlpoYzJSclphcw"
                    )
                )))
            );
        }
        FetchUrl::Builtins => panic!("the package set fetches in its own environment"),
    }
    let src = fetchurl.fetch("https://www.zlib.net/fossils/zlib-1.3.1.tar.gz", pkgs::hash::Hash::new("h"));
    assert_eq!(step(&src).name, "zlib-1.3.1.tar.gz");
}

fn without_libc() -> Stdenv {
    Stdenv::new(StdenvDrv { glibc: None, ..build_stdenv(System::x86_64_linux, true) })
}

#[test]
fn perl_handle_stands_for_its_step() {
    let h = Perl { stdenv: stdenv(), fetchurl: FetchUrl::Builtins, zlib: tool("zlib"), enable_threading: true }
        .lazy();
    assert_eq!(h.force(), &perl(true));
    assert_eq!(h, LazyDrv::new(perl(true)));
}

#[test]
fn perl_handle_without_a_c_library_stands_for_no_step() {
    let h = Perl {
        stdenv: without_libc(),
        fetchurl: FetchUrl::Builtins,
        zlib: tool("zlib"),
        enable_threading: false,
    }
    .lazy();
    assert_eq!(h, LazyDrv::unbuildable(Missing::Libc));
    assert_eq!(h.step(), None);
}

#[test]
fn every_environment_gets_a_fetcher() {
    let env = without_libc();
    let fetchurl = build_fetchurl(&env);
    match &fetchurl {
        FetchUrl::Stdenv(f) => {
            assert_eq!(*f.stdenv_no_cc, *env);
            let curl = step(&f.curl);
            assert_eq!(curl.name, "curl-8.14.1");
            match curl.get("DEPS_BUILD_HOST") {
                Some(Expr::List(deps)) => {
                    assert_eq!(deps.len(), 2);
                    assert_eq!(deps[1], Expr::drv(LazyDrv::unbuildable(Missing::Libc)));
                    match &deps[0] {
                        Expr::Drv(p) => assert_eq!(step(&p.drv).name, "pkg-config-0.29.2"),
                        _ => panic!("pkg-config is a step"),
                    }
                }
                _ => panic!("curl has build-to-host dependencies"),
            }
        }
        FetchUrl::Builtins => panic!("the package set fetches in its own environment"),
    }
    let src = fetchurl.fetch("https://www.zlib.net/fossils/zlib-1.3.1.tar.gz", pkgs::hash::Hash::new("h"));
    assert_eq!(step(&src).name, "zlib-1.3.1.tar.gz");
}

#[test]
fn fetcher_with_a_c_library_holds_the_interpreter_step() {
    let env = stdenv();
    match build_fetchurl(&env) {
        FetchUrl::Stdenv(f) => match step(&f.curl).get("DEPS_BUILD_HOST") {
            Some(Expr::List(deps)) => match &deps[1] {
                Expr::Drv(p) => assert_eq!(p.drv.force().name, "perl"),
                _ => panic!("perl is held by a handle"),
            },
            _ => panic!("curl has build-to-host dependencies"),
        },
        FetchUrl::Builtins => panic!("the package set fetches in its own environment"),
    }
}

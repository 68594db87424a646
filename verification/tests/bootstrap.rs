use pkgs::build::fetchurl::FetchUrl;
use pkgs::development::interpreters::perl::Perl;
use pkgs::drv::{LazyDrv, Missing, Thunk};
use pkgs::expr::{local_file, Expr};
use pkgs::stdenv::linux::bootstrap_files::{i686_unknown_linux, x86_64_unknown_linux, FetchBootstrapFile};
use pkgs::stdenv::linux::bootstrap_tools::BootstrapTools;
use pkgs::stdenv::linux::{
    bootstrap_files, build_stdenv, finish, is_finished, stager, supports, Noop, StdenvStage,
};
use pkgs::stdenv::{Stdenv, StdenvDrv};
use pkgs::system::System;

fn tools(system: System) -> LazyDrv {
    LazyDrv::new(
        BootstrapTools { bootstrap_files: bootstrap_files(system).unwrap(), system, glibc: true }
            .into_drv(),
    )
}

fn final_of(stage: StdenvStage) -> StdenvDrv {
    match stage {
        StdenvStage::Stdenv { stdenv } => stdenv,
        _ => panic!("not the finished environment"),
    }
}

#[test]
fn supported_platforms() {
    assert!(supports(System::x86_64_linux, true));
    assert!(supports(System::i686_linux, true));
    assert!(!supports(System::aarch64_linux, true));
    assert!(!supports(System::x86_64_darwin, true));
    assert!(!supports(System::aarch64_darwin, true));
    assert!(!supports(System::x86_64_linux, false));
    assert!(!supports(System::i686_linux, false));
    assert!(bootstrap_files(System::x86_64_linux).is_some());
    assert!(bootstrap_files(System::i686_linux).is_some());
    assert!(bootstrap_files(System::aarch64_linux).is_none());
    assert!(bootstrap_files(System::x86_64_darwin).is_none());
    assert!(bootstrap_files(System::aarch64_darwin).is_none());
}

#[test]
fn bootstrap_files_of_x86_64() {
    let tools = x86_64_unknown_linux::BootstrapTools.into_fetch();
    assert_eq!(
        tools.url,
        "http://tarballs.nixos.org/stdenv/x86_64-unknown-linux-gnu/82b583ba2ba2e5706b35dbe23f31362e62be2a9d/bootstrap-tools.tar.xz"
    );
    assert_eq!(
        tools.hash.text,
        "sha512:rE3awurje4X3WxwmSf03-Acb8O8DBSBOmNk2f094EfVd5y9x8wt0nhenj14vp_jGtkMTTo64dpelx2V7TcluJA"
    );
    assert!(!tools.executable && !tools.unpack);
    assert_eq!(tools.name, None);
    let busybox = x86_64_unknown_linux::Busybox.into_fetch();
    assert_eq!(
        busybox.url,
        "http://tarballs.nixos.org/stdenv/x86_64-unknown-linux-gnu/82b583ba2ba2e5706b35dbe23f31362e62be2a9d/busybox"
    );
    assert_eq!(
        busybox.hash.text,
        "sha512:j3Egq7E25ffdZsvHZNEHkISHyzaj_XGasw4VRd1O4D-5b0ME3ASGT6Yij_ESgu8ry5gjqQMLEb-6PKPwceOH6Q"
    );
    assert!(busybox.executable && !busybox.unpack);
    let files = bootstrap_files(System::x86_64_linux).unwrap();
    assert_eq!(files.tools, LazyDrv::builtin(tools));
    assert_eq!(files.busybox, LazyDrv::builtin(busybox));
}

#[test]
fn bootstrap_files_of_i686() {
    let tools = i686_unknown_linux::BootstrapTools.into_fetch();
    assert_eq!(
        tools.url,
        "http://tarballs.nixos.org/stdenv/i686-unknown-linux-gnu/125cefd4cf8f857e5ff1aceaef9230ba578a033d/bootstrap-tools.tar.xz"
    );
    assert!(!tools.executable);
    let busybox = i686_unknown_linux::Busybox.into_fetch();
    assert_eq!(
        busybox.url,
        "http://tarballs.nixos.org/stdenv/i686-unknown-linux-gnu/125cefd4cf8f857e5ff1aceaef9230ba578a033d/busybox"
    );
    assert!(busybox.executable);
    let files = bootstrap_files(System::i686_linux).unwrap();
    assert_eq!(files.tools, LazyDrv::builtin(tools));
    assert_eq!(files.busybox, LazyDrv::builtin(busybox));
}

#[test]
fn fetch_bootstrap_file() {
    let f = FetchBootstrapFile { url: "http://x/y", hash: pkgs::hash::Hash::new("sha256:ee"), executable: true }
        .into_fetch();
    assert_eq!(f.name, None);
    assert_eq!(f.url, "http://x/y");
    assert_eq!(f.hash.text, "sha256:ee");
    assert!(f.executable);
    assert!(!f.unpack);
}

#[test]
fn bootstrap_tools_step() {
    let files = bootstrap_files(System::x86_64_linux).unwrap();
    let busybox = files.busybox.clone();
    let archive = files.tools.clone();
    let drv = BootstrapTools { bootstrap_files: files, system: System::x86_64_linux, glibc: true }.into_drv();
    assert_eq!(drv.name, "bootstrap-tools");
    assert_eq!(drv.builder, Expr::drv(busybox));
    assert_eq!(
        drv.args,
        vec![Expr::str("ash"), Expr::str("-e"), local_file("glibc-unpack-bootstrap-tools.sh")]
    );
    assert_eq!(drv.system, Some(System::x86_64_linux));
    assert!(drv.outputs.is_empty());
    assert_eq!(drv.fixed_hash, None);
    assert_eq!(
        drv.inputs,
        vec![
            ("tarball".to_string(), Expr::drv(archive)),
            ("langC".to_string(), Expr::str("1")),
            ("langCC".to_string(), Expr::str("1")),
            ("isGNU".to_string(), Expr::str("1")),
            (
                "hardeningunsupportedflags".to_string(),
                Expr::List(vec![
                    Expr::str("fortify3"),
                    Expr::str("shadowstack"),
                    Expr::str("pacret"),
                    Expr::str("stackclashprotection"),
                    Expr::str("trivialautovarinit"),
                    Expr::str("zerocallusedregs"),
                ])
            ),
        ]
    );
}

#[test]
fn noop_step() {
    let drv = Noop.into_drv();
    assert_eq!(drv.name, "no-op");
    assert_eq!(drv.builder, Expr::str("echo \"no-op\""));
    assert!(drv.args.is_empty() && drv.inputs.is_empty() && drv.outputs.is_empty());
}

#[test]
fn stage0_leads_to_the_finished_environment() {
    let system = System::x86_64_linux;
    let t = tools(system);
    let next = stager(StdenvStage::Stage0 { local_system: system, glibc: true, bootstrap_tools: t.clone() });
    assert!(is_finished(&next));
    let env = final_of(next);
    assert_eq!(env.name, "bootstrap-stage0-stdenv-linux");
    assert_eq!(env.initial_path, Expr::List(vec![Expr::drv(t.clone())]));
    assert_eq!(env.shell, Expr::Drv(t.suff("/bin/bash")));
    assert_eq!(
        env.pre_hook.as_deref(),
        Some(
            "\n                    # Don't patch #!/interpreter because it leads to retained\n                    # dependencies on the bootstrapTools in the final stdenv.\n                    DONT_PATCH_SHEBANGS=1\n                    echo \"common pre hook\"\n                    "
        )
    );
    assert_eq!(env.cc, None);
    assert_eq!(env.setup_script, None);
    assert_eq!(env.build_platform, system);
    assert_eq!(env.host_platform, system);
    assert_eq!(env.target_platform, system);
    assert!(env.deps_build_host.is_empty() && env.deps_host_target.is_empty());
    assert_eq!(env.binutils, Some(t.clone()));
    assert_eq!(env.coreutils, Some(t.clone()));
    assert_eq!(env.gnugrep, Some(t.clone()));
    assert_eq!(env.perl, None);
    assert!(env.glibc.is_some());
}

#[test]
fn stage0_glibc_links_the_bootstrap_library() {
    let system = System::i686_linux;
    let t = tools(system);
    let env = final_of(stager(StdenvStage::Stage0 { local_system: system, glibc: true, bootstrap_tools: t.clone() }));
    let glibc = match &*env.glibc.as_ref().unwrap().thunk {
        Thunk::Step(d) => d,
        _ => panic!("the C library is a step"),
    };
    assert_eq!(glibc.name, "bootstrap-stage0-glibc-bootstrap-files");
    assert_eq!(glibc.outputs, vec!["out".to_string(), "dev".to_string(), "lib".to_string()]);
    assert_eq!(glibc.get("bootstrap_tools"), Some(&Expr::drv(t.clone())));
    assert_eq!(
        glibc.get("BUILD_COMMAND"),
        Some(&Expr::str(
            "mkdir -p $out\nln -s ${bootstrap_tools}/lib $out/lib\nln -s ${bootstrap_tools}/include-glibc $out/include\n# TODO: remove\nmkdir \"$dev\"\nmkdir \"$lib\""
        ))
    );
    assert_eq!(glibc.builder, Expr::Drv(t.suff("/bin/bash")));
    // the library is built in the environment as it is before the toolchain is filled in
    let before = StdenvDrv { glibc: None, binutils: None, coreutils: None, gnugrep: None, ..env.clone() };
    assert_eq!(glibc.get("stdenv"), Some(&Expr::drv(LazyDrv::new(before.into_drv()))));
}

#[test]
fn stage1_adds_the_interpreter() {
    let system = System::x86_64_linux;
    let t = tools(system);
    let prev = build_stdenv(system, true);
    let next = stager(StdenvStage::Stage1 {
        local_system: system,
        glibc: true,
        bootstrap_tools: t.clone(),
        prev_stage: prev.clone(),
    });
    match next {
        StdenvStage::Stage2 { local_system, glibc, bootstrap_tools, prev_stage } => {
            assert_eq!(local_system, system);
            assert!(glibc);
            assert_eq!(bootstrap_tools, t);
            assert_eq!(prev_stage.name, "bootstrap-stage1-stdenv-linux");
            let perl = LazyDrv::new(
                Perl {
                    stdenv: Stdenv::new(prev.clone()),
                    fetchurl: FetchUrl::Builtins,
                    zlib: LazyDrv::new(Noop.into_drv()),
                    enable_threading: false,
                }
                .into_drv(),
            );
            assert_eq!(prev_stage.perl, Some(perl));
            assert_eq!(prev_stage.perl.as_ref().unwrap().force().name, "perl");
            let rest = StdenvDrv { name: prev.name, perl: None, ..prev_stage };
            assert_eq!(rest, prev);
        }
        _ => panic!("the second stage leads to the third"),
    }
}

#[test]
fn stage2_renames_the_environment() {
    let system = System::x86_64_linux;
    let prev = build_stdenv(system, true);
    let next = stager(StdenvStage::Stage2 {
        local_system: system,
        glibc: true,
        bootstrap_tools: tools(system),
        prev_stage: prev.clone(),
    });
    match next {
        StdenvStage::Stage3 { local_system, glibc, bootstrap_tools, prev_stage } => {
            assert_eq!(local_system, system);
            assert!(glibc);
            assert_eq!(bootstrap_tools, tools(system));
            assert_eq!(prev_stage.name, "bootstrap-stage-xgcc-stdenv-linux");
            assert_eq!(StdenvDrv { name: prev.name, ..prev_stage }, prev);
        }
        _ => panic!("the third stage leads to the fourth"),
    }
}

#[test]
fn stage3_hands_the_environment_on() {
    let system = System::x86_64_linux;
    let prev = build_stdenv(system, true);
    let next = stager(StdenvStage::Stage3 {
        local_system: system,
        glibc: true,
        bootstrap_tools: tools(system),
        prev_stage: prev.clone(),
    });
    assert_eq!(final_of(next), prev);
}

#[test]
fn finished_environment_follows_itself() {
    let env = build_stdenv(System::x86_64_linux, true);
    let again = stager(StdenvStage::Stdenv { stdenv: env.clone() });
    assert_eq!(final_of(again), env);
}

#[test]
fn build_stdenv_ends_in_the_first_environment() {
    for system in [System::x86_64_linux, System::i686_linux] {
        let env = build_stdenv(system, true);
        let by_hand = final_of(stager(StdenvStage::Stage0 {
            local_system: system,
            glibc: true,
            bootstrap_tools: tools(system),
        }));
        assert_eq!(env, by_hand);
        assert!(env.glibc.is_some());
        assert_eq!(env.binutils, Some(tools(system)));
        assert_eq!(env.coreutils, Some(tools(system)));
        assert_eq!(env.gnugrep, Some(tools(system)));
        assert_eq!(env.build_platform, system);
        assert_eq!(env.host_platform, system);
        assert_eq!(env.target_platform, system);
    }
}

#[test]
fn platforms_get_different_environments() {
    assert_ne!(build_stdenv(System::x86_64_linux, true), build_stdenv(System::i686_linux, true));
}

#[test]
fn four_steps_finish_from_any_stage() {
    let system = System::x86_64_linux;
    let prev = build_stdenv(system, true);
    let starts: Vec<(StdenvStage, &str)> = vec![
        (
            StdenvStage::Stage0 { local_system: system, glibc: true, bootstrap_tools: tools(system) },
            "bootstrap-stage0-stdenv-linux",
        ),
        (
            StdenvStage::Stage1 {
                local_system: system,
                glibc: true,
                bootstrap_tools: tools(system),
                prev_stage: prev.clone(),
            },
            "bootstrap-stage-xgcc-stdenv-linux",
        ),
        (
            StdenvStage::Stage2 {
                local_system: system,
                glibc: true,
                bootstrap_tools: tools(system),
                prev_stage: prev.clone(),
            },
            "bootstrap-stage-xgcc-stdenv-linux",
        ),
        (
            StdenvStage::Stage3 {
                local_system: system,
                glibc: true,
                bootstrap_tools: tools(system),
                prev_stage: prev.clone(),
            },
            "bootstrap-stage0-stdenv-linux",
        ),
        (StdenvStage::Stdenv { stdenv: prev.clone() }, "bootstrap-stage0-stdenv-linux"),
    ];
    for (start, name) in starts {
        let mut stage = start;
        for _ in 0..4 {
            stage = stager(stage);
        }
        assert!(is_finished(&stage));
        assert_eq!(final_of(stage).name, name);
    }
}

#[test]
fn finish_runs_the_line_to_its_end() {
    let system = System::x86_64_linux;
    let prev = build_stdenv(system, true);
    let end = finish(StdenvStage::Stage1 {
        local_system: system,
        glibc: true,
        bootstrap_tools: tools(system),
        prev_stage: prev.clone(),
    });
    assert_eq!(end.name, "bootstrap-stage-xgcc-stdenv-linux");
    assert!(end.perl.is_some());
    assert_eq!(end.glibc, prev.glibc);
    assert_eq!(finish(StdenvStage::Stdenv { stdenv: prev.clone() }), prev);
}

fn without_libc(system: System) -> StdenvDrv {
    StdenvDrv { glibc: None, ..build_stdenv(system, true) }
}

#[test]
fn stage1_takes_an_environment_without_a_c_library() {
    let system = System::i686_linux;
    let t = tools(system);
    let prev = without_libc(system);
    let next = stager(StdenvStage::Stage1 {
        local_system: system,
        glibc: false,
        bootstrap_tools: t.clone(),
        prev_stage: prev.clone(),
    });
    match next {
        StdenvStage::Stage2 { local_system, glibc, bootstrap_tools, prev_stage } => {
            assert_eq!(local_system, system);
            assert!(!glibc);
            assert_eq!(bootstrap_tools, t);
            assert_eq!(prev_stage.name, "bootstrap-stage1-stdenv-linux");
            assert_eq!(prev_stage.perl, Some(LazyDrv::unbuildable(Missing::Libc)));
            assert_eq!(prev_stage.perl.as_ref().unwrap().step(), None);
            assert_eq!(prev_stage.build_platform, system);
            assert_eq!(prev_stage.host_platform, system);
            assert_eq!(prev_stage.target_platform, system);
            let rest = StdenvDrv { name: prev.name, perl: None, ..prev_stage };
            assert_eq!(rest, prev);
        }
        _ => panic!("the second stage leads to the third"),
    }
}

#[test]
fn the_line_ends_without_a_c_library_too() {
    let system = System::x86_64_linux;
    let end = finish(StdenvStage::Stage1 {
        local_system: system,
        glibc: false,
        bootstrap_tools: tools(system),
        prev_stage: without_libc(system),
    });
    assert_eq!(end.name, "bootstrap-stage-xgcc-stdenv-linux");
    assert_eq!(end.glibc, None);
    assert_eq!(end.perl, Some(LazyDrv::unbuildable(Missing::Libc)));
    let drv = end.into_drv();
    assert_eq!(drv.get("perl"), Some(&Expr::drv(LazyDrv::unbuildable(Missing::Libc))));
    assert_eq!(drv.get("glibc"), None);
}

#[test]
fn later_stages_carry_their_setting_on() {
    let system = System::i686_linux;
    let t = tools(system);
    for glibc in [true, false] {
        let mut stage = StdenvStage::Stage1 {
            local_system: system,
            glibc,
            bootstrap_tools: t.clone(),
            prev_stage: build_stdenv(system, true),
        };
        for _ in 0..2 {
            stage = stager(stage);
            match &stage {
                StdenvStage::Stage2 { local_system, glibc: g, bootstrap_tools, prev_stage }
                | StdenvStage::Stage3 { local_system, glibc: g, bootstrap_tools, prev_stage } => {
                    assert_eq!(*local_system, system);
                    assert_eq!(*g, glibc);
                    assert_eq!(*bootstrap_tools, t);
                    assert_eq!(prev_stage.build_platform, system);
                    assert_eq!(prev_stage.host_platform, system);
                    assert_eq!(prev_stage.target_platform, system);
                }
                _ => panic!("two steps from the second stage reach the fourth"),
            }
        }
        assert!(is_finished(&stager(stage)));
    }
}

use pkgs::drv::{Drv, DrvBuilder, LazyDrv, Missing, Thunk};
use pkgs::expr::{local_file, Expr};
use pkgs::stdenv::generic::deps::{Deps, Slot};
use pkgs::stdenv::{StdenvBuilder, StdenvDrv};
use pkgs::system::System;

fn tool(name: &str) -> LazyDrv {
    LazyDrv::new(DrvBuilder::new().name(name).builder(Expr::str("/bin/sh")).build())
}

fn stdenv() -> StdenvDrv {
    StdenvDrv {
        name: "test-stdenv",
        pre_hook: None,
        initial_path: Expr::list(vec![Expr::drv(tool("tools"))]),
        cc: None,
        shell: Expr::str("/bin/sh"),
        setup_script: None,
        build_platform: System::x86_64_linux,
        host_platform: System::x86_64_linux,
        target_platform: System::x86_64_linux,
        deps_build_host: Vec::new(),
        deps_host_target: Vec::new(),
        glibc: None,
        binutils: None,
        coreutils: None,
        gnugrep: None,
        perl: None,
    }
}

fn names(drv: &Drv) -> Vec<&str> {
    drv.inputs.iter().map(|(k, _)| k.as_str()).collect()
}

fn text(s: &str) -> Expr {
    Expr::Str(s.to_string())
}

const DEPS: [&str; 6] = [
    "DEPS_BUILD_BUILD",
    "DEPS_BUILD_HOST",
    "DEPS_BUILD_TARGET",
    "DEPS_HOST_HOST",
    "DEPS_HOST_TARGET",
    "DEPS_TARGET_TARGET",
];

const PROPAGATED: [&str; 6] = [
    "PROPAGATED_BUILD_BUILD",
    "PROPAGATED_BUILD_HOST",
    "PROPAGATED_BUILD_TARGET",
    "PROPAGATED_HOST_HOST",
    "PROPAGATED_HOST_TARGET",
    "PROPAGATED_TARGET_TARGET",
];

#[test]
fn versioned_name_joins_name_and_version() {
    let drv = stdenv().make_derivation().name("hello").version("2.12.1").build();
    assert_eq!(drv.name, "hello-2.12.1");
}

#[test]
fn unversioned_name_is_the_name_alone() {
    let drv = stdenv().make_derivation().name("hello").build();
    assert_eq!(drv.name, "hello");
}

#[test]
fn later_name_and_version_replace_earlier_ones() {
    let drv = stdenv().make_derivation().name("a").version("1").name("b").version("2").build();
    assert_eq!(drv.name, "b-2");
}

#[test]
fn empty_version_still_joins() {
    let drv = stdenv().make_derivation().name("hello").version("").build();
    assert_eq!(drv.name, "hello-");
}

#[test]
fn fresh_builder_compiles_to_the_default_layout() {
    let drv = stdenv().make_derivation().name("pkg").build();
    let mut expected = vec!["stdenv"];
    expected.extend(DEPS);
    expected.extend(PROPAGATED);
    expected.extend(["UNPACK", "PATCH", "CONFIGURE", "BUILD", "INSTALL", "FIX", "STRIP", "PATCH_ELF"]);
    assert_eq!(names(&drv), expected);
    assert_eq!(drv.builder, Expr::str("/bin/sh"));
    assert_eq!(
        drv.args,
        vec![
            Expr::str("-e"),
            local_file("scripts/source-stdenv.sh"),
            local_file("scripts/default-builder.sh"),
        ]
    );
    assert!(drv.outputs.is_empty());
    assert_eq!(drv.fixed_hash, None);
    assert_eq!(drv.system, None);
}

#[test]
fn unset_fields_leave_no_variable() {
    let drv = stdenv().make_derivation().name("pkg").build();
    for name in [
        "SRC", "BUILD_COMMAND", "PRE_PHASE", "POST_PHASE", "SRC_ROOT", "PRE_UNPACK", "UNPACK_PHASE",
        "POST_UNPACK", "PATCHES", "PATCH_FLAGS", "PRE_PATCH", "PATCH_PHASE", "POST_PATCH",
        "CONFIGURE_SCRIPT", "CONFIGURE_FLAGS", "PRE_CONFIGURE", "CONFIGURE_PHASE", "POST_CONFIGURE",
        "MAKEFILE", "MAKE_FLAGS", "PRE_BUILD", "BUILD_PHASE", "POST_BUILD", "CHECK", "CHECK_FLAGS",
        "PRE_CHECK", "CHECK_PHASE", "POST_CHECK", "INSTALL_TARGETS", "INSTALL_FLAGS", "PRE_INSTALL",
        "INSTALL_PHASE", "POST_INSTALL", "PRE_FIX", "FIX_PHASE", "POST_FIX", "INSTALL_CHECK",
        "INSTALL_CHECK_FLAGS", "PRE_INSTALL_CHECK", "INSTALL_CHECK_PHASE", "POST_INSTALL_CHECK",
    ] {
        assert_eq!(drv.get(name), None, "{}", name);
    }
}

#[test]
fn empty_matrices_render_as_empty_lists() {
    let drv = stdenv().make_derivation().name("pkg").build();
    for name in DEPS.iter().chain(PROPAGATED.iter()) {
        assert_eq!(drv.get(name), Some(&Expr::List(Vec::new())), "{}", name);
    }
}

#[test]
fn stdenv_is_attached_as_an_input() {
    let drv = stdenv().make_derivation().name("pkg").build();
    assert_eq!(drv.get("stdenv"), Some(&Expr::drv(LazyDrv::new(stdenv().into_drv()))));
}

#[test]
fn every_field_set_gives_the_full_layout() {
    let drv = stdenv()
        .make_derivation()
        .name("pkg")
        .input("FIRST", text("1"))
        .src(text("src"))
        .build_command(text("make"))
        .pre_phase("pre")
        .post_phase("post")
        .src_root("root")
        .pre_unpack("a")
        .unpack_phase("b")
        .post_unpack("c")
        .patch(local_file("p.patch"))
        .patch_flags("--strip=1")
        .pre_patch("a")
        .patch_phase("b")
        .post_patch("c")
        .configure_script("./configure")
        .configure_flags("--x")
        .pre_configure("a")
        .configure_phase("b")
        .post_configure("c")
        .makefile("Makefile")
        .make_flags("-j")
        .pre_build("a")
        .build_phase("b")
        .post_build("c")
        .do_check()
        .check_flags("-v")
        .pre_check("a")
        .check_phase("b")
        .post_check("c")
        .install_targets("install")
        .install_flags("-f")
        .pre_install("a")
        .install_phase("b")
        .post_install("c")
        .pre_fix("a")
        .fix_phase("b")
        .post_fix("c")
        .do_install_check()
        .install_check_flags("-v")
        .pre_install_check("a")
        .install_check_phase("b")
        .post_install_check("c")
        .build();
    let mut expected = vec!["FIRST", "stdenv", "SRC", "BUILD_COMMAND", "PRE_PHASE", "POST_PHASE"];
    expected.extend(DEPS);
    expected.extend(PROPAGATED);
    expected.extend([
        "UNPACK", "SRC_ROOT", "PRE_UNPACK", "UNPACK_PHASE", "POST_UNPACK",
        "PATCH", "PATCHES", "PATCH_FLAGS", "PRE_PATCH", "PATCH_PHASE", "POST_PATCH",
        "CONFIGURE", "CONFIGURE_SCRIPT", "CONFIGURE_FLAGS", "PRE_CONFIGURE", "CONFIGURE_PHASE",
        "POST_CONFIGURE",
        "BUILD", "MAKEFILE", "MAKE_FLAGS", "PRE_BUILD", "BUILD_PHASE", "POST_BUILD",
        "CHECK", "CHECK_FLAGS", "PRE_CHECK", "CHECK_PHASE", "POST_CHECK",
        "INSTALL", "INSTALL_TARGETS", "INSTALL_FLAGS", "PRE_INSTALL", "INSTALL_PHASE",
        "POST_INSTALL",
        "FIX", "STRIP", "PATCH_ELF", "PRE_FIX", "FIX_PHASE", "POST_FIX",
        "INSTALL_CHECK", "INSTALL_CHECK_FLAGS", "PRE_INSTALL_CHECK", "INSTALL_CHECK_PHASE",
        "POST_INSTALL_CHECK",
    ]);
    assert_eq!(names(&drv), expected);
    assert_eq!(drv.get("SRC"), Some(&text("src")));
    assert_eq!(drv.get("BUILD_COMMAND"), Some(&text("make")));
    assert_eq!(drv.get("PRE_PHASE"), Some(&text("pre")));
    assert_eq!(drv.get("POST_PHASE"), Some(&text("post")));
    assert_eq!(drv.get("SRC_ROOT"), Some(&text("root")));
    assert_eq!(drv.get("PATCHES"), Some(&Expr::List(vec![local_file("p.patch")])));
    assert_eq!(drv.get("PATCH_FLAGS"), Some(&text("--strip=1")));
    assert_eq!(drv.get("CONFIGURE_SCRIPT"), Some(&text("./configure")));
    assert_eq!(drv.get("CONFIGURE_FLAGS"), Some(&text("--x")));
    assert_eq!(drv.get("MAKEFILE"), Some(&text("Makefile")));
    assert_eq!(drv.get("MAKE_FLAGS"), Some(&text("-j")));
    assert_eq!(drv.get("CHECK_FLAGS"), Some(&text("-v")));
    assert_eq!(drv.get("INSTALL_TARGETS"), Some(&text("install")));
    assert_eq!(drv.get("INSTALL_FLAGS"), Some(&text("-f")));
    assert_eq!(drv.get("INSTALL_CHECK_FLAGS"), Some(&text("-v")));
    for phase in ["UNPACK", "PATCH", "CONFIGURE", "BUILD", "CHECK", "INSTALL", "FIX", "INSTALL_CHECK"] {
        assert_eq!(drv.get(phase), Some(&text("1")), "{}", phase);
        assert_eq!(drv.get(&format!("PRE_{}", phase)), Some(&text("a")), "{}", phase);
        assert_eq!(drv.get(&format!("{}_PHASE", phase)), Some(&text("b")), "{}", phase);
        assert_eq!(drv.get(&format!("POST_{}", phase)), Some(&text("c")), "{}", phase);
    }
    assert_eq!(drv.get("STRIP"), Some(&text("1")));
    assert_eq!(drv.get("PATCH_ELF"), Some(&text("1")));
}

#[test]
fn building_twice_gives_the_same_step() {
    let make = || {
        stdenv()
            .make_derivation()
            .name("pkg")
            .version("1")
            .out("out")
            .input("A", text("a"))
            .dep_build_host(Expr::drv(tool("t")))
            .propagated_host_target(Expr::drv(tool("u")))
            .patch(local_file("p.patch"))
            .do_check()
            .pre_build("x")
            .build()
    };
    assert_eq!(make(), make());
    assert_eq!(make().inputs, make().inputs);
}

#[test]
fn input_if_none_binds_nothing() {
    let with = stdenv().make_derivation().name("pkg").input_if("X", None).build();
    let without = stdenv().make_derivation().name("pkg").build();
    assert_eq!(with, without);
    assert_eq!(with.get("X"), None);
}

#[test]
fn input_if_some_binds_the_value() {
    let drv = stdenv().make_derivation().name("pkg").input_if("X", Some(text(""))).build();
    assert_eq!(drv.get("X"), Some(&text("")));
    assert_eq!(names(&drv)[0], "X");
}

#[test]
fn input_bool_is_one_or_absent() {
    let drv = stdenv()
        .make_derivation()
        .name("pkg")
        .input_bool("YES", true)
        .input_bool("NO", false)
        .build();
    assert_eq!(drv.get("YES"), Some(&text("1")));
    assert_eq!(drv.get("NO"), None);
}

#[test]
fn inputs_come_before_what_the_builder_adds() {
    let drv = stdenv()
        .make_derivation()
        .name("pkg")
        .input("B", text("b"))
        .src(text("s"))
        .input("A", text("a"))
        .build();
    assert_eq!(&names(&drv)[..4], ["B", "A", "stdenv", "SRC"]);
}

#[test]
fn outputs_hash_and_system_reach_the_step() {
    let drv = stdenv()
        .make_derivation()
        .name("pkg")
        .out("out")
        .out("dev")
        .fixed_hash(pkgs::hash::Hash::new("sha256:cc"))
        .system(System::i686_linux)
        .build();
    assert_eq!(drv.outputs, vec!["out".to_string(), "dev".to_string()]);
    assert_eq!(drv.fixed_hash, Some(pkgs::hash::Hash::new("sha256:cc")));
    assert_eq!(drv.system, Some(System::i686_linux));
}

#[test]
fn builder_script_can_be_replaced() {
    let drv = stdenv().make_derivation().name("pkg").builder(local_file("builder.sh")).build();
    assert_eq!(
        drv.args,
        vec![Expr::str("-e"), local_file("scripts/source-stdenv.sh"), local_file("builder.sh")]
    );
    assert_eq!(drv.builder, Expr::str("/bin/sh"));
}

#[test]
fn optional_applies_only_when_asked() {
    let add = |b: StdenvBuilder| b.out("static");
    let with = stdenv().make_derivation().name("pkg").optional(true, add).build();
    let without = stdenv().make_derivation().name("pkg").optional(false, add).build();
    assert_eq!(with.outputs, vec!["static".to_string()]);
    assert!(without.outputs.is_empty());
    assert_eq!(without, stdenv().make_derivation().name("pkg").build());
}

#[test]
fn switched_off_phase_drops_what_was_set() {
    let drv = stdenv()
        .make_derivation()
        .name("pkg")
        .check_flags("-v")
        .pre_check("a")
        .do_check()
        .dont_check()
        .build();
    for name in ["CHECK", "CHECK_FLAGS", "PRE_CHECK", "CHECK_PHASE", "POST_CHECK"] {
        assert_eq!(drv.get(name), None, "{}", name);
    }
    assert_eq!(drv, stdenv().make_derivation().name("pkg").build());
}

#[test]
fn each_phase_can_be_switched_off() {
    let full = |b: StdenvBuilder| {
        b.src_root("r").pre_unpack("a").unpack_phase("b").post_unpack("c")
            .patch(local_file("p")).patch_flags("f").pre_patch("a").patch_phase("b").post_patch("c")
            .configure_script("s").configure_flags("f").pre_configure("a").configure_phase("b")
            .post_configure("c")
            .makefile("m").make_flags("f").pre_build("a").build_phase("b").post_build("c")
            .do_check().check_flags("f").pre_check("a").check_phase("b").post_check("c")
            .install_targets("t").install_flags("f").pre_install("a").install_phase("b")
            .post_install("c")
            .pre_fix("a").fix_phase("b").post_fix("c")
            .do_install_check().install_check_flags("f").pre_install_check("a")
            .install_check_phase("b").post_install_check("c")
    };
    let cases: Vec<(fn(StdenvBuilder) -> StdenvBuilder, Vec<&str>)> = vec![
        (|b| b.dont_unpack(), vec!["UNPACK", "SRC_ROOT", "PRE_UNPACK", "UNPACK_PHASE", "POST_UNPACK"]),
        (|b| b.dont_patch(), vec!["PATCH", "PATCHES", "PATCH_FLAGS", "PRE_PATCH", "PATCH_PHASE", "POST_PATCH"]),
        (
            |b| b.dont_configure(),
            vec!["CONFIGURE", "CONFIGURE_SCRIPT", "CONFIGURE_FLAGS", "PRE_CONFIGURE", "CONFIGURE_PHASE", "POST_CONFIGURE"],
        ),
        (|b| b.dont_build(), vec!["BUILD", "MAKEFILE", "MAKE_FLAGS", "PRE_BUILD", "BUILD_PHASE", "POST_BUILD"]),
        (|b| b.dont_check(), vec!["CHECK", "CHECK_FLAGS", "PRE_CHECK", "CHECK_PHASE", "POST_CHECK"]),
        (
            |b| b.dont_install(),
            vec!["INSTALL", "INSTALL_TARGETS", "INSTALL_FLAGS", "PRE_INSTALL", "INSTALL_PHASE", "POST_INSTALL"],
        ),
        (|b| b.dont_fix(), vec!["FIX", "STRIP", "PATCH_ELF", "PRE_FIX", "FIX_PHASE", "POST_FIX"]),
        (
            |b| b.dont_install_check(),
            vec!["INSTALL_CHECK", "INSTALL_CHECK_FLAGS", "PRE_INSTALL_CHECK", "INSTALL_CHECK_PHASE", "POST_INSTALL_CHECK"],
        ),
    ];
    let all = full(stdenv().make_derivation().name("pkg")).build();
    for (off, gone) in cases {
        let drv = off(full(stdenv().make_derivation().name("pkg"))).build();
        for name in &gone {
            assert!(all.get(name).is_some(), "{}", name);
            assert_eq!(drv.get(name), None, "{}", name);
        }
        let kept: Vec<&str> = names(&all).into_iter().filter(|n| !gone.contains(n)).collect();
        assert_eq!(names(&drv), kept);
    }
}

#[test]
fn last_switch_wins() {
    let on = stdenv().make_derivation().name("pkg").dont_check().check_flags("-v").do_check().build();
    assert_eq!(on.get("CHECK"), Some(&text("1")));
    assert_eq!(on.get("CHECK_FLAGS"), Some(&text("-v")));
    let off = stdenv().make_derivation().name("pkg").do_install_check().dont_install_check().build();
    assert_eq!(off.get("INSTALL_CHECK"), None);
}

#[test]
fn fix_phase_flags() {
    let drv = stdenv().make_derivation().name("pkg").dont_strip().build();
    assert_eq!(drv.get("FIX"), Some(&text("1")));
    assert_eq!(drv.get("STRIP"), None);
    assert_eq!(drv.get("PATCH_ELF"), Some(&text("1")));
    let drv = stdenv().make_derivation().name("pkg").dont_patch_elf().build();
    assert_eq!(drv.get("STRIP"), Some(&text("1")));
    assert_eq!(drv.get("PATCH_ELF"), None);
}

#[test]
fn patches_keep_their_order() {
    let drv = stdenv()
        .make_derivation()
        .name("pkg")
        .patch(local_file("b.patch"))
        .patch(local_file("a.patch"))
        .build();
    assert_eq!(
        drv.get("PATCHES"),
        Some(&Expr::List(vec![local_file("b.patch"), local_file("a.patch")]))
    );
}

#[test]
fn a_dependency_shows_in_its_slot_alone() {
    let dep = Expr::drv(tool("dep"));
    let adders: Vec<(fn(StdenvBuilder, Expr) -> StdenvBuilder, &str)> = vec![
        (|b, d| b.dep_build_build(d), "DEPS_BUILD_BUILD"),
        (|b, d| b.dep_build_host(d), "DEPS_BUILD_HOST"),
        (|b, d| b.dep_build_target(d), "DEPS_BUILD_TARGET"),
        (|b, d| b.dep_host_host(d), "DEPS_HOST_HOST"),
        (|b, d| b.dep_host_target(d), "DEPS_HOST_TARGET"),
        (|b, d| b.dep_target_target(d), "DEPS_TARGET_TARGET"),
        (|b, d| b.propagated_build_build(d), "PROPAGATED_BUILD_BUILD"),
        (|b, d| b.propagated_build_host(d), "PROPAGATED_BUILD_HOST"),
        (|b, d| b.propagated_build_target(d), "PROPAGATED_BUILD_TARGET"),
        (|b, d| b.propagated_host_host(d), "PROPAGATED_HOST_HOST"),
        (|b, d| b.propagated_host_target(d), "PROPAGATED_HOST_TARGET"),
        (|b, d| b.propagated_target_target(d), "PROPAGATED_TARGET_TARGET"),
    ];
    for (add, var) in adders {
        let drv = add(stdenv().make_derivation().name("pkg"), dep.clone()).build();
        for name in DEPS.iter().chain(PROPAGATED.iter()) {
            let expected = if *name == var { vec![dep.clone()] } else { Vec::new() };
            assert_eq!(drv.get(name), Some(&Expr::List(expected)), "{} in {}", var, name);
        }
    }
}

#[test]
fn slots_keep_the_order_of_addition() {
    let a = Expr::drv(tool("a"));
    let b = Expr::drv(tool("b"));
    let drv = stdenv()
        .make_derivation()
        .name("pkg")
        .dep_build_host(b.clone())
        .dep_host_host(a.clone())
        .dep_build_host(a.clone())
        .build();
    assert_eq!(drv.get("DEPS_BUILD_HOST"), Some(&Expr::List(vec![b, a.clone()])));
    assert_eq!(drv.get("DEPS_HOST_HOST"), Some(&Expr::List(vec![a])));
}

#[test]
fn plain_and_propagated_can_hold_the_same_handle() {
    let dep = Expr::drv(tool("dep"));
    let drv = stdenv()
        .make_derivation()
        .name("pkg")
        .dep(Slot::HostTarget, dep.clone())
        .propagated_dep(Slot::HostTarget, dep.clone())
        .build();
    assert_eq!(drv.get("DEPS_HOST_TARGET"), Some(&Expr::List(vec![dep.clone()])));
    assert_eq!(drv.get("PROPAGATED_HOST_TARGET"), Some(&Expr::List(vec![dep])));
    assert_eq!(drv.get("DEPS_BUILD_HOST"), Some(&Expr::List(Vec::new())));
}

#[test]
fn deps_matrix_on_its_own() {
    let dep = Expr::str("d");
    let deps = Deps::new().add(Slot::BuildTarget, dep.clone());
    assert_eq!(deps.build_target, vec![dep.clone()]);
    assert!(deps.build_build.is_empty() && deps.build_host.is_empty() && deps.host_host.is_empty());
    assert!(deps.host_target.is_empty() && deps.target_target.is_empty());
    let b = deps.build(DrvBuilder::new().input("A", text("a")), true);
    let keys: Vec<&str> = b.inputs.iter().map(|(k, _)| k.as_str()).collect();
    let mut expected = vec!["A"];
    expected.extend(PROPAGATED);
    assert_eq!(keys, expected);
    assert_eq!(b.inputs[3].1, Expr::List(vec![dep]));
    assert_eq!(Deps::default(), Deps::new());
}

#[test]
fn fixed_output_step_needs_no_dependencies() {
    let drv = stdenv()
        .make_derivation()
        .name("source.tar.gz")
        .fixed_hash(pkgs::hash::Hash::new("sha256:dd"))
        .build();
    assert_eq!(drv.fixed_hash, Some(pkgs::hash::Hash::new("sha256:dd")));
    for name in DEPS.iter().chain(PROPAGATED.iter()) {
        assert_eq!(drv.get(name), Some(&Expr::List(Vec::new())));
    }
    let plain = stdenv().make_derivation().name("source.tar.gz").build();
    assert_eq!(drv.inputs, plain.inputs);
}

#[test]
fn lazy_wraps_the_built_step() {
    let h = stdenv().make_derivation().name("pkg").version("1").lazy();
    let drv = stdenv().make_derivation().name("pkg").version("1").build();
    assert_eq!(h, LazyDrv::new(drv));
    match &*h.thunk {
        Thunk::Step(d) => assert_eq!(d.name, "pkg-1"),
        _ => panic!("a step was built"),
    }
}

#[test]
fn builder_leaves_the_environment_untouched() {
    let env = stdenv();
    let _ = env.make_derivation().name("pkg").input("A", text("a")).build();
    assert_eq!(env, stdenv());
}

#[test]
fn extra_arguments_come_before_the_scripts() {
    let drv = stdenv().make_derivation().name("pkg").arg(text("-x")).arg(text("-u")).build();
    assert_eq!(
        drv.args,
        vec![
            text("-x"),
            text("-u"),
            Expr::str("-e"),
            local_file("scripts/source-stdenv.sh"),
            local_file("scripts/default-builder.sh"),
        ]
    );
}

#[test]
fn lazy_takes_a_builder_without_a_name() {
    let h = stdenv().make_derivation().version("1").out("out").lazy();
    assert_eq!(h, LazyDrv::unbuildable(Missing::Name));
    assert_eq!(h.step(), None);
    let user = stdenv().make_derivation().name("user").dep_build_host(Expr::drv(h.clone())).build();
    assert_eq!(user.get("DEPS_BUILD_HOST"), Some(&Expr::List(vec![Expr::drv(h)])));
}

#[test]
fn forcing_a_lazy_builder_gives_what_build_gives() {
    let make = || stdenv().make_derivation().name("pkg").version("1").do_check().pre_build("x");
    let h = make().lazy();
    assert_eq!(h.force(), &make().build());
    assert_eq!(h.clone().force(), &make().build());
    assert_eq!(h.step(), Some(&make().build()));
}

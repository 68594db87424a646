use pkgs::drv::DrvBuilder;
use pkgs::expr::{local_file, Expr};
use pkgs::stdenv::generic::phases::{
    BuildPhase, CheckPhase, ConfigurePhase, FixPhase, InstallCheckPhase, InstallPhase, PatchPhase,
    UnpackPhase,
};

fn keys(b: &DrvBuilder) -> Vec<(&str, &Expr)> {
    b.inputs.iter().map(|(k, v)| (k.as_str(), v)).collect()
}

fn s(v: &str) -> Option<String> {
    Some(v.to_string())
}

#[test]
fn phase_defaults() {
    assert!(UnpackPhase::new().unpack);
    assert!(PatchPhase::new().patch);
    assert!(ConfigurePhase::new().configure);
    assert!(BuildPhase::new().build);
    assert!(!CheckPhase::new().check);
    assert!(InstallPhase::new().install);
    assert!(FixPhase::new().fix);
    assert!(FixPhase::new().strip);
    assert!(FixPhase::new().patch_elf);
    assert!(!InstallCheckPhase::new().install_check);
    assert_eq!(UnpackPhase::default(), UnpackPhase::new());
    assert_eq!(PatchPhase::default(), PatchPhase::new());
    assert_eq!(ConfigurePhase::default(), ConfigurePhase::new());
    assert_eq!(BuildPhase::default(), BuildPhase::new());
    assert_eq!(CheckPhase::default(), CheckPhase::new());
    assert_eq!(InstallPhase::default(), InstallPhase::new());
    assert_eq!(FixPhase::default(), FixPhase::new());
    assert_eq!(InstallCheckPhase::default(), InstallCheckPhase::new());
}

#[test]
fn default_phases_compile_to_their_switch() {
    let one = Expr::str("1");
    assert_eq!(keys(&UnpackPhase::new().build(DrvBuilder::new())), vec![("UNPACK", &one)]);
    assert_eq!(keys(&PatchPhase::new().build(DrvBuilder::new())), vec![("PATCH", &one)]);
    assert_eq!(keys(&ConfigurePhase::new().build(DrvBuilder::new())), vec![("CONFIGURE", &one)]);
    assert_eq!(keys(&BuildPhase::new().build(DrvBuilder::new())), vec![("BUILD", &one)]);
    assert_eq!(keys(&InstallPhase::new().build(DrvBuilder::new())), vec![("INSTALL", &one)]);
    assert_eq!(
        keys(&FixPhase::new().build(DrvBuilder::new())),
        vec![("FIX", &one), ("STRIP", &one), ("PATCH_ELF", &one)]
    );
    assert!(CheckPhase::new().build(DrvBuilder::new()).inputs.is_empty());
    assert!(InstallCheckPhase::new().build(DrvBuilder::new()).inputs.is_empty());
}

#[test]
fn unpack_phase_variables() {
    let p = UnpackPhase {
        unpack: true,
        src_root: s("root"),
        pre_unpack: s("pre"),
        unpack_phase: None,
        post_unpack: s("post"),
    };
    let b = p.build(DrvBuilder::new().input("A", Expr::str("a")));
    assert_eq!(
        keys(&b),
        vec![
            ("A", &Expr::str("a")),
            ("UNPACK", &Expr::str("1")),
            ("SRC_ROOT", &Expr::str("root")),
            ("PRE_UNPACK", &Expr::str("pre")),
            ("POST_UNPACK", &Expr::str("post")),
        ]
    );
}

#[test]
fn switched_off_phase_leaves_the_builder_as_it_is() {
    let base = || DrvBuilder::new().input("A", Expr::str("a"));
    let p = UnpackPhase { unpack: false, src_root: s("r"), pre_unpack: s("a"), unpack_phase: s("b"), post_unpack: s("c") };
    assert_eq!(p.build(base()), base());
    let p = PatchPhase {
        patch: false,
        patches: vec![local_file("p")],
        patch_flags: s("f"),
        pre_patch: s("a"),
        patch_phase: s("b"),
        post_patch: s("c"),
    };
    assert_eq!(p.build(base()), base());
    let p = ConfigurePhase {
        configure: false,
        configure_script: s("s"),
        configure_flags: s("f"),
        pre_configure: s("a"),
        configure_phase: s("b"),
        post_configure: s("c"),
    };
    assert_eq!(p.build(base()), base());
    let p = BuildPhase {
        build: false,
        makefile: s("m"),
        make_flags: s("f"),
        build_flags: s("g"),
        pre_build: s("a"),
        build_phase: s("b"),
        post_build: s("c"),
    };
    assert_eq!(p.build(base()), base());
    let p = CheckPhase { check: false, check_flags: s("f"), pre_check: s("a"), check_phase: s("b"), post_check: s("c") };
    assert_eq!(p.build(base()), base());
    let p = InstallPhase {
        install: false,
        install_targets: s("t"),
        install_flags: s("f"),
        pre_install: s("a"),
        install_phase: s("b"),
        post_install: s("c"),
    };
    assert_eq!(p.build(base()), base());
    let p = FixPhase { fix: false, strip: true, patch_elf: true, pre_fix: s("a"), fix_phase: s("b"), post_fix: s("c") };
    assert_eq!(p.build(base()), base());
    let p = InstallCheckPhase {
        install_check: false,
        install_check_flags: s("f"),
        pre_install_check: s("a"),
        install_check_phase: s("b"),
        post_install_check: s("c"),
    };
    assert_eq!(p.build(base()), base());
}

#[test]
fn patch_phase_without_patches_has_no_list() {
    let p = PatchPhase { patch_flags: s("--strip=1"), ..PatchPhase::new() };
    let b = p.build(DrvBuilder::new());
    assert_eq!(keys(&b), vec![("PATCH", &Expr::str("1")), ("PATCH_FLAGS", &Expr::str("--strip=1"))]);
}

#[test]
fn patch_phase_with_patches() {
    let p = PatchPhase { patches: vec![local_file("a"), local_file("b")], ..PatchPhase::new() };
    let b = p.build(DrvBuilder::new());
    assert_eq!(
        keys(&b),
        vec![
            ("PATCH", &Expr::str("1")),
            ("PATCHES", &Expr::List(vec![local_file("a"), local_file("b")])),
        ]
    );
}

#[test]
fn build_flags_are_held_not_rendered() {
    let p = BuildPhase { build_flags: s("held"), make_flags: s("-j4"), ..BuildPhase::new() };
    let b = p.build(DrvBuilder::new());
    assert_eq!(keys(&b), vec![("BUILD", &Expr::str("1")), ("MAKE_FLAGS", &Expr::str("-j4"))]);
}

#[test]
fn fix_phase_without_its_flags() {
    let p = FixPhase { strip: false, patch_elf: false, pre_fix: s("pre"), ..FixPhase::new() };
    let b = p.build(DrvBuilder::new());
    assert_eq!(keys(&b), vec![("FIX", &Expr::str("1")), ("PRE_FIX", &Expr::str("pre"))]);
}

#[test]
fn compiling_equal_phases_gives_equal_variables() {
    let make = || CheckPhase { check: true, check_flags: s("-v"), pre_check: None, check_phase: s("x"), post_check: None };
    let a = make().build(DrvBuilder::new());
    let b = make().build(DrvBuilder::new());
    assert_eq!(a.inputs, b.inputs);
    assert_eq!(
        keys(&a),
        vec![("CHECK", &Expr::str("1")), ("CHECK_FLAGS", &Expr::str("-v")), ("CHECK_PHASE", &Expr::str("x"))]
    );
}

#[test]
fn empty_script_is_present_as_empty() {
    let p = InstallCheckPhase { install_check: true, post_install_check: s(""), ..InstallCheckPhase::new() };
    let b = p.build(DrvBuilder::new());
    assert_eq!(
        keys(&b),
        vec![("INSTALL_CHECK", &Expr::str("1")), ("POST_INSTALL_CHECK", &Expr::str(""))]
    );
}

use cargo_core::kind::{LibKind, TargetKind};
use cargo_core::package::Metadata;
use cargo_core::profile::Profile;
use cargo_core::target::Target;

fn meta(suffix: &str) -> Metadata {
    Metadata { metadata: "abc123".to_string(), extra_filename: suffix.to_string() }
}

fn lib_of(kinds: Vec<LibKind>) -> Target {
    Target::lib_target("mylib", kinds, "src/lib.rs", &Profile::default_dev(), meta("-abc123"))
}

#[test]
fn relocatable_includes_generic_lib() {
    assert!(lib_of(vec![LibKind::Lib]).is_rlib());
    assert!(lib_of(vec![LibKind::Rlib]).is_rlib());
    assert!(!lib_of(vec![LibKind::Dylib]).is_rlib());
    assert!(!lib_of(vec![LibKind::StaticLib]).is_rlib());
}

#[test]
fn dynamic_and_static_do_not_merge_generic_lib() {
    let t = lib_of(vec![LibKind::Lib]);
    assert!(!t.is_dylib());
    assert!(!t.is_staticlib());
    let t = lib_of(vec![LibKind::Rlib, LibKind::Dylib, LibKind::StaticLib]);
    assert!(t.is_dylib());
    assert!(t.is_staticlib());
    assert!(t.is_rlib());
    assert!(t.is_lib());
    assert!(!t.is_bin());
    assert!(!lib_of(Vec::new()).is_rlib());
}

#[test]
fn file_stem_appends_metadata_suffix() {
    assert_eq!(lib_of(vec![LibKind::Lib]).file_stem(), "mylib-abc123");
    let ex = Target::example_target("demo", "examples/demo.rs", &Profile::default_dev());
    assert_eq!(ex.file_stem(), "demo");
    assert_eq!(ex.get_metadata(), None);
}

#[test]
fn factories_fix_kind_and_metadata() {
    let p = Profile::default_test();
    let t = Target::test_target("t", "tests/t.rs", &p, meta("-1"));
    assert!(t.is_bin());
    assert_eq!(t.get_kind(), &TargetKind::BinTarget);
    assert_eq!(t.get_metadata(), Some(&meta("-1")));
    assert_eq!(t.file_stem(), "t-1");
    assert_eq!(t.get_profile(), &p);
    assert_eq!(t.get_name(), "t");
    assert_eq!(t.get_src_path(), "tests/t.rs");

    let b = Target::bench_target("b", "benches/b.rs", &Profile::default_bench(), meta("-2"));
    assert!(b.is_bin());
    assert_eq!(b.file_stem(), "b-2");

    let bin = Target::bin_target("tool", "src/main.rs", &Profile::default_release(), None);
    assert!(bin.is_bin());
    assert!(!bin.is_lib());
    assert!(!bin.is_rlib());
    assert_eq!(bin.file_stem(), "tool");
    let bin = Target::bin_target("tool", "src/main.rs", &Profile::default_release(), Some(meta("-9")));
    assert_eq!(bin.file_stem(), "tool-9");
}

#[test]
fn crate_types_in_declaration_order() {
    let t = lib_of(vec![LibKind::StaticLib, LibKind::Lib, LibKind::StaticLib]);
    assert_eq!(t.rustc_crate_types(), vec!["staticlib", "lib", "staticlib"]);
    let ex = Target::example_target("demo", "examples/demo.rs", &Profile::default_dev());
    assert_eq!(ex.rustc_crate_types(), vec!["bin"]);
}

#[test]
fn serialized_target_projects_fields() {
    let t = lib_of(vec![LibKind::Dylib, LibKind::Rlib]);
    let s = t.to_serialized();
    assert_eq!(s.kind, vec!["dylib", "rlib"]);
    assert_eq!(s.name, "mylib");
    assert_eq!(s.src_path, "src/lib.rs");
    assert_eq!(s.profile, Profile::default_dev());
    assert_eq!(s.metadata, Some(meta("-abc123")));
}

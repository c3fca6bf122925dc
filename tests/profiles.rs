use cargo_core::profile::Profile;

#[test]
fn presets_have_their_baselines() {
    assert_eq!(Profile::default_release().get_opt_level(), 3);
    assert_eq!(Profile::default_dev().get_opt_level(), 0);
    assert_eq!(Profile::default_release().get_codegen_units(), None);
    assert_eq!(Profile::default_dev().get_codegen_units(), None);
    assert_eq!(Profile::default_dev().codegen_units(Some(4)).get_codegen_units(), Some(4));
}

#[test]
fn preset_fields() {
    let dev = Profile::default_dev();
    assert_eq!(dev.get_env(), "compile");
    assert!(dev.is_compile());
    assert!(dev.get_debug());
    assert!(!dev.is_test());
    assert!(dev.uses_test_harness());
    assert_eq!(dev.get_dest(), None);

    let test = Profile::default_test();
    assert_eq!(test.get_env(), "test");
    assert!(!test.is_compile());
    assert!(test.get_debug());
    assert!(test.is_test());
    assert_eq!(test.get_opt_level(), 0);

    let bench = Profile::default_bench();
    assert_eq!(bench.get_env(), "bench");
    assert_eq!(bench.get_opt_level(), 3);
    assert!(bench.is_test());
    assert!(!bench.get_debug());
    assert_eq!(bench.get_dest(), Some("release"));

    let release = Profile::default_release();
    assert_eq!(release.get_env(), "release");
    assert_eq!(release.get_dest(), Some("release"));
    assert!(!release.is_test());

    let doc = Profile::default_doc();
    assert_eq!(doc.get_env(), "doc");
    assert!(doc.is_doc());
    assert!(!doc.is_doctest());
    assert!(!doc.is_plugin());
    assert_eq!(doc.get_dest(), None);
}

#[test]
fn setters_change_one_field() {
    let p = Profile::default_dev()
        .opt_level(2)
        .debug(false)
        .test(true)
        .doctest(true)
        .doc(true)
        .plugin(true)
        .harness(false);
    assert_eq!(p.get_opt_level(), 2);
    assert!(!p.get_debug());
    assert!(p.is_test());
    assert!(p.is_doctest());
    assert!(p.is_doc());
    assert!(p.is_plugin());
    assert!(!p.uses_test_harness());
    assert_eq!(p.get_env(), "compile");
    let base = Profile::default_dev();
    assert_eq!(base.clone().opt_level(0), base);
}

#[test]
fn clone_keeps_every_field() {
    let p = Profile::default_bench().codegen_units(Some(8)).plugin(true);
    assert_eq!(p.clone(), p);
}

#[test]
fn fingerprint_ignores_bookkeeping_fields() {
    let a = Profile::default_dev();
    let b = Profile::default_dev().test(true).doc(true).doctest(true);
    assert_ne!(a, b);
    assert_eq!(a.fingerprint(), b.fingerprint());
    // default_test differs from default_dev only in environment and test flag
    assert_eq!(Profile::default_dev().fingerprint(), Profile::default_test().fingerprint());
}

#[test]
fn fingerprint_sees_compilation_fields() {
    let base = Profile::default_dev();
    let fp = base.fingerprint();
    assert_ne!(fp, Profile::default_dev().opt_level(1).fingerprint());
    assert_ne!(fp, Profile::default_dev().codegen_units(Some(1)).fingerprint());
    assert_ne!(fp, Profile::default_dev().debug(false).fingerprint());
    assert_ne!(fp, Profile::default_dev().plugin(true).fingerprint());
    assert_ne!(fp, Profile::default_dev().harness(false).fingerprint());
    // release and doc at optimization 3 differ only in destination among the
    // fingerprint fields
    assert_ne!(Profile::default_release().fingerprint(), Profile::default_doc().opt_level(3).fingerprint());
}

#[test]
fn fingerprint_fields() {
    let fp = Profile::default_bench().fingerprint();
    assert_eq!(fp.opt_level, 3);
    assert_eq!(fp.codegen_units, None);
    assert!(!fp.debug);
    assert!(!fp.plugin);
    assert_eq!(fp.dest, Some("release".to_string()));
    assert!(fp.harness);
}

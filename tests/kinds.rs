use cargo_core::kind::{ConfigError, LibKind};

#[test]
fn kind_names_round_trip() {
    for name in ["lib", "rlib", "dylib", "staticlib"] {
        let k = LibKind::from_str(name).unwrap();
        assert_eq!(k.crate_type(), name);
    }
    assert_eq!(LibKind::from_str("lib"), Ok(LibKind::Lib));
    assert_eq!(LibKind::from_str("rlib"), Ok(LibKind::Rlib));
    assert_eq!(LibKind::from_str("dylib"), Ok(LibKind::Dylib));
    assert_eq!(LibKind::from_str("staticlib"), Ok(LibKind::StaticLib));
}

#[test]
fn unknown_kind_is_named_in_the_error() {
    let e = LibKind::from_str("foo").unwrap_err();
    assert_eq!(e.invalid, "foo");
    assert_eq!(e.message(), "foo was not one of lib|rlib|dylib|staticlib");
}

#[test]
fn kind_names_are_case_sensitive() {
    assert_eq!(
        LibKind::from_str("RLIB"),
        Err(ConfigError { invalid: "RLIB".to_string() })
    );
    assert!(LibKind::from_str("").is_err());
}

#[test]
fn many_kinds_keep_order_and_repeats() {
    let names = vec!["dylib".to_string(), "lib".to_string(), "dylib".to_string()];
    assert_eq!(
        LibKind::from_strs(names),
        Ok(vec![LibKind::Dylib, LibKind::Lib, LibKind::Dylib])
    );
    assert_eq!(LibKind::from_strs(Vec::new()), Ok(Vec::new()));
}

#[test]
fn many_kinds_stop_at_first_invalid() {
    let names = vec!["rlib".to_string(), "bad".to_string(), "worse".to_string()];
    let e = LibKind::from_strs(names).unwrap_err();
    assert_eq!(e.invalid, "bad");
}

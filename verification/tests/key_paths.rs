use arti_core::{
    ArtiPath, ArtiPathComponent, ArtiPathError, CTorPath, KeyPath, KeyPathPattern,
    KeyPathPatternSet, KeyPathRange, KeySpecifier,
};

fn assert_path_ok(inner: &str) {
    let path = ArtiPath::new(inner.to_string());
    assert!(path.is_ok(), "{} should be valid", inner);
    assert_eq!(path.unwrap().as_str(), inner);
}

fn assert_component_ok(inner: &str) {
    let path = ArtiPathComponent::new(inner.to_string());
    assert!(path.is_ok(), "{} should be valid", inner);
    assert_eq!(path.unwrap().as_str(), inner);
}

#[test]
fn arti_path_validation() {
    const VALID_ARTI_PATHS: &[&str] = &[
        "my-hs-client-2",
        "hs_client",
        "client٣¾",
        "clientß",
        "client.key",
    ];

    const BAD_OUTER_CHAR_ARTI_PATHS: &[&str] = &[
        "-hs_client",
        "_hs_client",
        "hs_client-",
        "hs_client_",
        ".client",
        "client.",
        "-",
        "_",
    ];

    const DISALLOWED_CHAR_ARTI_PATHS: &[&str] = &["c++", "client?", "no spaces please"];

    const EMPTY_PATH_COMPONENT: &[&str] =
        &["/////", "/alice/bob", "alice//bob", "alice/bob/", "/"];

    for path in VALID_ARTI_PATHS {
        assert_path_ok(path);
        assert_component_ok(path);
    }

    for path in DISALLOWED_CHAR_ARTI_PATHS {
        let p = ArtiPath::new(path.to_string());
        assert!(p.is_err(), "{} should be invalid", path);
        assert!(
            matches!(p.as_ref().unwrap_err(), ArtiPathError::DisallowedChar(_)),
            "wrong error type for {}: {p:?}",
            path
        );
        let c = ArtiPathComponent::new(path.to_string());
        assert!(c.is_err(), "{} should be invalid", path);
        assert!(
            matches!(c.as_ref().unwrap_err(), ArtiPathError::DisallowedChar(_)),
            "wrong error type for {}: {c:?}",
            path
        );
    }

    for path in BAD_OUTER_CHAR_ARTI_PATHS {
        let p = ArtiPath::new(path.to_string());
        assert!(p.is_err(), "{} should be invalid", path);
        assert!(
            matches!(p.as_ref().unwrap_err(), ArtiPathError::BadOuterChar(_)),
            "wrong error type for {}: {p:?}",
            path
        );
        let c = ArtiPathComponent::new(path.to_string());
        assert!(c.is_err(), "{} should be invalid", path);
        assert!(
            matches!(c.as_ref().unwrap_err(), ArtiPathError::BadOuterChar(_)),
            "wrong error type for {}: {c:?}",
            path
        );
    }

    for path in EMPTY_PATH_COMPONENT {
        let p = ArtiPath::new(path.to_string());
        assert!(p.is_err(), "{} should be invalid", path);
        assert!(
            matches!(p.as_ref().unwrap_err(), ArtiPathError::EmptyPathComponent),
            "wrong error type for {}: {p:?}",
            path
        );
        let c = ArtiPathComponent::new(path.to_string());
        assert!(c.is_err(), "{} should be invalid", path);
        assert!(
            matches!(c.as_ref().unwrap_err(), ArtiPathError::DisallowedChar('/')),
            "wrong error type for {}: {c:?}",
            path
        );
    }

    const SEP: char = '/';
    // This is a valid ArtiPath, but not a valid ArtiPathComponent.
    let path = format!("a{SEP}client{SEP}key.private");
    assert_path_ok(&path);
    let c = ArtiPathComponent::new(path.clone());
    assert!(c.is_err());
    assert!(matches!(
        c.as_ref().unwrap_err(),
        ArtiPathError::DisallowedChar('/')
    ));

    const PATH_WITH_TRAVERSAL: &str = "alice/../bob";
    let p = ArtiPath::new(PATH_WITH_TRAVERSAL.to_string());
    assert!(matches!(
        p.as_ref().unwrap_err(),
        ArtiPathError::PathTraversal
    ));
    let c = ArtiPathComponent::new(PATH_WITH_TRAVERSAL.to_string());
    assert!(matches!(
        c.as_ref().unwrap_err(),
        ArtiPathError::DisallowedChar('/')
    ));

    const REL_PATH: &str = "./bob";
    let p = ArtiPath::new(REL_PATH.to_string());
    assert!(matches!(
        p.as_ref().unwrap_err(),
        ArtiPathError::BadOuterChar('.')
    ));
    let c = ArtiPathComponent::new(REL_PATH.to_string());
    assert!(matches!(
        c.as_ref().unwrap_err(),
        ArtiPathError::DisallowedChar('/')
    ));
}

#[test]
fn key_path_matching() {
    let path = ArtiPath::new("hs_clients/foo/ks_hsc_desc_enc".to_string()).unwrap();
    let key_path = KeyPath::Arti(path);

    // A pattern that matches, with one dynamic part.
    let pats = KeyPathPatternSet::new(
        KeyPathPattern::new("hs_clients/*/ks_hsc_desc_enc".to_string()),
        KeyPathPattern::empty(),
    );
    let ranges = key_path.matches(&pats).expect("pattern should match");
    assert_eq!(ranges.len(), 1);
    let r = &ranges[0];
    assert_eq!((r.start, r.end), (11, 14));

    // A pattern that does not match.
    let pats = KeyPathPatternSet::new(
        KeyPathPattern::new("hs_clients/*/other_key".to_string()),
        KeyPathPattern::empty(),
    );
    assert!(key_path.matches(&pats).is_none());

    // The empty pattern matches no valid path.
    let pats = KeyPathPatternSet::new(KeyPathPattern::empty(), KeyPathPattern::empty());
    assert!(key_path.matches(&pats).is_none());

    // A C Tor path is matched against the C Tor pattern.
    let ctor = KeyPath::CTor(CTorPath::new("client/foo".to_string()));
    let pats = KeyPathPatternSet::new(
        KeyPathPattern::empty(),
        KeyPathPattern::new("client/*".to_string()),
    );
    assert!(ctor.matches(&pats).is_some());
}

#[test]
fn key_path_getters() {
    let arti = KeyPath::Arti(ArtiPath::new("alice/bob".to_string()).unwrap());
    assert!(arti.arti().is_some());
    assert!(arti.ctor().is_none());
    let ctor = KeyPath::CTor(CTorPath::new("alice".to_string()));
    assert!(ctor.arti().is_none());
    assert_eq!(ctor.ctor().unwrap().as_str(), "alice");
}

#[test]
fn substring_ranges() {
    let path = ArtiPath::new("abcdefgh".to_string()).unwrap();
    let r = KeyPathRange { start: 2, end: 5 };
    assert_eq!(path.substring(&r), Some("cde"));
    // A range whose end is not strictly inside the path yields nothing.
    let r = KeyPathRange { start: 0, end: 8 };
    assert_eq!(path.substring(&r), None);
    let r = KeyPathRange { start: 0, end: 7 };
    assert_eq!(path.substring(&r), Some("abcdefg"));
}

#[test]
fn key_specifier_paths() {
    let arti = ArtiPath::new("alice/bob".to_string()).unwrap();
    assert_eq!(arti.arti_path().unwrap().as_str(), "alice/bob");
    assert!(arti.ctor_path().is_none());

    let ctor = CTorPath::new("client/key".to_string());
    assert!(ctor.arti_path().is_err());
    assert_eq!(ctor.ctor_path().unwrap().as_str(), "client/key");

    let kp = KeyPath::Arti(ArtiPath::new("x".to_string()).unwrap());
    assert_eq!(kp.arti_path().unwrap().as_str(), "x");
    assert!(kp.ctor_path().is_none());
}

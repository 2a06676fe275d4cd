use matchstick::version::ApiVersion;

fn with(pre: &str, build: &str) -> Option<ApiVersion> {
    ApiVersion::with_identifiers(0, 0, 4, pre.to_string(), build.to_string())
}

#[test]
fn releases_up_to_the_last_legacy_one_are_legacy() {
    assert!(ApiVersion::new(0, 0, 0).is_legacy());
    assert!(ApiVersion::new(0, 0, 3).is_legacy());
    assert!(ApiVersion::new(0, 0, 4).is_legacy());
    assert!(!ApiVersion::new(0, 0, 5).is_legacy());
    assert!(!ApiVersion::new(0, 1, 0).is_legacy());
    assert!(!ApiVersion::new(1, 0, 0).is_legacy());
    assert!(!ApiVersion::new(u64::MAX, u64::MAX, u64::MAX).is_legacy());
}

#[test]
fn version_has_its_release_numbers() {
    assert_eq!(ApiVersion::new(1, 2, 3).release(), (1, 2, 3));
    assert_eq!(with("alpha.1", "7").unwrap().release(), (0, 0, 4));
}

#[test]
fn prerelease_comes_before_its_release() {
    assert!(with("alpha.1", "").unwrap().is_legacy());
    assert!(with("alpha.1", "7").unwrap().is_legacy());
    let next = ApiVersion::with_identifiers(0, 0, 5, "alpha".to_string(), String::new());
    assert!(!next.unwrap().is_legacy());
}

#[test]
fn build_text_puts_a_release_behind() {
    assert!(with("", "").unwrap().is_legacy());
    assert!(!with("", "1").unwrap().is_legacy());
    assert!(!with("", "0").unwrap().is_legacy());
    assert!(!with("", "001").unwrap().is_legacy());
    assert!(!with("", "linux").unwrap().is_legacy());
    let older = ApiVersion::with_identifiers(0, 0, 3, String::new(), "9".to_string());
    assert!(older.unwrap().is_legacy());
}

#[test]
fn identifiers_are_checked() {
    for pre in ["0", "10", "a", "-", "0a", "a-b.c.0", "Z9", "0-", "a.1.b"] {
        assert!(with(pre, "").is_some(), "{}", pre);
    }
    for pre in ["00", "01", "a.01", "01.a", ".", "a.", ".a", "a..b", "a_b", "a b", "+"] {
        assert!(with(pre, "").is_none(), "{}", pre);
    }
    for pre in ["\u{e9}", "a.\u{e9}"] {
        assert!(with(pre, "").is_none(), "{}", pre);
    }
    for build in ["0", "00", "01", "a.007", "-", "a.b"] {
        assert!(with("", build).is_some(), "{}", build);
    }
    for build in [".", "a.", ".a", "a..b", "a_b", "\u{e9}", "a+b"] {
        assert!(with("", build).is_none(), "{}", build);
    }
    assert!(with("01", "ok").is_none());
    assert!(with("ok", "a_b").is_none());
}

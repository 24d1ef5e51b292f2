use singboard::version::{is_newer, parse_version};

#[test]
fn parses_plain_and_prefixed_versions() {
    assert_eq!(parse_version("3.2.4"), Some((3, 2, 4)));
    assert_eq!(parse_version("v3.2.4"), Some((3, 2, 4)));
    assert_eq!(parse_version(" 3.2.4 "), Some((3, 2, 4)));
    assert_eq!(parse_version("3.2"), Some((3, 2, 0)));
    assert_eq!(parse_version("3.2.4-beta1"), Some((3, 2, 4)));
}

#[test]
fn rejects_unparsable_versions() {
    assert_eq!(parse_version(""), None);
    assert_eq!(parse_version("nightly"), None);
    assert_eq!(parse_version("3"), None);
}

#[test]
fn compares_numerically_not_lexically() {
    assert!(is_newer("3.10.0", "3.2.4"));
    assert!(is_newer("v3.2.5", "3.2.4"));
    assert!(is_newer("4.0.0", "3.99.99"));
}

#[test]
fn same_or_older_is_not_newer() {
    assert!(!is_newer("3.2.4", "3.2.4"));
    assert!(!is_newer("v3.2.4", "3.2.4"));
    assert!(!is_newer("3.2.3", "3.2.4"));
    assert!(!is_newer("2.9.9", "3.0.0"));
}

#[test]
fn unparsable_falls_back_to_string_inequality() {
    assert!(is_newer("nightly", "3.2.4"));
    assert!(!is_newer("nightly", "nightly"));
    assert!(!is_newer("vnightly", "nightly"));
}

#[test]
fn version_fields_follow_u64_parsing() {
    assert_eq!(parse_version("V+1.+2.3"), Some((1, 2, 3)));
    assert_eq!(parse_version("vv1.2.x"), None);
    assert_eq!(parse_version("1.2."), None);
    assert_eq!(parse_version("1.2.7rc"), Some((1, 2, 7)));
    assert_eq!(parse_version("1.2.3.4"), Some((1, 2, 3)));
    assert_eq!(parse_version("18446744073709551615.0"), Some((u64::MAX, 0, 0)));
    assert_eq!(parse_version("18446744073709551616.0"), None);
    assert_eq!(parse_version("1 .2"), None);
}

#[test]
fn newer_is_a_strict_order_on_parsed_versions() {
    // Never newer than itself.
    assert!(!is_newer("1.2.3", "v1.2.3"));
    // Never both ways.
    assert!(is_newer("1.3.0", "1.2.9") && !is_newer("1.2.9", "1.3.0"));
    // Transitive.
    assert!(is_newer("2.0.0", "1.5.0") && is_newer("1.5.0", "1.0.0") && is_newer("2.0.0", "1.0.0"));
    // Total: distinct versions compare one way.
    assert!(is_newer("1.0.1", "1.0.0") || is_newer("1.0.0", "1.0.1"));
    // Whitespace and a tag prefix do not matter.
    assert_eq!(is_newer("  v1.4 ", "1.3.9"), is_newer("1.4", "1.3.9"));
}

#[test]
fn formatted_versions_parse_back() {
    for (a, b, c) in [(0u64, 0u64, 0u64), (3, 10, 7), (u64::MAX, 12, u64::MAX)] {
        assert_eq!(parse_version(&format!("{a}.{b}.{c}")), Some((a, b, c)));
        assert_eq!(parse_version(&format!("v{a}.{b}")), Some((a, b, 0)));
        assert_eq!(parse_version(&format!(" v{a}.{b}")), Some((a, b, 0)));
    }
}

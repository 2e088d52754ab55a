use argus::update::{is_newer, newer_release, parse_u64, version_parts};

#[test]
fn compares_versions() {
    assert!(is_newer("0.1.3", "0.1.2"));
    assert!(is_newer("0.2.0", "0.1.9"));
    assert!(is_newer("1.0.0", "0.9.9"));
    assert!(!is_newer("0.1.2", "0.1.2"));
    assert!(!is_newer("0.1.1", "0.1.2"));
    assert!(!is_newer("garbage", "0.1.0"));
}

#[test]
fn version_parts_treat_junk_as_zero() {
    assert_eq!(version_parts("1.x.+3"), vec![1, 0, 3]);
    assert_eq!(version_parts(""), vec![0]);
    assert!(is_newer("0.1.2.1", "0.1.2"));
}

#[test]
fn parses_u64_like_std() {
    assert_eq!(parse_u64("42"), Some(42));
    assert_eq!(parse_u64("+7"), Some(7));
    assert_eq!(parse_u64("18446744073709551615"), Some(u64::MAX));
    assert_eq!(parse_u64("18446744073709551616"), None);
    assert_eq!(parse_u64(""), None);
    assert_eq!(parse_u64("+"), None);
    assert_eq!(parse_u64("-1"), None);
    assert_eq!(parse_u64(" 1"), None);
}

#[test]
fn newer_release_strips_v() {
    assert_eq!(newer_release("v0.2.0", "0.1.9").as_deref(), Some("0.2.0"));
    assert_eq!(newer_release("v0.1.9", "0.1.9"), None);
}

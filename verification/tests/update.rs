use mahoraga::text::{has_suffix, split_chars, str_eq, string_of_range};
use mahoraga::update::{
    asset_name, find_asset, is_binary_entry, parse_u64, parse_version, platform_target,
    unsupported_platform, update_available, Version, VersionError,
};

fn cs(s: &str) -> Vec<char> {
    s.chars().collect()
}

fn v(major: u64, minor: u64, patch: u64) -> Version {
    Version { major, minor, patch }
}

#[test]
fn numbers_parse_as_the_standard_library_parses_them() {
    for text in [
        "", "+", "-", "0", "7", "007", "+5", "-5", "++5", "5+", "1a", "a1", " 1", "1 ", "１",
        "18446744073709551615", "18446744073709551616", "99999999999999999999999", "+0",
        "1.0", "٣",
    ] {
        assert_eq!(parse_u64(&cs(text)), text.parse::<u64>().ok(), "{:?}", text);
    }
    assert_eq!(parse_u64(&cs("18446744073709551615")), Some(u64::MAX));
    assert_eq!(parse_u64(&cs("18446744073709551616")), None);
    assert_eq!(parse_u64(&cs("42")), Some(42));
}

#[test]
fn versions_parse() {
    assert_eq!(parse_version("1.2.3"), Ok(v(1, 2, 3)));
    assert_eq!(parse_version("v1.2.3"), Ok(v(1, 2, 3)));
    assert_eq!(parse_version("v0.10.0"), Ok(v(0, 10, 0)));
    assert_eq!(parse_version("+1.+2.+3"), Ok(v(1, 2, 3)));
    assert_eq!(parse_version("vv1.2.3"), Err(VersionError::InvalidMajor));
    assert_eq!(parse_version(""), Err(VersionError::InvalidFormat));
    assert_eq!(parse_version("v"), Err(VersionError::InvalidFormat));
    assert_eq!(parse_version("1.2"), Err(VersionError::InvalidFormat));
    assert_eq!(parse_version("1.2.3.4"), Err(VersionError::InvalidFormat));
    assert_eq!(parse_version("x.y.z"), Err(VersionError::InvalidMajor));
    assert_eq!(parse_version("1.y.z"), Err(VersionError::InvalidMinor));
    assert_eq!(parse_version("1.2.z"), Err(VersionError::InvalidPatch));
    assert_eq!(parse_version("1.2."), Err(VersionError::InvalidPatch));
    assert_eq!(parse_version(".2.3"), Err(VersionError::InvalidMajor));
    assert_eq!(parse_version("1.2.3-beta"), Err(VersionError::InvalidPatch));
    assert_eq!(parse_version("1.2.18446744073709551616"), Err(VersionError::InvalidPatch));
}

#[test]
fn version_errors_in_words() {
    assert_eq!(VersionError::InvalidFormat.message(), "Invalid version format");
    assert_eq!(VersionError::InvalidMajor.message(), "Invalid major version");
    assert_eq!(VersionError::InvalidMinor.message(), "Invalid minor version");
    assert_eq!(VersionError::InvalidPatch.message(), "Invalid patch version");
    assert_eq!(VersionError::InvalidFormat.describe("v1.2"), "Invalid version format: 1.2");
    assert_eq!(VersionError::InvalidFormat.describe("1.2"), "Invalid version format: 1.2");
    assert_eq!(VersionError::InvalidMinor.describe("v1.x.2"), "Invalid minor version");
}

#[test]
fn version_order() {
    assert!(v(1, 0, 0).is_newer_than(&v(0, 9, 9)));
    assert!(v(1, 2, 0).is_newer_than(&v(1, 1, 9)));
    assert!(v(1, 2, 3).is_newer_than(&v(1, 2, 2)));
    assert!(!v(1, 2, 3).is_newer_than(&v(1, 2, 3)));
    assert!(!v(1, 2, 3).is_newer_than(&v(1, 3, 0)));
    assert!(!v(0, 9, 9).is_newer_than(&v(1, 0, 0)));
    let all = [v(0, 0, 1), v(0, 1, 0), v(1, 0, 0), v(1, 0, 1), v(2, 0, 0)];
    for a in all {
        for b in all {
            let tuple_a = (a.major, a.minor, a.patch);
            let tuple_b = (b.major, b.minor, b.patch);
            assert_eq!(a.is_newer_than(&b), tuple_a > tuple_b);
        }
    }
}

#[test]
fn update_decision() {
    assert_eq!(update_available("0.1.0", "v0.2.0"), Ok(true));
    assert_eq!(update_available("0.2.0", "v0.2.0"), Ok(false));
    assert_eq!(update_available("0.3.0", "v0.2.9"), Ok(false));
    assert_eq!(update_available("bad", "v0.2.9"), Err(VersionError::InvalidFormat));
    assert_eq!(update_available("0.1.0", "v0.x.9"), Err(VersionError::InvalidMinor));
    assert_eq!(update_available("0.1", "nonsense"), Err(VersionError::InvalidFormat));
}

#[test]
fn platform_targets() {
    assert_eq!(platform_target("macos", "x86_64"), Some("x86_64-apple-darwin"));
    assert_eq!(platform_target("macos", "aarch64"), Some("aarch64-apple-darwin"));
    assert_eq!(platform_target("linux", "x86_64"), Some("x86_64-unknown-linux-gnu"));
    assert_eq!(platform_target("linux", "aarch64"), Some("aarch64-unknown-linux-gnu"));
    assert_eq!(platform_target("windows", "x86_64"), None);
    assert_eq!(platform_target("linux", "riscv64"), None);
    assert_eq!(platform_target("", ""), None);
    assert!(unsupported_platform().starts_with("Unsupported platform."));
}

#[test]
fn asset_names_and_lookup() {
    assert_eq!(
        asset_name("v0.3.1", "x86_64-unknown-linux-gnu"),
        "mahoraga-v0.3.1-x86_64-unknown-linux-gnu.tar.gz"
    );
    let names = vec![
        "checksums.txt".to_string(),
        "mahoraga-v1-a.tar.gz".to_string(),
        "mahoraga-v1-b.tar.gz".to_string(),
        "mahoraga-v1-a.tar.gz".to_string(),
    ];
    assert_eq!(find_asset(&names, "mahoraga-v1-a.tar.gz"), Some(1));
    assert_eq!(find_asset(&names, "mahoraga-v1-b.tar.gz"), Some(2));
    assert_eq!(find_asset(&names, "mahoraga-v1-c.tar.gz"), None);
    assert_eq!(find_asset(&Vec::new(), "x"), None);
}

#[test]
fn binary_entries() {
    assert!(is_binary_entry("mahoraga"));
    assert!(is_binary_entry("release/mahoraga"));
    assert!(is_binary_entry("/mahoraga"));
    assert!(is_binary_entry("a/b/mahoraga"));
    assert!(!is_binary_entry("xmahoraga"));
    assert!(!is_binary_entry("mahoraga/"));
    assert!(!is_binary_entry("mahoraga.txt"));
    assert!(!is_binary_entry(""));
    assert!(!is_binary_entry("Mahoraga"));
}

#[test]
fn text_helpers() {
    assert_eq!(
        split_chars(&cs("a..b."), '.'),
        vec![cs("a"), cs(""), cs("b"), cs("")]
    );
    assert_eq!(split_chars(&cs(""), '.'), vec![cs("")]);
    assert_eq!(split_chars(&cs("abc"), '.'), vec![cs("abc")]);
    for text in ["", ".", "a.b", "..", "1.2.3", ".x"] {
        let expected: Vec<Vec<char>> = text.split('.').map(|p| p.chars().collect()).collect();
        assert_eq!(split_chars(&cs(text), '.'), expected);
    }
    assert!(has_suffix(&cs("abc"), &cs("bc")));
    assert!(has_suffix(&cs("abc"), &cs("")));
    assert!(has_suffix(&cs("abc"), &cs("abc")));
    assert!(!has_suffix(&cs("abc"), &cs("ab")));
    assert!(!has_suffix(&cs("bc"), &cs("abc")));
    assert!(str_eq("héllo", "héllo"));
    assert!(!str_eq("hello", "hellO"));
    assert_eq!(string_of_range(&cs("hello"), 1, 3), "el");
    assert_eq!(string_of_range(&cs("hello"), 2, 2), "");
}

use pkgid::error::ParseError;
use pkgid::text::decimal_string;
use pkgid::version::Version;

#[test]
fn version_text_is_that_of_semver() {
    for text in [
        "0.0.0",
        "1.2.3",
        "10.20.30",
        "18446744073709551615.0.1",
        "1.0.0-alpha",
        "1.0.0-alpha.1",
        "1.0.0-0.3.7",
        "1.0.0+20130313144700",
        "1.0.0-beta+exp.sha.5114f85",
        "1.0.0+001",
        "1.0.0--",
    ] {
        let version = Version::parse(text).unwrap();
        assert_eq!(version.to_string(), semver::Version::parse(text).unwrap().to_string());
        assert_eq!(version.to_string(), text);
    }
}

#[test]
fn versions_compare_by_all_parts() {
    let version = Version::parse("1.2.3-rc.1+build").unwrap();
    assert_eq!(version, Version::parse("1.2.3-rc.1+build").unwrap());
    assert_eq!(version.clone(), version);
    for other in ["2.2.3-rc.1+build", "1.3.3-rc.1+build", "1.2.4-rc.1+build", "1.2.3-rc.2+build",
        "1.2.3-rc.1+other", "1.2.3-rc.1", "1.2.3+build", "1.2.3"]
    {
        assert_ne!(version, Version::parse(other).unwrap());
    }
}

#[test]
fn what_is_no_version_fails_with_its_text() {
    for text in ["", "1", "1.0", "1.0.01", "1.0.unknown", "1.0.0-", "1.0.0+", "a.b.c",
        "23456789999999999999.0.0", " 1.0.0", "v1.0.0"]
    {
        match Version::parse(text) {
            Err(ParseError::VersionParseError { text: offending, reason }) => {
                assert_eq!(offending, text);
                assert_eq!(reason, semver::Version::parse(text).unwrap_err().to_string());
            }
            other => panic!("{:?}", other),
        }
    }
}

#[test]
fn decimal_strings() {
    assert_eq!(decimal_string(0), "0");
    assert_eq!(decimal_string(7), "7");
    assert_eq!(decimal_string(10), "10");
    assert_eq!(decimal_string(1234567890), "1234567890");
    assert_eq!(decimal_string(u64::MAX), "18446744073709551615");
}

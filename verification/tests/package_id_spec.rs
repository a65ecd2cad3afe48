use pkgid::package_id::PackageId;
use pkgid::package_id::SourceId;
use pkgid::package_id_spec::url;
use pkgid::package_id_spec::PackageIdSpec;
use pkgid::version::Version;

fn ok(spec: &str, expected: PackageIdSpec) {
    let parsed = PackageIdSpec::parse(spec).unwrap();
    assert_eq!(parsed, expected);
    assert_eq!(parsed.to_string().as_str(), spec);
}

#[test]
fn good_parsing() {
    ok(
        "http://crates.io/foo#1.2.3",
        PackageIdSpec::new(
            "foo".to_string(),
            Some(Version::parse("1.2.3").unwrap()),
            Some(url("http://crates.io/foo").unwrap()),
        ),
    );
    ok(
        "http://crates.io/foo#bar:1.2.3",
        PackageIdSpec::new(
            "bar".to_string(),
            Some(Version::parse("1.2.3").unwrap()),
            Some(url("http://crates.io/foo").unwrap()),
        ),
    );
    ok(
        "crates.io/foo",
        PackageIdSpec::new(
            "foo".to_string(),
            None,
            Some(url("cargo://crates.io/foo").unwrap()),
        ),
    );
    ok(
        "crates.io/foo#1.2.3",
        PackageIdSpec::new(
            "foo".to_string(),
            Some(Version::parse("1.2.3").unwrap()),
            Some(url("cargo://crates.io/foo").unwrap()),
        ),
    );
    ok(
        "crates.io/foo#bar",
        PackageIdSpec::new(
            "bar".to_string(),
            None,
            Some(url("cargo://crates.io/foo").unwrap()),
        ),
    );
    ok(
        "crates.io/foo#bar:1.2.3",
        PackageIdSpec::new(
            "bar".to_string(),
            Some(Version::parse("1.2.3").unwrap()),
            Some(url("cargo://crates.io/foo").unwrap()),
        ),
    );
    ok("foo", PackageIdSpec::new("foo".to_string(), None, None));
    ok(
        "foo:1.2.3",
        PackageIdSpec::new(
            "foo".to_string(),
            Some(Version::parse("1.2.3").unwrap()),
            None,
        ),
    );
}

#[test]
fn bad_parsing() {
    assert!(PackageIdSpec::parse("baz:").is_err());
    assert!(PackageIdSpec::parse("baz:1.0").is_err());
    assert!(PackageIdSpec::parse("http://baz:1.0").is_err());
    assert!(PackageIdSpec::parse("http://#baz:1.0").is_err());
}

#[test]
fn matching() {
    let sid = SourceId::new(url("https://example.com/index").unwrap());
    let foo = PackageId::new("foo", "1.2.3", &sid).unwrap();
    let bar = PackageId::new("bar", "1.2.3", &sid).unwrap();

    assert!(PackageIdSpec::parse("foo").unwrap().matches(&foo));
    assert!(!PackageIdSpec::parse("foo").unwrap().matches(&bar));
    assert!(PackageIdSpec::parse("foo:1.2.3").unwrap().matches(&foo));
    assert!(!PackageIdSpec::parse("foo:1.2.2").unwrap().matches(&foo));
}

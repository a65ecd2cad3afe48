use pkgid::error::Malformed;
use pkgid::error::ParseError;
use pkgid::package_id::PackageId;
use pkgid::package_id::SourceId;
use pkgid::package_id_spec::locate;
use pkgid::package_id_spec::url;
use pkgid::package_id_spec::PackageIdSpec;
use pkgid::version::Version;

fn malformed(text: &str) -> Malformed {
    match PackageIdSpec::parse(text) {
        Err(ParseError::MalformedSpec(why)) => why,
        other => panic!("{:?}", other),
    }
}

fn bad_version(text: &str) -> String {
    match PackageIdSpec::parse(text) {
        Err(ParseError::VersionParseError { text, .. }) => text,
        other => panic!("{:?}", other),
    }
}

#[test]
fn short_form_gives_name_and_version() {
    let spec = PackageIdSpec::parse("foo").unwrap();
    assert_eq!(spec.get_name(), "foo");
    assert_eq!(spec.get_version(), None);
    assert_eq!(spec.get_url(), None);
    let spec = PackageIdSpec::parse("foo:1.2.3").unwrap();
    assert_eq!(spec.get_name(), "foo");
    assert_eq!(spec.get_version(), Some(&Version::parse("1.2.3").unwrap()));
    assert_eq!(spec.get_url(), None);
}

#[test]
fn short_form_names() {
    for name in ["foo_bar-1", "_", "-", "0", "föö", "日本語"] {
        assert_eq!(PackageIdSpec::parse(name).unwrap().get_name(), name);
    }
}

#[test]
fn short_form_reports_first_invalid_character() {
    assert_eq!(malformed("fo o"), Malformed::InvalidCharacter(' '));
    assert_eq!(malformed("a!b?"), Malformed::InvalidCharacter('!'));
    assert_eq!(malformed("foo.bar"), Malformed::InvalidCharacter('.'));
    assert_eq!(malformed("a#b:1.0.0"), Malformed::InvalidCharacter('#'));
}

#[test]
fn short_form_reads_version_before_name() {
    assert_eq!(bad_version("fo o:1"), "1");
    assert_eq!(bad_version("baz:"), "");
    assert_eq!(bad_version("baz:1.0"), "1.0");
    assert_eq!(bad_version("a:b:1.0.0"), "b:1.0.0");
    assert_eq!(malformed("fo o:1.0.0"), Malformed::InvalidCharacter(' '));
}

#[test]
fn url_form_gives_origin_without_fragment() {
    let spec = PackageIdSpec::parse("crates.io/foo#bar:1.2.3").unwrap();
    assert_eq!(spec.get_name(), "bar");
    assert_eq!(spec.get_version(), Some(&Version::parse("1.2.3").unwrap()));
    let origin = spec.get_url().unwrap();
    assert_eq!(origin, &url("cargo://crates.io/foo").unwrap());
    assert_eq!(origin.fragment(), None);
    assert_eq!(origin.to_string(), "cargo://crates.io/foo");
}

#[test]
fn url_form_takes_name_from_last_segment() {
    let spec = PackageIdSpec::parse("http://crates.io/a/b/foo").unwrap();
    assert_eq!(spec.get_name(), "foo");
    assert_eq!(spec.get_version(), None);
    assert_eq!(spec.get_url(), Some(&url("http://crates.io/a/b/foo").unwrap()));
}

#[test]
fn fragment_forms() {
    let spec = PackageIdSpec::parse("http://crates.io/foo#bar").unwrap();
    assert_eq!((spec.get_name(), spec.get_version()), ("bar", None));
    let spec = PackageIdSpec::parse("http://crates.io/foo#2.0.0-rc.1").unwrap();
    assert_eq!(spec.get_name(), "foo");
    assert_eq!(spec.get_version(), Some(&Version::parse("2.0.0-rc.1").unwrap()));
    let spec = PackageIdSpec::parse("http://crates.io/foo#1bar:1.0.0").unwrap();
    assert_eq!(spec.get_name(), "1bar");
    assert_eq!(spec.get_version(), Some(&Version::parse("1.0.0").unwrap()));
}

#[test]
fn fragment_that_is_neither_name_nor_version_fails() {
    assert_eq!(bad_version("crates.io/foo#1bar"), "1bar");
    assert_eq!(bad_version("crates.io/foo#_bar"), "_bar");
    assert_eq!(bad_version("crates.io/foo#"), "");
    assert_eq!(bad_version("crates.io/foo#bar:"), "");
    assert_eq!(bad_version("crates.io/foo#bar:1.0"), "1.0");
    assert_eq!(bad_version("crates.io/foo#a:b:1.0.0"), "b:1.0.0");
}

#[test]
fn url_with_query_is_refused() {
    assert_eq!(malformed("http://crates.io/foo?a=b"), Malformed::QueryString);
    assert_eq!(malformed("crates.io/foo?a=b#bar:1.0.0"), Malformed::QueryString);
    assert_eq!(malformed("http://crates.io/foo?"), Malformed::QueryString);
}

#[test]
fn url_without_path_is_refused() {
    assert_eq!(malformed("mailto:a/b"), Malformed::MissingPath);
    assert_eq!(malformed("data:text/plain,x"), Malformed::MissingPath);
}

#[test]
fn text_with_slash_is_never_read_in_short_form() {
    assert_eq!(malformed("http://"), Malformed::InvalidUrl);
    assert_eq!(malformed("http://#baz:1.0"), Malformed::InvalidUrl);
    assert_eq!(malformed("a b/c"), Malformed::InvalidUrl);
    assert_eq!(malformed("/"), Malformed::InvalidUrl);
    assert_eq!(malformed("/foo"), Malformed::InvalidUrl);
    assert_eq!(malformed("cargo:///foo"), Malformed::InvalidUrl);
    assert_eq!(malformed("foo:1.0.0+a/b"), Malformed::MissingPath);
}

#[test]
fn text_with_scheme_marker_is_not_tried_behind_pseudo_scheme() {
    assert!(url("1x://c/d").is_err());
    assert!(url("cargo://1x://c/d").is_ok());
    assert_eq!(malformed("1x://c/d"), Malformed::InvalidUrl);
    assert!(url("1x:/c/d").is_err());
    assert_eq!(PackageIdSpec::parse("1x:/c/d").unwrap().get_name(), "d");
}

#[test]
fn text_is_canonical() {
    for (text, canonical) in [
        ("cargo://crates.io/foo", "crates.io/foo"),
        ("crates.io/foo#foo", "crates.io/foo"),
        ("crates.io/foo#foo:1.2.3", "crates.io/foo#1.2.3"),
        ("http://crates.io/foo#foo:1.2.3", "http://crates.io/foo#1.2.3"),
        ("HTTP://Crates.IO/foo", "http://crates.io/foo"),
        ("crates.io/a/b/c#d", "crates.io/a/b/c#d"),
        ("http://crates.io", "http://crates.io/"),
    ] {
        let spec = PackageIdSpec::parse(text).unwrap();
        assert_eq!(spec.to_string(), canonical);
        assert_eq!(PackageIdSpec::parse(canonical).unwrap(), spec);
    }
}

#[test]
fn text_of_parts() {
    let version = Version::parse("1.2.3").unwrap();
    let origin = url("http://crates.io/foo").unwrap();
    let hosted = url("cargo://crates.io/a/foo").unwrap();
    let text = |name: &str, version: Option<&Version>, origin: Option<&pkgid::origin::Url>| {
        PackageIdSpec::new(name.to_string(), version.cloned(), origin.cloned()).to_string()
    };
    assert_eq!(text("foo", None, None), "foo");
    assert_eq!(text("foo", Some(&version), None), "foo:1.2.3");
    assert_eq!(text("foo", None, Some(&origin)), "http://crates.io/foo");
    assert_eq!(text("bar", None, Some(&origin)), "http://crates.io/foo#bar");
    assert_eq!(text("foo", Some(&version), Some(&origin)), "http://crates.io/foo#1.2.3");
    assert_eq!(text("bar", Some(&version), Some(&origin)), "http://crates.io/foo#bar:1.2.3");
    assert_eq!(text("foo", None, Some(&hosted)), "crates.io/a/foo");
    assert_eq!(text("bar", Some(&version), Some(&hosted)), "crates.io/a/foo#bar:1.2.3");
}

#[test]
fn spec_of_package_id_selects_it() {
    let source = SourceId::new(url("https://example.com/index").unwrap());
    let other_source = SourceId::new(url("https://example.org/index").unwrap());
    let foo = PackageId::new("foo", "1.2.3", &source).unwrap();
    let spec = PackageIdSpec::from_package_id(&foo);
    assert_eq!(spec.get_name(), "foo");
    assert_eq!(spec.get_version(), Some(&Version::parse("1.2.3").unwrap()));
    assert_eq!(spec.get_url(), Some(&url("https://example.com/index").unwrap()));
    assert_eq!(spec.to_string(), "https://example.com/index#foo:1.2.3");
    assert!(spec.matches(&foo));
    assert!(!spec.matches(&PackageId::new("foo", "1.2.4", &source).unwrap()));
    assert!(!spec.matches(&PackageId::new("bar", "1.2.3", &source).unwrap()));
    assert!(!spec.matches(&PackageId::new("foo", "1.2.3", &other_source).unwrap()));
}

#[test]
fn name_alone_selects_any_version_and_origin() {
    let spec = PackageIdSpec::parse("foo").unwrap();
    for (version, origin) in [
        ("0.0.1", "https://example.com/index"),
        ("1.2.3-rc.1+build", "cargo://crates.io/foo"),
        ("18446744073709551615.0.0", "file:///tmp/registry"),
    ] {
        let source = SourceId::new(url(origin).unwrap());
        assert!(spec.matches(&PackageId::new("foo", version, &source).unwrap()));
        assert!(!spec.matches(&PackageId::new("foo2", version, &source).unwrap()));
    }
}

#[test]
fn origin_must_be_the_same() {
    let here = SourceId::new(url("http://crates.io/foo").unwrap());
    let there = SourceId::new(url("http://crates.io/bar").unwrap());
    let spec = PackageIdSpec::parse("http://crates.io/foo").unwrap();
    assert!(spec.matches(&PackageId::new("foo", "1.0.0", &here).unwrap()));
    assert!(!spec.matches(&PackageId::new("foo", "1.0.0", &there).unwrap()));
    let spec = PackageIdSpec::parse("http://crates.io/foo#1.0.0").unwrap();
    assert!(spec.matches(&PackageId::new("foo", "1.0.0", &here).unwrap()));
    assert!(!spec.matches(&PackageId::new("foo", "1.0.1", &here).unwrap()));
}

#[test]
fn short_form_needs_a_name() {
    assert_eq!(malformed(""), Malformed::EmptyName);
    assert_eq!(malformed(":1.0.0"), Malformed::EmptyName);
    assert_eq!(malformed(":1.0.0-rc.1+build"), Malformed::EmptyName);
    assert_eq!(bad_version(":"), "");
    assert_eq!(bad_version(":1.0"), "1.0");
    assert_eq!(bad_version("::1.0.0"), ":1.0.0");
}

#[test]
fn url_form_takes_the_name_it_finds() {
    let spec = PackageIdSpec::parse("http://crates.io/").unwrap();
    assert_eq!(spec.get_name(), "");
    assert_eq!(spec.to_string(), "http://crates.io/");
    let spec = PackageIdSpec::parse("crates.io/foo#:1.0.0").unwrap();
    assert_eq!(spec.get_name(), "");
    assert_eq!(spec.to_string(), "crates.io/foo#:1.0.0");
}

#[test]
fn located_urls() {
    assert_eq!(locate("http://crates.io/foo"), url("http://crates.io/foo"));
    assert_eq!(locate("crates.io/foo"), url("cargo://crates.io/foo"));
    assert_eq!(locate("crates.io/foo#bar:1.0.0"), url("cargo://crates.io/foo#bar:1.0.0"));
    assert_eq!(locate("foo"), url("cargo://foo"));
    for text in ["http://", "1x://c/d", "", "/foo", "a b/c"] {
        assert_eq!(locate(text), Err(ParseError::MalformedSpec(Malformed::InvalidUrl)));
    }
}

#[test]
fn specs_that_can_be_written() {
    for text in ["foo", "foo:1.2.3", "crates.io/foo", "http://crates.io/foo#bar:1.2.3"] {
        assert!(PackageIdSpec::parse(text).unwrap().is_renderable());
    }
    let pathless = url("mailto:someone@example.com").unwrap();
    assert!(!PackageIdSpec::new("foo".to_string(), None, Some(pathless)).is_renderable());
    let hostless = url("file:///tmp/foo").unwrap();
    let spec = PackageIdSpec::new("foo".to_string(), None, Some(hostless));
    assert!(spec.is_renderable());
    assert_eq!(spec.to_string(), "file:///tmp/foo");
}

#[test]
fn package_id_parts() {
    let source = SourceId::new(url("https://example.com/index").unwrap());
    let id = PackageId::new("foo", "1.2.3", &source).unwrap();
    assert_eq!(id.get_name(), "foo");
    assert_eq!(id.get_version(), &Version::parse("1.2.3").unwrap());
    assert_eq!(id.get_source_id(), &source);
    assert_eq!(id.clone(), id);
    match PackageId::new("foo", "1.2", &source) {
        Err(ParseError::VersionParseError { text, .. }) => assert_eq!(text, "1.2"),
        other => panic!("{:?}", other),
    }
}

#[test]
fn spec_clone_is_equal() {
    for text in ["foo", "foo:1.2.3", "crates.io/foo#bar:1.2.3"] {
        let spec = PackageIdSpec::parse(text).unwrap();
        assert_eq!(spec.clone(), spec);
    }
    assert_ne!(PackageIdSpec::parse("foo").unwrap(), PackageIdSpec::parse("foo:1.2.3").unwrap());
    assert_ne!(PackageIdSpec::parse("foo").unwrap(), PackageIdSpec::parse("crates.io/foo").unwrap());
    assert_ne!(PackageIdSpec::parse("foo").unwrap(), PackageIdSpec::parse("bar").unwrap());
}

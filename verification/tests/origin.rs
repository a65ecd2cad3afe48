use pkgid::error::Malformed;
use pkgid::error::ParseError;
use pkgid::package_id_spec::url;

#[test]
fn url_parts_are_those_of_the_url() {
    let u = url("https://user@example.com:8080/a/b%20c/?q=1#frag").unwrap();
    assert_eq!(u.scheme(), "https");
    assert_eq!(u.host(), Some("example.com"));
    assert_eq!(u.path(), Some(&vec!["a".to_string(), "b%20c".to_string(), String::new()]));
    assert_eq!(u.query(), Some("q=1"));
    assert_eq!(u.fragment(), Some("frag"));
    assert_eq!(u.to_string(), "https://user@example.com:8080/a/b%20c/?q=1#frag");
    let parsed = ::url::Url::parse("https://user@example.com:8080/a/b%20c/?q=1#frag").unwrap();
    assert_eq!(u.to_string(), parsed.as_str());
}

#[test]
fn pseudo_scheme_has_host_and_path() {
    let u = url("cargo://crates.io/foo/bar").unwrap();
    assert_eq!(u.scheme(), "cargo");
    assert_eq!(u.host(), Some("crates.io"));
    assert_eq!(u.path(), Some(&vec!["foo".to_string(), "bar".to_string()]));
    assert_eq!(u.query(), None);
    assert_eq!(u.fragment(), None);
    assert_eq!(u.to_string(), "cargo://crates.io/foo/bar");
}

#[test]
fn url_without_segments_has_no_path() {
    let u = url("mailto:someone@example.com").unwrap();
    assert_eq!(u.scheme(), "mailto");
    assert_eq!(u.host(), None);
    assert_eq!(u.path(), None);
}

#[test]
fn url_with_empty_path_has_one_empty_segment() {
    let u = url("http://example.com").unwrap();
    assert_eq!(u.path(), Some(&vec![String::new()]));
    assert_eq!(u.to_string(), "http://example.com/");
}

#[test]
fn fragment_is_taken_off() {
    let u = url("http://example.com/a?b#").unwrap();
    assert_eq!(u.fragment(), Some(""));
    assert_eq!(u.to_string(), "http://example.com/a?b#");
    let stripped = u.clone().without_fragment();
    assert_eq!(stripped.fragment(), None);
    assert_eq!(stripped.query(), Some("b"));
    assert_eq!(stripped.to_string(), "http://example.com/a?b");
    assert_ne!(stripped, u);
    assert_eq!(stripped, url("http://example.com/a?b").unwrap());
}

#[test]
fn urls_compare_like_their_text() {
    assert_eq!(url("HTTP://Example.COM/a").unwrap(), url("http://example.com/a").unwrap());
    assert_ne!(url("http://example.com/a").unwrap(), url("http://example.com/b").unwrap());
    assert_ne!(url("http://example.com/a").unwrap(), url("https://example.com/a").unwrap());
}

#[test]
fn what_is_no_url_fails() {
    for text in ["", "crates.io/foo", "http://", "/foo", "://x"] {
        assert_eq!(url(text), Err(ParseError::MalformedSpec(Malformed::InvalidUrl)));
    }
}

#[test]
fn pseudo_scheme_needs_host() {
    for text in ["cargo:///foo", "cargo:/foo", "cargo:foo", "cargo://"] {
        assert!(::url::Url::parse(text).is_ok());
        assert_eq!(url(text), Err(ParseError::MalformedSpec(Malformed::InvalidUrl)));
    }
    assert!(url("other:///foo").is_ok());
    assert_eq!(url("other:///foo").unwrap().host(), None);
}

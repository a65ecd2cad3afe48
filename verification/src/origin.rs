//! Where a package comes from: a URL, held as the parts that `url` read in it.

use crate::text::copy_texts;
use crate::text::opt_text;
use crate::text::same_opt_text;
use crate::text::same_texts;
use crate::text::texts;
use vstd::prelude::*;

verus! {

/// A URL in the parts that `url` found in it.
#[derive(Debug)]
pub struct Url {
    scheme: String,
    host: Option<String>,
    path: Option<Vec<String>>,
    query: Option<String>,
    fragment: Option<String>,
    base: String,
}

/// A `Url` as a mathematical value.
pub struct UrlView {
    /// The scheme, without the `:` that follows it.
    pub scheme: Seq<char>,
    /// The host, if the URL has one.
    pub host: Option<Seq<char>>,
    /// The segments of the path, if the path is made of segments.
    pub path: Option<Seq<Seq<char>>>,
    /// The query, without the `?` before it, if the URL has one.
    pub query: Option<Seq<char>>,
    /// The fragment, without the `#` before it, if the URL has one.
    pub fragment: Option<Seq<char>>,
    /// The whole URL as text, up to and without the `#` of the fragment.
    pub base: Seq<char>,
}

impl UrlView {
    /// The whole URL as text.
    pub open spec fn text(self) -> Seq<char> {
        match self.fragment {
            Some(fragment) => self.base + seq!['#'] + fragment,
            None => self.base,
        }
    }

    /// The same URL without its fragment.
    pub open spec fn without_fragment(self) -> UrlView {
        UrlView { fragment: None, ..self }
    }
}

impl View for Url {
    type V = UrlView;

    closed spec fn view(&self) -> UrlView {
        UrlView {
            scheme: self.scheme@,
            host: opt_text(self.host),
            path: match self.path {
                Some(segments) => Some(texts(segments@)),
                None => None,
            },
            query: opt_text(self.query),
            fragment: opt_text(self.fragment),
            base: self.base@,
        }
    }
}

/// What `url::Url::parse` makes of `text`: the URL in its parts, or `None`
/// where it reports a failure.
pub uninterp spec fn url_parse(text: Seq<char>) -> Option<UrlView>;

/// Calls `url::Url::parse` and copies out of the URL it returns what its
/// methods `scheme`, `host_str`, `path_segments`, `query` and `fragment` give,
/// and its text before `Position::AfterQuery`, which is where the fragment's
/// `#` stands or the text ends. A failure comes back as `None`, without the
/// parser's reason. Trusted: the outcome is `url_parse` of the text, that is,
/// whether the parser fails and which URL it returns depend on the text
/// alone. Which texts are URLs, and what their parts are, is not stated.
#[verifier::external_body]
pub(crate) fn parse_url(text: &str) -> (parsed: Option<Url>)
    ensures
        match parsed {
            Some(u) => url_parse(text@) == Some(u@),
            None => url_parse(text@) is None,
        },
{
    ::url::Url::parse(text).ok().map(
        |u| Url {
            scheme: u.scheme().to_string(),
            host: u.host_str().map(String::from),
            path: u.path_segments().map(|segments| segments.map(String::from).collect()),
            query: u.query().map(String::from),
            fragment: u.fragment().map(String::from),
            base: u[..::url::Position::AfterQuery].to_string(),
        },
    )
}

impl Url {
    /// The scheme.
    pub fn scheme(&self) -> (scheme: &str)
        ensures
            scheme@ == self@.scheme,
    {
        self.scheme.as_str()
    }

    /// The host, if there is one.
    pub fn host(&self) -> (host: Option<&str>)
        ensures
            match host {
                Some(h) => self@.host == Some(h@),
                None => self@.host is None,
            },
    {
        match &self.host {
            Some(h) => Some(h.as_str()),
            None => None,
        }
    }

    /// The segments of the path, if the path is made of segments.
    pub fn path(&self) -> (path: Option<&Vec<String>>)
        ensures
            match path {
                Some(segments) => self@.path == Some(texts(segments@)),
                None => self@.path is None,
            },
    {
        match &self.path {
            Some(segments) => Some(segments),
            None => None,
        }
    }

    /// The query, if there is one.
    pub fn query(&self) -> (query: Option<&str>)
        ensures
            match query {
                Some(q) => self@.query == Some(q@),
                None => self@.query is None,
            },
    {
        match &self.query {
            Some(q) => Some(q.as_str()),
            None => None,
        }
    }

    /// The fragment, if there is one.
    pub fn fragment(&self) -> (fragment: Option<&str>)
        ensures
            match fragment {
                Some(f) => self@.fragment == Some(f@),
                None => self@.fragment is None,
            },
    {
        match &self.fragment {
            Some(f) => Some(f.as_str()),
            None => None,
        }
    }

    /// Takes the fragment off the URL.
    pub fn without_fragment(self) -> (stripped: Url)
        ensures
            stripped@ == self@.without_fragment(),
    {
        Url {
            scheme: self.scheme,
            host: self.host,
            path: self.path,
            query: self.query,
            fragment: None,
            base: self.base,
        }
    }

    /// Writes the whole URL as text.
    pub fn to_string(&self) -> (text: String)
        ensures
            text@ == self@.text(),
    {
        let mut text = self.base.clone();
        match &self.fragment {
            Some(fragment) => {
                proof {
                    reveal_strlit("#");
                    assert("#"@ =~= seq!['#']);
                }
                text.append("#");
                text.append(fragment.as_str());
            },
            None => {},
        }
        text
    }
}

impl Clone for Url {
    fn clone(&self) -> (copy: Url)
        ensures
            copy@ == self@,
    {
        Url {
            scheme: self.scheme.clone(),
            host: self.host.clone(),
            path: match &self.path {
                Some(segments) => Some(copy_texts(segments)),
                None => None,
            },
            query: self.query.clone(),
            fragment: self.fragment.clone(),
            base: self.base.clone(),
        }
    }
}

impl PartialEq for Url {
    fn eq(&self, other: &Url) -> (equal: bool) {
        let same_path = match (&self.path, &other.path) {
            (Some(a), Some(b)) => same_texts(a, b),
            (None, None) => true,
            _ => false,
        };
        let equal = same_path && self.scheme == other.scheme && same_opt_text(
            &self.host,
            &other.host,
        ) && same_opt_text(&self.query, &other.query) && same_opt_text(
            &self.fragment,
            &other.fragment,
        ) && self.base == other.base;
        assert(equal == (self@ == other@)) by {
            if equal {
                assert(self@ =~= other@);
            }
        }
        equal
    }
}

impl vstd::std_specs::cmp::PartialEqSpecImpl for Url {
    open spec fn obeys_eq_spec() -> bool {
        true
    }

    open spec fn eq_spec(&self, other: &Url) -> bool {
        self@ == other@
    }
}

impl Eq for Url {}

} // verus!

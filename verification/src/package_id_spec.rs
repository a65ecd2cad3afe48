//! Package id specs: a name, with or without a version and an origin, as a
//! user writes it to pick one package among those that were resolved.

use crate::error::Malformed;
use crate::error::ParseError;
use crate::error::ParseFailure;
use crate::origin::parse_url;
use crate::origin::url_parse;
use crate::origin::Url;
use crate::origin::UrlView;
use crate::package_id::PackageId;
use crate::package_id::PackageIdView;
use crate::text::char_is_alphabetic;
use crate::text::char_is_alphanumeric;
use crate::text::chars_of;
use crate::text::contains_run;
use crate::text::find_first;
use crate::text::has_infix;
use crate::text::join;
use crate::text::join_strings;
use crate::text::lemma_split_first_joins;
use crate::text::lemma_split_first_of_joined;
use crate::text::same_text;
use crate::text::split_at_first;
use crate::text::split_first;
use crate::version::semver_parse;
use crate::version::version_failure;
use crate::version::version_text;
use crate::version::Version;
use crate::version::VersionView;
use vstd::prelude::*;

verus! {

/// A package id spec. The name is always there; a version or an origin that
/// is absent stands for any.
#[derive(Debug)]
pub struct PackageIdSpec {
    name: String,
    version: Option<Version>,
    url: Option<Url>,
}

/// A `PackageIdSpec` as a mathematical value.
pub struct PackageIdSpecView {
    pub name: Seq<char>,
    pub version: Option<VersionView>,
    pub url: Option<UrlView>,
}

impl View for PackageIdSpec {
    type V = PackageIdSpecView;

    closed spec fn view(&self) -> PackageIdSpecView {
        PackageIdSpecView {
            name: self.name@,
            version: match self.version {
                Some(v) => Some(v@),
                None => None,
            },
            url: match self.url {
                Some(u) => Some(u@),
                None => None,
            },
        }
    }
}

/// The scheme that stands for a registry whose URL was written without one.
pub open spec fn pseudo_scheme() -> Seq<char> {
    seq!['c', 'a', 'r', 'g', 'o']
}

/// What separates a scheme from the rest of a URL.
pub open spec fn scheme_marker() -> Seq<char> {
    seq![':', '/', '/']
}

/// The characters that the name of a short-form spec may hold.
pub open spec fn is_name_char(c: char) -> bool {
    char_is_alphanumeric(c) || c == '_' || c == '-'
}

/// Every character of `name` may stand in a name.
pub open spec fn valid_name(name: Seq<char>) -> bool {
    forall|i: int| 0 <= i < name.len() ==> is_name_char(#[trigger] name[i])
}

/// `i` is the position of the first character of `name` that no name may hold.
pub open spec fn is_first_invalid_at(name: Seq<char>, i: int) -> bool {
    &&& 0 <= i < name.len()
    &&& !is_name_char(name[i])
    &&& forall|j: int| 0 <= j < i ==> is_name_char(#[trigger] name[j])
}

/// The first character of `name` that no name may hold, where there is one.
pub open spec fn first_invalid(name: Seq<char>) -> char {
    name[choose|i: int| is_first_invalid_at(name, i)]
}

/// The outcome of reading `text` in the short form, `name` or
/// `name:version`: the version is read first, the name is checked after. The
/// name must not be empty, and every character of it must be valid.
pub open spec fn short_form(text: Seq<char>) -> Result<PackageIdSpecView, ParseFailure> {
    let (name, version_part) = split_first(text, ':');
    if version_part is Some && semver_parse(version_part->0) is Err {
        Err(version_failure(version_part->0))
    } else if name.len() == 0 {
        Err(ParseFailure::MalformedSpec(Malformed::EmptyName))
    } else if !valid_name(name) {
        Err(ParseFailure::MalformedSpec(Malformed::InvalidCharacter(first_invalid(name))))
    } else {
        let version = match version_part {
            Some(part) => Some(semver_parse(part)->Ok_0),
            None => None,
        };
        Ok(PackageIdSpecView { name, version, url: None })
    }
}

/// The name and the version that the fragment of a URL gives, where
/// `path_name` is the last segment of the URL's path. A fragment `name:version`
/// gives both. A fragment in one part is a name if it starts with a letter,
/// and a version of `path_name` otherwise.
pub open spec fn fragment_form(fragment: Seq<char>, path_name: Seq<char>) -> Result<
    (Seq<char>, Option<VersionView>),
    ParseFailure,
> {
    let (head, version_part) = split_first(fragment, ':');
    match version_part {
        Some(part) => match semver_parse(part) {
            Ok(v) => Ok((head, Some(v))),
            Err(_) => Err(version_failure(part)),
        },
        None => if fragment.len() > 0 && char_is_alphabetic(fragment[0]) {
            Ok((fragment, None))
        } else {
            match semver_parse(fragment) {
                Ok(v) => Ok((path_name, Some(v))),
                Err(_) => Err(version_failure(fragment)),
            }
        },
    }
}

/// The outcome of making a spec of a URL. The URL must have no query and a
/// path of at least one segment, the last of which is the name unless the
/// fragment gives another. The origin is the URL without its fragment.
pub open spec fn url_form(url: UrlView) -> Result<PackageIdSpecView, ParseFailure> {
    if url.query is Some {
        Err(ParseFailure::MalformedSpec(Malformed::QueryString))
    } else if url.path is None || url.path->0.len() == 0 {
        Err(ParseFailure::MalformedSpec(Malformed::MissingPath))
    } else {
        let path_name = url.path->0.last();
        let origin = Some(url.without_fragment());
        match url.fragment {
            Some(fragment) => match fragment_form(fragment, path_name) {
                Ok((name, version)) => Ok(PackageIdSpecView { name, version, url: origin }),
                Err(e) => Err(e),
            },
            None => Ok(PackageIdSpecView { name: path_name, version: None, url: origin }),
        }
    }
}

/// What `text` is as a URL. The scheme `cargo` is taken like `http`: a URL
/// of that scheme without a host is none.
pub open spec fn url_outcome(text: Seq<char>) -> Option<UrlView> {
    match url_parse(text) {
        Some(url) => if url.scheme == pseudo_scheme() && url.host is None {
            None
        } else {
            Some(url)
        },
        None => None,
    }
}

/// The URL that `text` stands for: `text` itself where it is a URL, and
/// otherwise, where `text` holds no `://`, `text` behind `cargo://`.
pub open spec fn located(text: Seq<char>) -> Option<UrlView> {
    match url_outcome(text) {
        Some(url) => Some(url),
        None => if has_infix(text, scheme_marker()) {
            None
        } else {
            url_outcome(pseudo_scheme() + scheme_marker() + text)
        },
    }
}

/// The outcome of reading `text` as a package id spec. A text with a `/` is
/// read as a URL and never in the short form.
pub open spec fn parse_outcome(text: Seq<char>) -> Result<PackageIdSpecView, ParseFailure> {
    if text.contains('/') {
        match located(text) {
            Some(url) => url_form(url),
            None => Err(ParseFailure::MalformedSpec(Malformed::InvalidUrl)),
        }
    } else {
        short_form(text)
    }
}

/// What a result of parsing is as a mathematical value.
pub open spec fn outcome(parsed: Result<PackageIdSpec, ParseError>) -> Result<
    PackageIdSpecView,
    ParseFailure,
> {
    match parsed {
        Ok(spec) => Ok(spec@),
        Err(e) => Err(e@),
    }
}

impl PackageIdSpecView {
    /// The origin, if there is one, has neither query nor fragment, and a
    /// path of at least one segment.
    pub open spec fn well_formed(self) -> bool {
        self.url matches Some(url) ==> {
            &&& url.query is None
            &&& url.fragment is None
            &&& url.path is Some
            &&& url.path->0.len() > 0
        }
    }

    /// The spec can be written as text: its origin, if there is one, has a
    /// path of at least one segment, and a host if its scheme is `cargo`.
    pub open spec fn renderable(self) -> bool {
        self.url matches Some(url) ==> {
            &&& url.path is Some
            &&& url.path->0.len() > 0
            &&& url.scheme == pseudo_scheme() ==> url.host is Some
        }
    }

    /// The text of the origin: host and path for the scheme `cargo`, the
    /// whole URL for any other.
    pub open spec fn origin_text(url: UrlView) -> Seq<char> {
        if url.scheme == pseudo_scheme() {
            url.host->0 + seq!['/'] + join(url.path->0, seq!['/'])
        } else {
            url.text()
        }
    }

    /// Whether the text of the spec spells the name out: always without an
    /// origin, and with one where the last segment of its path is another name.
    pub open spec fn names_itself(self) -> bool {
        match self.url {
            Some(url) => url.path->0.last() != self.name,
            None => true,
        }
    }

    /// The fragment that the text of a spec with an origin ends in, if it
    /// ends in one: the name where the text spells it out, and the version.
    pub open spec fn fragment(self) -> Option<Seq<char>> {
        match self.version {
            Some(v) => if self.names_itself() {
                Some(self.name + seq![':'] + version_text(v))
            } else {
                Some(version_text(v))
            },
            None => if self.names_itself() {
                Some(self.name)
            } else {
                None
            },
        }
    }

    /// The canonical text of the spec.
    pub open spec fn text(self) -> Seq<char> {
        let head = match self.url {
            Some(url) => if self.names_itself() {
                Self::origin_text(url) + seq!['#'] + self.name
            } else {
                Self::origin_text(url)
            },
            None => self.name,
        };
        match self.version {
            Some(v) => head + (if self.names_itself() {
                seq![':']
            } else {
                seq!['#']
            }) + version_text(v),
            None => head,
        }
    }

    /// Whether the spec selects `id`: the names are the same, and the version
    /// and the origin are those of `id` where the spec has them.
    pub open spec fn matches(self, id: PackageIdView) -> bool {
        &&& self.name == id.name
        &&& self.version matches Some(v) ==> v == id.version
        &&& self.url matches Some(url) ==> url == id.url
    }
}

/// `part` is a version whose text is `part` itself.
pub open spec fn version_in_canonical_form(part: Seq<char>) -> bool {
    semver_parse(part) matches Ok(v) && version_text(v) == part
}

/// `fragment` says nothing that `path_name` says already, and it spells its
/// version, if it has one, as the version's own text: it is `name:version`
/// with a name other than `path_name`, or a name other than `path_name` that
/// starts with a letter, or a version.
pub open spec fn fragment_in_canonical_form(fragment: Seq<char>, path_name: Seq<char>) -> bool {
    let (head, version_part) = split_first(fragment, ':');
    match version_part {
        Some(part) => head != path_name && version_in_canonical_form(part),
        None => if fragment.len() > 0 && char_is_alphabetic(fragment[0]) {
            fragment != path_name
        } else {
            version_in_canonical_form(fragment)
        },
    }
}

/// `text` is a package id spec in canonical form. In the short form, the
/// name is not empty and valid, and the version, if there is one, is in
/// canonical form.
/// With a `/`, the text stands for a URL that makes a spec; the text of that
/// URL (host and path for the scheme `cargo`, the whole URL for any other),
/// followed by `#` and the fragment if there is one, is `text` again; and the
/// fragment is in canonical form.
pub open spec fn in_canonical_form(text: Seq<char>) -> bool {
    if text.contains('/') {
        &&& located(text) matches Some(url)
        &&& url_form(url) is Ok
        &&& text == PackageIdSpecView::origin_text(url.without_fragment()) + match url.fragment {
            Some(fragment) => seq!['#'] + fragment,
            None => Seq::empty(),
        }
        &&& url.fragment matches Some(fragment) ==> fragment_in_canonical_form(
            fragment,
            url.path->0.last(),
        )
    } else {
        let (name, version_part) = split_first(text, ':');
        &&& name.len() > 0
        &&& valid_name(name)
        &&& version_part matches Some(part) ==> version_in_canonical_form(part)
    }
}

/// Round trip: a text in canonical form is read as a spec whose text it is.
pub proof fn lemma_round_trip(text: Seq<char>)
    requires
        in_canonical_form(text),
    ensures
        parse_outcome(text) matches Ok(spec) && spec.renderable() && spec.text() == text,
{
    if text.contains('/') {
        let url = located(text)->0;
        let spec = url_form(url)->Ok_0;
        if url.fragment is Some {
            lemma_split_first_joins(url.fragment->0, ':');
        }
        assert(spec.text() =~= text);
    } else {
        lemma_split_first_joins(text, ':');
        assert(short_form(text)->Ok_0.text() =~= text);
    }
}

/// The text of `spec` can be read without loss. The version layer reads the
/// text of the version as that version, and that text holds no `:` and starts
/// with no letter. With an origin, the URL layer reads the text of the spec
/// as the origin with the fragment that the text ends in; the origin has
/// neither query nor fragment of its own; and a name that the text spells out
/// holds no `:`, and starts with a letter where no version follows it.
/// Without an origin, the text holds no `/`, and the name is not empty, valid
/// and without `:`.
pub open spec fn reads_back(spec: PackageIdSpecView) -> bool {
    &&& spec.renderable()
    &&& spec.version matches Some(v) ==> {
        &&& semver_parse(version_text(v)) == Ok::<VersionView, Seq<char>>(v)
        &&& !version_text(v).contains(':')
        &&& version_text(v).len() > 0 ==> !char_is_alphabetic(version_text(v)[0])
    }
    &&& match spec.url {
        Some(origin) => {
            &&& spec.text().contains('/')
            &&& located(spec.text()) == Some(UrlView { fragment: spec.fragment(), ..origin })
            &&& origin.query is None
            &&& origin.fragment is None
            &&& spec.names_itself() ==> !spec.name.contains(':')
            &&& spec.names_itself() && spec.version is None ==> spec.name.len() > 0
                && char_is_alphabetic(spec.name[0])
        },
        None => {
            &&& !spec.text().contains('/')
            &&& spec.name.len() > 0
            &&& valid_name(spec.name)
            &&& !spec.name.contains(':')
        },
    }
}

/// Reading back: the text of a spec is read as that spec again, where it
/// can be read without loss.
pub proof fn lemma_text_reads_back(spec: PackageIdSpecView)
    requires
        reads_back(spec),
    ensures
        parse_outcome(spec.text()) == Ok::<PackageIdSpecView, ParseFailure>(spec),
{
    if spec.version is Some && spec.names_itself() {
        lemma_split_first_of_joined(spec.name, ':', version_text(spec.version->0));
    }
    if spec.url is Some {
        let url = UrlView { fragment: spec.fragment(), ..spec.url->0 };
        assert(url.without_fragment() == spec.url->0);
    }
}

/// A name that the text of a parsed spec spells out behind an origin holds
/// no `:`, and starts with a letter where no version follows it: such a name
/// is read back as a name.
pub proof fn lemma_parsed_name_reads_back(text: Seq<char>)
    requires
        parse_outcome(text) is Ok,
        parse_outcome(text)->Ok_0.url is Some,
        parse_outcome(text)->Ok_0.names_itself(),
    ensures
        !parse_outcome(text)->Ok_0.name.contains(':'),
        parse_outcome(text)->Ok_0.version is None ==> parse_outcome(text)->Ok_0.name.len() > 0
            && char_is_alphabetic(parse_outcome(text)->Ok_0.name[0]),
{
    let url = located(text)->0;
    let fragment = url.fragment->0;
    lemma_split_first_joins(fragment, ':');
}

/// Wildcards: a spec that holds a name and nothing else selects every
/// package of that name, whatever its version and its origin.
pub proof fn lemma_name_alone_matches(id: PackageIdView)
    ensures
        (PackageIdSpecView { name: id.name, version: None, url: None }).matches(id),
{
}

/// Reads `s` as a URL. The scheme `cargo` is taken like `http`: a URL of
/// that scheme must have a host.
pub fn url(s: &str) -> (parsed: Result<Url, ParseError>)
    ensures
        match parsed {
            Ok(u) => url_outcome(s@) == Some(u@),
            Err(e) => url_outcome(s@) is None && e@ == ParseFailure::MalformedSpec(
                Malformed::InvalidUrl,
            ),
        },
{
    proof {
        reveal_strlit("cargo");
        assert("cargo"@ =~= pseudo_scheme());
    }
    match parse_url(s) {
        Some(u) => {
            if same_text(u.scheme(), "cargo") && u.host().is_none() {
                Err(ParseError::MalformedSpec(Malformed::InvalidUrl))
            } else {
                Ok(u)
            }
        },
        None => Err(ParseError::MalformedSpec(Malformed::InvalidUrl)),
    }
}

/// Finds the URL that `text` stands for: `text` itself where it is a URL,
/// and otherwise, where `text` holds no `://`, `text` behind `cargo://`.
pub fn locate(text: &str) -> (found: Result<Url, ParseError>)
    ensures
        match found {
            Ok(u) => located(text@) == Some(u@),
            Err(e) => located(text@) is None && e@ == ParseFailure::MalformedSpec(
                Malformed::InvalidUrl,
            ),
        },
{
    match url(text) {
        Ok(u) => {
            return Ok(u);
        },
        Err(_) => {},
    }
    let marker = chars_of("://");
    proof {
        reveal_strlit("://");
        assert(marker@ =~= scheme_marker());
    }
    if contains_run(&chars_of(text), &marker) {
        return Err(ParseError::MalformedSpec(Malformed::InvalidUrl));
    }
    let prefixed = String::from_str("cargo://").concat(text);
    proof {
        reveal_strlit("cargo://");
        assert(prefixed@ =~= pseudo_scheme() + scheme_marker() + text@);
    }
    url(prefixed.as_str())
}

/// Finds the first character of `name` that no name may hold.
fn find_invalid(name: &str) -> (found: Option<char>)
    ensures
        found is None <==> valid_name(name@),
        found matches Some(c) ==> c == first_invalid(name@),
{
    let chars = chars_of(name);
    let mut i: usize = 0;
    while i < chars.len()
        invariant
            i <= chars.len(),
            chars@ == name@,
            forall|j: int| 0 <= j < i ==> is_name_char(#[trigger] name@[j]),
        decreases chars.len() - i,
    {
        let c = chars[i];
        if !c.is_alphanumeric() && c != '_' && c != '-' {
            proof {
                assert(is_first_invalid_at(name@, i as int));
                let k = choose|k: int| is_first_invalid_at(name@, k);
                if k < i {
                    assert(is_name_char(name@[k]));
                } else if i < k {
                    assert(is_name_char(name@[i as int]));
                }
            }
            return Some(c);
        }
        i += 1;
    }
    None
}

/// Reads a spec in the short form.
fn parse_short(spec: &str) -> (parsed: Result<PackageIdSpec, ParseError>)
    ensures
        outcome(parsed) == short_form(spec@),
{
    let (name, version_part) = split_at_first(spec, ':');
    let version = match version_part {
        Some(part) => match Version::parse(part.as_str()) {
            Ok(v) => Some(v),
            Err(e) => {
                return Err(e);
            },
        },
        None => None,
    };
    if name.as_str().unicode_len() == 0 {
        return Err(ParseError::MalformedSpec(Malformed::EmptyName));
    }
    match find_invalid(name.as_str()) {
        Some(c) => Err(ParseError::MalformedSpec(Malformed::InvalidCharacter(c))),
        None => Ok(PackageIdSpec { name, version, url: None }),
    }
}

/// Reads the name and the version that a URL's fragment gives.
fn parse_fragment(fragment: &str, path_name: &String) -> (parsed: Result<
    (String, Option<Version>),
    ParseError,
>)
    ensures
        match parsed {
            Ok((name, version)) => fragment_form(fragment@, path_name@) == Ok::<
                (Seq<char>, Option<VersionView>),
                ParseFailure,
            >(
                (
                    name@,
                    match version {
                        Some(v) => Some(v@),
                        None => None,
                    },
                ),
            ),
            Err(e) => fragment_form(fragment@, path_name@) == Err::<
                (Seq<char>, Option<VersionView>),
                ParseFailure,
            >(e@),
        },
{
    let (head, version_part) = split_at_first(fragment, ':');
    match version_part {
        Some(part) => match Version::parse(part.as_str()) {
            Ok(v) => Ok((head, Some(v))),
            Err(e) => Err(e),
        },
        None => {
            if fragment.unicode_len() > 0 && fragment.get_char(0).is_alphabetic() {
                Ok((head, None))
            } else {
                match Version::parse(fragment) {
                    Ok(v) => Ok((path_name.clone(), Some(v))),
                    Err(e) => Err(e),
                }
            }
        },
    }
}

impl PackageIdSpec {
    /// A spec of the three parts given.
    pub fn new(name: String, version: Option<Version>, url: Option<Url>) -> (spec: PackageIdSpec)
        ensures
            spec@ == (PackageIdSpecView {
                name: name@,
                version: match version {
                    Some(v) => Some(v@),
                    None => None,
                },
                url: match url {
                    Some(u) => Some(u@),
                    None => None,
                },
            }),
    {
        PackageIdSpec { name, version, url }
    }

    /// Reads a package id spec: a URL with or without a fragment where the
    /// text holds a `/`, and `name` or `name:version` where it holds none.
    /// What it returns can be written as text again; a name that was read in
    /// the short form is not empty and valid.
    pub fn parse(spec: &str) -> (parsed: Result<PackageIdSpec, ParseError>)
        ensures
            outcome(parsed) == parse_outcome(spec@),
            parsed matches Ok(s) ==> {
                &&& s@.well_formed()
                &&& s@.renderable()
                &&& s@.url is None ==> s@.name.len() > 0 && valid_name(s@.name)
            },
    {
        if find_first(&chars_of(spec), '/').is_some() {
            return match locate(spec) {
                Ok(u) => PackageIdSpec::from_url(u),
                Err(e) => Err(e),
            };
        }
        parse_short(spec)
    }

    /// The spec that selects `package_id` and no other: all three parts are
    /// those of `package_id`.
    pub fn from_package_id(package_id: &PackageId) -> (spec: PackageIdSpec)
        ensures
            spec@ == (PackageIdSpecView {
                name: package_id@.name,
                version: Some(package_id@.version),
                url: Some(package_id@.url),
            }),
    {
        PackageIdSpec {
            name: String::from_str(package_id.get_name()),
            version: Some(package_id.get_version().clone()),
            url: Some(package_id.get_source_id().url.clone()),
        }
    }

    /// Makes a spec of a URL whose fragment, if it has one, gives a name, a
    /// version or both.
    pub fn from_url(url: Url) -> (parsed: Result<PackageIdSpec, ParseError>)
        ensures
            outcome(parsed) == url_form(url@),
            parsed matches Ok(s) ==> s@.well_formed(),
    {
        if url.query().is_some() {
            return Err(ParseError::MalformedSpec(Malformed::QueryString));
        }
        let path = match url.path() {
            Some(path) => path,
            None => {
                return Err(ParseError::MalformedSpec(Malformed::MissingPath));
            },
        };
        if path.len() == 0 {
            return Err(ParseError::MalformedSpec(Malformed::MissingPath));
        }
        let path_name = &path[path.len() - 1];
        assert(path_name@ == url@.path->0.last());
        let (name, version) = match url.fragment() {
            Some(fragment) => match parse_fragment(fragment, path_name) {
                Ok(parts) => parts,
                Err(e) => {
                    return Err(e);
                },
            },
            None => (path_name.clone(), None),
        };
        Ok(PackageIdSpec { name, version, url: Some(url.without_fragment()) })
    }

    /// The name.
    pub fn get_name(&self) -> (name: &str)
        ensures
            name@ == self@.name,
    {
        self.name.as_str()
    }

    /// The version, if the spec has one.
    pub fn get_version(&self) -> (version: Option<&Version>)
        ensures
            match version {
                Some(v) => self@.version == Some(v@),
                None => self@.version is None,
            },
    {
        self.version.as_ref()
    }

    /// The origin, if the spec has one.
    pub fn get_url(&self) -> (url: Option<&Url>)
        ensures
            match url {
                Some(u) => self@.url == Some(u@),
                None => self@.url is None,
            },
    {
        self.url.as_ref()
    }

    /// Tells whether the spec selects `package_id`.
    pub fn matches(&self, package_id: &PackageId) -> (selected: bool)
        ensures
            selected == self@.matches(package_id@),
    {
        if !same_text(self.get_name(), package_id.get_name()) {
            return false;
        }
        match &self.version {
            Some(v) => {
                if *v != *package_id.get_version() {
                    return false;
                }
            },
            None => {},
        }
        match &self.url {
            Some(u) => *u == package_id.get_source_id().url,
            None => true,
        }
    }

    /// Tells whether the spec can be written as text.
    pub fn is_renderable(&self) -> (yes: bool)
        ensures
            yes == self@.renderable(),
    {
        proof {
            reveal_strlit("cargo");
            assert("cargo"@ =~= pseudo_scheme());
        }
        match &self.url {
            Some(url) => match url.path() {
                Some(path) => path.len() > 0 && (!same_text(url.scheme(), "cargo")
                    || url.host().is_some()),
                None => false,
            },
            None => true,
        }
    }

    /// Writes the spec as text. An origin must have a path of at least one
    /// segment, and a host if its scheme is `cargo`; what `parse` returns has
    /// both.
    pub fn to_string(&self) -> (text: String)
        requires
            self@.renderable(),
        ensures
            text@ == self@.text(),
    {
        proof {
            reveal_strlit("cargo");
            reveal_strlit("/");
            reveal_strlit("#");
            reveal_strlit(":");
            assert("cargo"@ =~= pseudo_scheme());
            assert("/"@ =~= seq!['/']);
            assert("#"@ =~= seq!['#']);
            assert(":"@ =~= seq![':']);
        }
        let mut printed_name = false;
        let mut text = String::new();
        match &self.url {
            Some(url) => {
                let path = url.path().unwrap();
                if same_text(url.scheme(), "cargo") {
                    text.append(url.host().unwrap());
                    text.append("/");
                    text.append(join_strings(path, "/").as_str());
                } else {
                    text.append(url.to_string().as_str());
                }
                if !same_text(path[path.len() - 1].as_str(), self.name.as_str()) {
                    printed_name = true;
                    text.append("#");
                    text.append(self.name.as_str());
                }
            },
            None => {
                printed_name = true;
                text.append(self.name.as_str());
            },
        }
        match &self.version {
            Some(v) => {
                text.append(if printed_name { ":" } else { "#" });
                text.append(v.to_string().as_str());
            },
            None => {},
        }
        assert(text@ =~= self@.text());
        text
    }
}

impl Clone for PackageIdSpec {
    fn clone(&self) -> (copy: PackageIdSpec)
        ensures
            copy@ == self@,
    {
        PackageIdSpec {
            name: self.name.clone(),
            version: match &self.version {
                Some(v) => Some(v.clone()),
                None => None,
            },
            url: match &self.url {
                Some(u) => Some(u.clone()),
                None => None,
            },
        }
    }
}

impl PartialEq for PackageIdSpec {
    fn eq(&self, other: &PackageIdSpec) -> (equal: bool) {
        let same_version = match (&self.version, &other.version) {
            (Some(a), Some(b)) => *a == *b,
            (None, None) => true,
            _ => false,
        };
        let same_url = match (&self.url, &other.url) {
            (Some(a), Some(b)) => *a == *b,
            (None, None) => true,
            _ => false,
        };
        self.name == other.name && same_version && same_url
    }
}

impl vstd::std_specs::cmp::PartialEqSpecImpl for PackageIdSpec {
    open spec fn obeys_eq_spec() -> bool {
        true
    }

    open spec fn eq_spec(&self, other: &PackageIdSpec) -> bool {
        self@ == other@
    }
}

impl Eq for PackageIdSpec {}

} // verus!

//! Resolved package identities: a name, an exact version and a source.

use crate::error::ParseError;
use crate::origin::Url;
use crate::origin::UrlView;
use crate::version::semver_parse;
use crate::version::version_failure;
use crate::version::Version;
use crate::version::VersionView;
use vstd::prelude::*;

verus! {

/// The place that packages come from, told by its URL.
#[derive(Debug)]
pub struct SourceId {
    /// The URL of the source.
    pub url: Url,
}

impl SourceId {
    /// The source at `url`.
    pub fn new(url: Url) -> (source_id: SourceId)
        ensures
            source_id.url == url,
    {
        SourceId { url }
    }
}

impl Clone for SourceId {
    fn clone(&self) -> (copy: SourceId)
        ensures
            copy.url@ == self.url@,
    {
        SourceId { url: self.url.clone() }
    }
}

/// One package as the resolver knows it: every part is fixed.
#[derive(Debug)]
pub struct PackageId {
    name: String,
    version: Version,
    source_id: SourceId,
}

/// A `PackageId` as a mathematical value.
pub struct PackageIdView {
    pub name: Seq<char>,
    pub version: VersionView,
    pub url: UrlView,
}

impl View for PackageId {
    type V = PackageIdView;

    closed spec fn view(&self) -> PackageIdView {
        PackageIdView { name: self.name@, version: self.version@, url: self.source_id.url@ }
    }
}

impl PackageId {
    /// The package `name` from `source_id` in the version that `version`
    /// spells. Fails exactly where `version` is no version.
    pub fn new(name: &str, version: &str, source_id: &SourceId) -> (made: Result<
        PackageId,
        ParseError,
    >)
        ensures
            match made {
                Ok(id) => semver_parse(version@) == Ok::<VersionView, Seq<char>>(id@.version)
                    && id@.name == name@ && id@.url == source_id.url@,
                Err(e) => semver_parse(version@) is Err && e@ == version_failure(version@),
            },
    {
        match Version::parse(version) {
            Ok(v) => Ok(
                PackageId { name: String::from_str(name), version: v, source_id: source_id.clone() },
            ),
            Err(e) => Err(e),
        }
    }

    /// The package's name.
    pub fn get_name(&self) -> (name: &str)
        ensures
            name@ == self@.name,
    {
        self.name.as_str()
    }

    /// The package's version.
    pub fn get_version(&self) -> (version: &Version)
        ensures
            version@ == self@.version,
    {
        &self.version
    }

    /// The package's source.
    pub fn get_source_id(&self) -> (source_id: &SourceId)
        ensures
            source_id.url@ == self@.url,
    {
        &self.source_id
    }
}

impl Clone for PackageId {
    fn clone(&self) -> (copy: PackageId)
        ensures
            copy@ == self@,
    {
        PackageId {
            name: self.name.clone(),
            version: self.version.clone(),
            source_id: self.source_id.clone(),
        }
    }
}

impl PartialEq for SourceId {
    fn eq(&self, other: &SourceId) -> (equal: bool) {
        self.url == other.url
    }
}

impl vstd::std_specs::cmp::PartialEqSpecImpl for SourceId {
    open spec fn obeys_eq_spec() -> bool {
        true
    }

    open spec fn eq_spec(&self, other: &SourceId) -> bool {
        self.url@ == other.url@
    }
}

impl Eq for SourceId {}

impl PartialEq for PackageId {
    fn eq(&self, other: &PackageId) -> (equal: bool) {
        let equal = self.name == other.name && self.version == other.version && self.source_id
            == other.source_id;
        assert(equal == (self@ == other@));
        equal
    }
}

impl vstd::std_specs::cmp::PartialEqSpecImpl for PackageId {
    open spec fn obeys_eq_spec() -> bool {
        true
    }

    open spec fn eq_spec(&self, other: &PackageId) -> bool {
        self@ == other@
    }
}

impl Eq for PackageId {}

} // verus!

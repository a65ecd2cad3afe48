//! Exact semantic versions.

use crate::error::ParseError;
use crate::error::ParseFailure;
use crate::text::decimal;
use crate::text::decimal_string;
use vstd::prelude::*;

verus! {

/// A semantic version: three numbers, a pre-release tag and build metadata,
/// the last two empty where the version has none.
#[derive(Debug)]
pub struct Version {
    major: u64,
    minor: u64,
    patch: u64,
    pre: String,
    build: String,
}

/// A `Version` as a mathematical value.
pub struct VersionView {
    pub major: u64,
    pub minor: u64,
    pub patch: u64,
    pub pre: Seq<char>,
    pub build: Seq<char>,
}

impl View for Version {
    type V = VersionView;

    closed spec fn view(&self) -> VersionView {
        VersionView {
            major: self.major,
            minor: self.minor,
            patch: self.patch,
            pre: self.pre@,
            build: self.build@,
        }
    }
}

/// What `semver::Version::parse` makes of `text`: the version, or the message
/// of the failure that it reports.
pub uninterp spec fn semver_parse(text: Seq<char>) -> Result<VersionView, Seq<char>>;

/// The text of a version: the three numbers in base ten with dots between
/// them, then `-` and the pre-release tag if there is one, then `+` and the
/// build metadata if there is any.
pub open spec fn version_text(v: VersionView) -> Seq<char> {
    let numbers = decimal(v.major as nat) + seq!['.'] + decimal(v.minor as nat) + seq!['.']
        + decimal(v.patch as nat);
    let pre = if v.pre.len() > 0 {
        seq!['-'] + v.pre
    } else {
        Seq::empty()
    };
    let build = if v.build.len() > 0 {
        seq!['+'] + v.build
    } else {
        Seq::empty()
    };
    numbers + pre + build
}

/// Calls `semver::Version::parse`. Of the version that it returns, copies
/// the five fields, the pre-release tag and the build metadata as the text
/// that their `as_str` gives. Of the failure that it returns, keeps the
/// message that its `Display` writes. Trusted: the outcome is `semver_parse`
/// of the text, that is, whether the parser fails, which version it returns
/// and which message it gives depend on the text alone. Which texts are
/// versions, and what the messages say, is not stated.
#[verifier::external_body]
fn parse_semver(text: &str) -> (parsed: Result<Version, String>)
    ensures
        match parsed {
            Ok(v) => semver_parse(text@) == Ok::<VersionView, Seq<char>>(v@),
            Err(reason) => semver_parse(text@) == Err::<VersionView, Seq<char>>(reason@),
        },
{
    match semver::Version::parse(text) {
        Ok(v) => Ok(
            Version {
                major: v.major,
                minor: v.minor,
                patch: v.patch,
                pre: v.pre.as_str().to_string(),
                build: v.build.as_str().to_string(),
            },
        ),
        Err(e) => Err(e.to_string()),
    }
}

/// The failure to read `text` as a version, where it is none.
pub open spec fn version_failure(text: Seq<char>) -> ParseFailure {
    ParseFailure::VersionParseError { text, reason: semver_parse(text)->Err_0 }
}

impl Version {
    /// Reads a version. Fails exactly where `semver` does, with the text that
    /// was given and the message that `semver` gives.
    pub fn parse(text: &str) -> (parsed: Result<Version, ParseError>)
        ensures
            match parsed {
                Ok(v) => semver_parse(text@) == Ok::<VersionView, Seq<char>>(v@),
                Err(e) => semver_parse(text@) is Err && e@ == version_failure(text@),
            },
    {
        match parse_semver(text) {
            Ok(v) => Ok(v),
            Err(reason) => Err(
                ParseError::VersionParseError { text: String::from_str(text), reason },
            ),
        }
    }

    /// Writes the version as text.
    pub fn to_string(&self) -> (text: String)
        ensures
            text@ == version_text(self@),
    {
        let mut text = decimal_string(self.major);
        text.append(".");
        text.append(decimal_string(self.minor).as_str());
        text.append(".");
        text.append(decimal_string(self.patch).as_str());
        if self.pre.as_str().unicode_len() > 0 {
            text.append("-");
            text.append(self.pre.as_str());
        }
        if self.build.as_str().unicode_len() > 0 {
            text.append("+");
            text.append(self.build.as_str());
        }
        proof {
            reveal_strlit(".");
            reveal_strlit("-");
            reveal_strlit("+");
            assert("."@ =~= seq!['.']);
            assert("-"@ =~= seq!['-']);
            assert("+"@ =~= seq!['+']);
            assert(text@ =~= version_text(self@));
        }
        text
    }
}

impl Clone for Version {
    fn clone(&self) -> (copy: Version)
        ensures
            copy@ == self@,
    {
        Version {
            major: self.major,
            minor: self.minor,
            patch: self.patch,
            pre: self.pre.clone(),
            build: self.build.clone(),
        }
    }
}

impl PartialEq for Version {
    fn eq(&self, other: &Version) -> (equal: bool) {
        let equal = self.major == other.major && self.minor == other.minor && self.patch
            == other.patch && self.pre == other.pre && self.build == other.build;
        assert(equal == (self@ == other@)) by {
            if equal {
                assert(self@ =~= other@);
            }
        }
        equal
    }
}

impl vstd::std_specs::cmp::PartialEqSpecImpl for Version {
    open spec fn obeys_eq_spec() -> bool {
        true
    }

    open spec fn eq_spec(&self, other: &Version) -> bool {
        self@ == other@
    }
}

impl Eq for Version {}

} // verus!

//! What can go wrong: failures of parsing a package id spec, and failures of
//! validating a package summary.

use vstd::prelude::*;

verus! {

/// The ways in which the text of a package id spec can be malformed.
#[derive(Debug, Clone, Copy, PartialEq, Eq, Structural)]
pub enum Malformed {
    /// The text holds a `/` but cannot be read as a URL.
    InvalidUrl,
    /// The URL has a query string.
    QueryString,
    /// The URL has no path made of segments, or its path has no segment.
    MissingPath,
    /// The name of a short-form spec is empty.
    EmptyName,
    /// The name of a short-form spec holds this character, which no name may hold.
    InvalidCharacter(char),
}

/// A failure to read a package id spec or a version.
#[derive(Debug, Clone, PartialEq, Eq)]
pub enum ParseError {
    /// The text is not a package id spec.
    MalformedSpec(Malformed),
    /// A part of the text that must be a version is none.
    VersionParseError {
        /// The text that was expected to be a version.
        text: String,
        /// The message with which the version parser told the failure.
        reason: String,
    },
}

/// A `ParseError` as a mathematical value.
pub enum ParseFailure {
    MalformedSpec(Malformed),
    VersionParseError { text: Seq<char>, reason: Seq<char> },
}

impl View for ParseError {
    type V = ParseFailure;

    open spec fn view(&self) -> ParseFailure {
        match self {
            ParseError::MalformedSpec(m) => ParseFailure::MalformedSpec(*m),
            ParseError::VersionParseError { text, reason } => ParseFailure::VersionParseError {
                text: text@,
                reason: reason@,
            },
        }
    }
}

/// A reason for which a package's dependencies and features are inconsistent.
#[derive(Debug, Clone, PartialEq, Eq)]
pub enum ValidationError {
    /// A feature and a dependency share this name.
    NameCollision(String),
    /// The dependency of this name is optional but only used in development.
    OptionalDevDependency(String),
    /// `feature` lists `target`, which is neither a feature nor a dependency.
    UnknownFeatureTarget { feature: String, target: String },
    /// `feature` lists `target`, a dependency that is not optional.
    FeatureRequiresNonOptionalDependency { feature: String, target: String },
}

/// A `ValidationError` as a mathematical value.
pub enum ValidationFailure {
    NameCollision(Seq<char>),
    OptionalDevDependency(Seq<char>),
    UnknownFeatureTarget { feature: Seq<char>, target: Seq<char> },
    FeatureRequiresNonOptionalDependency { feature: Seq<char>, target: Seq<char> },
}

impl View for ValidationError {
    type V = ValidationFailure;

    open spec fn view(&self) -> ValidationFailure {
        match self {
            ValidationError::NameCollision(name) => ValidationFailure::NameCollision(name@),
            ValidationError::OptionalDevDependency(name) => ValidationFailure::OptionalDevDependency(
                name@,
            ),
            ValidationError::UnknownFeatureTarget { feature, target } => {
                ValidationFailure::UnknownFeatureTarget { feature: feature@, target: target@ }
            },
            ValidationError::FeatureRequiresNonOptionalDependency { feature, target } => {
                ValidationFailure::FeatureRequiresNonOptionalDependency {
                    feature: feature@,
                    target: target@,
                }
            },
        }
    }
}

} // verus!

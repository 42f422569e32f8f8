//! The error taxonomy. Every error is terminal for the run; only the latest
//! tag lookup is ever recovered from, and that happens before any of these is
//! raised.

use vstd::prelude::*;

verus! {

/// The errors the version derivation can end with. Variants carry the
/// offending text where there is one to surface.
#[derive(Debug, Clone, PartialEq, Eq)]
pub enum VersionError {
    /// A classification pattern could not be built.
    PatternCompileError,
    /// The resolved tag does not follow the expected tag grammar.
    NoTagFound(String),
    /// An extracted version substring is not a valid semantic version.
    VersionParseError(String),
    /// A production branch whose current commit carries no exact tag.
    UntaggedProductionCommit,
    /// A release-candidate branch that matched but captured no version.
    InvalidBranchFormat,
    /// The revision counter is not a valid non-negative integer.
    InvalidCounter(String),
    /// Bumping the patch component would leave the representable range.
    PatchOverflow,
    /// A constructed prerelease or build identifier breaks the grammar.
    InvalidIdentifier(String),
    /// The external git collaborator failed; propagated unchanged.
    GitCommandFailed(String),
}

/// The error taxonomy without payloads, for stating results in contracts.
#[derive(Debug, Clone, Copy, PartialEq, Eq, Structural)]
pub enum ErrorKind {
    PatternCompileError,
    NoTagFound,
    VersionParseError,
    UntaggedProductionCommit,
    InvalidBranchFormat,
    InvalidCounter,
    PatchOverflow,
    InvalidIdentifier,
    GitCommandFailed,
}

/// The kind of an error, forgetting its payload.
pub open spec fn kind_of(e: VersionError) -> ErrorKind {
    match e {
        VersionError::PatternCompileError => ErrorKind::PatternCompileError,
        VersionError::NoTagFound(_) => ErrorKind::NoTagFound,
        VersionError::VersionParseError(_) => ErrorKind::VersionParseError,
        VersionError::UntaggedProductionCommit => ErrorKind::UntaggedProductionCommit,
        VersionError::InvalidBranchFormat => ErrorKind::InvalidBranchFormat,
        VersionError::InvalidCounter(_) => ErrorKind::InvalidCounter,
        VersionError::PatchOverflow => ErrorKind::PatchOverflow,
        VersionError::InvalidIdentifier(_) => ErrorKind::InvalidIdentifier,
        VersionError::GitCommandFailed(_) => ErrorKind::GitCommandFailed,
    }
}

/// The text of an error message, for each variant.
pub open spec fn message_chars(e: VersionError) -> Seq<char> {
    match e {
        VersionError::PatternCompileError => "Cannot compile the classification patterns"@,
        VersionError::NoTagFound(t) => "No tag found: "@ + t@,
        VersionError::VersionParseError(t) => "Tag or branch version '"@ + t@
            + "' cannot be parsed to a SemVer version. Do you have app names in your tags? Provide the '--app-name' option."@,
        VersionError::UntaggedProductionCommit
            => "Cannot version a production release from a commit without a tag"@,
        VersionError::InvalidBranchFormat => "Invalid branch name format"@,
        VersionError::InvalidCounter(t) => "Invalid counter: "@ + t@,
        VersionError::PatchOverflow => "Cannot bump the patch version: counter range exceeded"@,
        VersionError::InvalidIdentifier(t) => "Invalid prerelease or build identifier: "@ + t@,
        VersionError::GitCommandFailed(t) => "Git command failed: "@ + t@,
    }
}

impl VersionError {
    /// Renders the error for display on standard error.
    pub fn message(&self) -> (r: String)
        ensures
            r@ == message_chars(*self),
    {
        match self {
            VersionError::PatternCompileError => String::from_str(
                "Cannot compile the classification patterns",
            ),
            VersionError::NoTagFound(t) => {
                let mut s = String::from_str("No tag found: ");
                s.append(t.as_str());
                s
            },
            VersionError::VersionParseError(t) => {
                let mut s = String::from_str("Tag or branch version '");
                s.append(t.as_str());
                s.append(
                    "' cannot be parsed to a SemVer version. Do you have app names in your tags? Provide the '--app-name' option.",
                );
                s
            },
            VersionError::UntaggedProductionCommit => String::from_str(
                "Cannot version a production release from a commit without a tag",
            ),
            VersionError::InvalidBranchFormat => String::from_str("Invalid branch name format"),
            VersionError::InvalidCounter(t) => {
                let mut s = String::from_str("Invalid counter: ");
                s.append(t.as_str());
                s
            },
            VersionError::PatchOverflow => String::from_str(
                "Cannot bump the patch version: counter range exceeded",
            ),
            VersionError::InvalidIdentifier(t) => {
                let mut s = String::from_str("Invalid prerelease or build identifier: ");
                s.append(t.as_str());
                s
            },
            VersionError::GitCommandFailed(t) => {
                let mut s = String::from_str("Git command failed: ");
                s.append(t.as_str());
                s
            },
        }
    }
}

} // verus!

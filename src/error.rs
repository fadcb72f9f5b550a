//! The failures the tool reports.
use vstd::prelude::*;

verus! {

/// Why a command, or the install of one manifest, failed.
#[derive(Debug, Clone)]
pub enum DootError {
    /// The tag holds a `.`, so it would read as a file name.
    InvalidTag(String),
    /// A new package's manifest file is already there.
    AlreadyExists(String),
    /// The package directory is missing.
    NotFound(String),
    /// A manifest file could not be parsed.
    ManifestInvalid { path: String, message: String },
    /// The manifest lists a different number of sources than targets.
    RuleCountMismatch { sources: usize, targets: usize },
    /// The manifest lists no source/target pair.
    EmptyRuleSet,
    /// A target needs `~` resolved and no home directory is known.
    HomeUnset,
    /// A source file does not exist.
    SourceNotFound(String),
    /// The manifest asks for symlinks, which are not supported.
    NotImplemented,
}

} // verus!

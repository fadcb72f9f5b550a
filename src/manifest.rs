//! The declarative description of one package.
use vstd::prelude::*;

verus! {

/// Descriptive fields of a package; never validated.
#[derive(Debug, Clone)]
pub struct Metadata {
    pub name: String,
    pub topic: Option<String>,
    pub authors: Vec<String>,
    pub version: String,
}

/// What to install: source `i` is copied to target `i`.
///
/// Sources are relative to the package directory; a `~` in a target stands
/// for the home directory.
#[derive(Debug, Clone)]
pub struct Rules {
    pub sources: Vec<String>,
    pub targets: Vec<String>,
    pub symlink: Option<bool>,
    pub ask: Option<bool>,
    pub debug: Option<bool>,
}

/// One manifest file: its metadata and its install rules.
#[derive(Debug, Clone)]
pub struct Manifest {
    pub metadata: Metadata,
    pub rules: Rules,
}

/// A flag that defaults to `default` when the manifest leaves it out.
pub open spec fn flag_or(flag: Option<bool>, default: bool) -> bool {
    match flag {
        Some(b) => b,
        None => default,
    }
}

impl Rules {
    /// Whether the user is asked before installing; asked unless told otherwise.
    pub fn asks(&self) -> (r: bool)
        ensures
            r == flag_or(self.ask, true),
    {
        match self.ask {
            Some(b) => b,
            None => true,
        }
    }

    /// Whether the install is a dry run; not unless told so.
    pub fn is_debug(&self) -> (r: bool)
        ensures
            r == flag_or(self.debug, false),
    {
        match self.debug {
            Some(b) => b,
            None => false,
        }
    }

    /// Whether the manifest asks for symlinks; not unless told so.
    pub fn wants_symlink(&self) -> (r: bool)
        ensures
            r == flag_or(self.symlink, false),
    {
        match self.symlink {
            Some(b) => b,
            None => false,
        }
    }
}

} // verus!

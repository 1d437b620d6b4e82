//! The error kinds of a mass move.

use vstd::prelude::*;

verus! {

/// `glob::PatternError`, carried through from the listing of candidate files.
#[verifier::external_type_specification]
#[verifier::external_body]
pub struct ExPatternError(glob::PatternError);

/// `std::io::Error`, carried through from a failed file operation.
#[verifier::external_type_specification]
#[verifier::external_body]
pub struct ExIoError(std::io::Error);

/// `regex::Error`, carried through from compiling a matcher.
#[verifier::external_type_specification]
#[verifier::external_body]
pub struct ExRegexError(regex::Error);

/// Everything that can stop a mass move.
#[derive(Debug)]
pub enum MassMoveError {
    /// No file matched the source pattern.
    NotFoundError(String),
    /// The listing rejected the source pattern.
    PatternError(glob::PatternError),
    /// A wildcard or placeholder stands outside the file name.
    PathError(String),
    /// A file operation failed.
    StdIOError(std::io::Error),
    /// The destination exists and overwriting was not asked for.
    FileExistsError(String),
    /// The matcher could not be compiled.
    RegexError(regex::Error),
    /// A path does not satisfy the source pattern.
    MatchError(String),
}

/// A rejected listing pattern becomes `MassMoveError::PatternError`.
impl From<glob::PatternError> for MassMoveError {
    fn from(error: glob::PatternError) -> (r: MassMoveError)
        ensures
            r == MassMoveError::PatternError(error),
    {
        MassMoveError::PatternError(error)
    }
}

impl vstd::std_specs::convert::FromSpecImpl<glob::PatternError> for MassMoveError {
    open spec fn obeys_from_spec() -> bool {
        true
    }

    open spec fn from_spec(error: glob::PatternError) -> MassMoveError {
        MassMoveError::PatternError(error)
    }
}

/// A failed file operation becomes `MassMoveError::StdIOError`.
impl From<std::io::Error> for MassMoveError {
    fn from(error: std::io::Error) -> (r: MassMoveError)
        ensures
            r == MassMoveError::StdIOError(error),
    {
        MassMoveError::StdIOError(error)
    }
}

impl vstd::std_specs::convert::FromSpecImpl<std::io::Error> for MassMoveError {
    open spec fn obeys_from_spec() -> bool {
        true
    }

    open spec fn from_spec(error: std::io::Error) -> MassMoveError {
        MassMoveError::StdIOError(error)
    }
}

/// A matcher that could not be compiled becomes `MassMoveError::RegexError`.
impl From<regex::Error> for MassMoveError {
    fn from(error: regex::Error) -> (r: MassMoveError)
        ensures
            r == MassMoveError::RegexError(error),
    {
        MassMoveError::RegexError(error)
    }
}

impl vstd::std_specs::convert::FromSpecImpl<regex::Error> for MassMoveError {
    open spec fn obeys_from_spec() -> bool {
        true
    }

    open spec fn from_spec(error: regex::Error) -> MassMoveError {
        MassMoveError::RegexError(error)
    }
}

} // verus!

//! The version gate: whether an installed copy of the tool is recent enough
//! to be told to skip inference. Reading versions and ordering them by
//! precedence is the work of the `semver` crate.

use std::cmp::Ordering;
use std::str::FromStr;
use vstd::prelude::*;

verus! {

#[verifier::external_type_specification]
#[verifier::external_body]
pub struct ExSemverError(semver::Error);

/// How one version stands to another in precedence.
#[derive(Debug, Clone, Copy, PartialEq, Eq, Structural)]
pub enum Precedence {
    Lower,
    Same,
    Higher,
}

/// Whether `semver` reads the text as a version.
pub uninterp spec fn reads_as_version(text: Seq<char>) -> bool;

/// How, to `semver`, the version that `left` reads as stands in precedence
/// to the version that `right` reads as: pre-release tags count, build
/// metadata does not. It means something only where both are read.
pub uninterp spec fn precedence(left: Seq<char>, right: Seq<char>) -> Precedence;

/// Calls `semver::Version::from_str` on `text` and drops the version. The
/// contract names whether the call succeeds.
#[verifier::external_body]
fn check_version(text: &str) -> (r: Result<(), semver::Error>)
    ensures
        r is Ok <==> reads_as_version(text@),
{
    match semver::Version::from_str(text) {
        Ok(_) => Ok(()),
        Err(e) => Err(e),
    }
}

/// Calls `semver::Version::cmp_precedence` on the versions that the two
/// texts read as. The contract names the result.
#[verifier::external_body]
fn compare_precedence(left: &str, right: &str) -> (order: Precedence)
    requires
        reads_as_version(left@),
        reads_as_version(right@),
    ensures
        order == precedence(left@, right@),
{
    match (semver::Version::from_str(left), semver::Version::from_str(right)) {
        (Ok(l), Ok(r)) => match l.cmp_precedence(&r) {
            Ordering::Less => Precedence::Lower,
            Ordering::Equal => Precedence::Same,
            Ordering::Greater => Precedence::Higher,
        },
        _ => Precedence::Same,
    }
}

/// Why the version gate gave no answer.
#[derive(Debug, Clone, Copy, PartialEq, Eq, Structural)]
pub enum VersionError {
    /// The version is no semantic version.
    InvalidVersion,
    /// The minimum is no semantic version.
    InvalidMinimum,
}

impl VersionError {
    /// The text shown to the user for this error.
    pub fn message(&self) -> (text: String)
        ensures
            text@ == match *self {
                VersionError::InvalidVersion => "the version is not a valid semantic version"@,
                VersionError::InvalidMinimum => "the minimum version is not a valid semantic version"@,
            },
    {
        match self {
            VersionError::InvalidVersion => "the version is not a valid semantic version".to_owned(),
            VersionError::InvalidMinimum => "the minimum version is not a valid semantic version".to_owned(),
        }
    }
}

/// The first version that understands `--skip-infer`. It and every version
/// after it in precedence meet the requirement `>=1.7.0-canary.0`.
pub open spec fn skip_infer_minimum() -> Seq<char> {
    "1.7.0-canary.0"@
}

/// Whether a version is at least a minimum: an unreadable version is an
/// error, then an unreadable minimum is; otherwise the version meets the
/// minimum unless it stands lower in precedence.
pub open spec fn gate(minimum: Seq<char>, version: Seq<char>) -> Result<bool, VersionError> {
    if !reads_as_version(version) {
        Err(VersionError::InvalidVersion)
    } else if !reads_as_version(minimum) {
        Err(VersionError::InvalidMinimum)
    } else {
        Ok(precedence(version, minimum) != Precedence::Lower)
    }
}

/// Whether `version` is at least `minimum` in precedence.
pub fn version_at_least(minimum: &str, version: &str) -> (r: Result<bool, VersionError>)
    ensures
        r == gate(minimum@, version@),
{
    match check_version(version) {
        Err(_) => Err(VersionError::InvalidVersion),
        Ok(_) => match check_version(minimum) {
            Err(_) => Err(VersionError::InvalidMinimum),
            Ok(_) => match compare_precedence(version, minimum) {
                Precedence::Lower => Ok(false),
                Precedence::Same => Ok(true),
                Precedence::Higher => Ok(true),
            },
        },
    }
}

} // verus!

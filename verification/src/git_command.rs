//! The boundary to the external git collaborator. The library only consumes
//! the string outputs of git invocations; how they are obtained is up to the
//! implementor, and the contracts of the callers hold for every possible
//! outcome.

use vstd::prelude::*;

use crate::errors::VersionError;

verus! {

/// Runs one git invocation and returns its trimmed standard output, or an
/// error when the invocation fails. Implementations live outside the library
/// (the real git process, or a test double), so nothing is promised of the
/// result.
pub trait GitCommandTrait {
    fn run(&self, args: Vec<&str>) -> Result<String, VersionError>;
}

} // verus!

//! The base version resolver: which semantic version the mutation policy
//! starts from. Release-candidate branches carry their version in the branch
//! name; every other branch takes it from the latest matching tag, falling
//! back to `0.0.0` when no tag can be found; production branches additionally
//! demand an exact tag on the current commit, identical to the latest tag.

use vstd::prelude::*;

use crate::errors::{kind_of, ErrorKind, VersionError};
use crate::git_command::GitCommandTrait;
use crate::patterns::{
    app_view, is_main_branch, is_rc_branch, rc_capture, tag_capture, Regexes,
};
use crate::text::str_eq;
use crate::version::{parse_model, SemanticVersion, VersionModel};

verus! {

/// The tag assumed when the latest-tag lookup fails: `0.0.0`, prefixed with
/// the application name when one is set. This deliberately conflates a
/// repository with no reachable tags and a failed lookup mechanism: both
/// resolve to a usable starting version instead of aborting the run.
pub open spec fn fallback_tag_chars(app: Option<Seq<char>>) -> Seq<char> {
    match app {
        None => "0.0.0"@,
        Some(a) => a + "-0.0.0"@,
    }
}

/// What resolving from a release-candidate branch name yields.
pub open spec fn resolve_branch_model(app: Option<Seq<char>>, branch: Seq<char>) -> Result<
    VersionModel,
    ErrorKind,
> {
    match rc_capture(app, branch) {
        Some(cap) => match parse_model(cap) {
            Some(m) => Ok(m),
            None => Err(ErrorKind::VersionParseError),
        },
        None => Err(ErrorKind::InvalidBranchFormat),
    }
}

/// What resolving from a tag yields; on a production branch the exact tag at
/// the current commit is checked first and must equal the resolved tag.
pub open spec fn resolve_tag_model(
    app: Option<Seq<char>>,
    tag: Seq<char>,
    exact: Option<Seq<char>>,
) -> Result<VersionModel, ErrorKind> {
    if exact matches Some(e) && e != tag {
        Err(ErrorKind::UntaggedProductionCommit)
    } else {
        match tag_capture(app, tag) {
            None => Err(ErrorKind::NoTagFound),
            Some(cap) => match parse_model(cap) {
                Some(m) => Ok(m),
                None => Err(ErrorKind::VersionParseError),
            },
        }
    }
}

/// The whole resolution, over the outcomes of the two tag lookups: `latest`
/// is `None` when the latest-tag lookup failed (absorbed by the fallback),
/// `exact` is `None` when the exact-match lookup failed (fatal, and consulted
/// only on a production branch).
pub open spec fn resolve_model(
    app: Option<Seq<char>>,
    branch: Seq<char>,
    latest: Option<Seq<char>>,
    exact: Option<Seq<char>>,
) -> Result<VersionModel, ErrorKind> {
    if is_rc_branch(app, branch) {
        resolve_branch_model(app, branch)
    } else {
        let tag = match latest {
            Some(t) => t,
            None => fallback_tag_chars(app),
        };
        if is_main_branch(branch) {
            match exact {
                None => Err(ErrorKind::GitCommandFailed),
                Some(e) => resolve_tag_model(app, tag, Some(e)),
            }
        } else {
            resolve_tag_model(app, tag, None)
        }
    }
}

/// Builds the fallback tag text.
pub fn fallback_tag(app_name: &Option<String>) -> (r: String)
    ensures
        r@ == fallback_tag_chars(app_view(*app_name)),
{
    match app_name {
        None => String::from_str("0.0.0"),
        Some(a) => a.clone().concat("-0.0.0"),
    }
}

/// Resolves the base version out of a release-candidate branch name. Tags
/// play no part on this path.
pub fn resolve_from_branch(regexes: &Regexes, branch: &str) -> (r: Result<
    SemanticVersion,
    VersionError,
>)
    ensures
        ({
            let outcome = resolve_branch_model(regexes@, branch@);
            &&& (r is Ok <==> outcome is Ok)
            &&& (r matches Ok(v) ==> v@ == outcome->Ok_0 && v.wf())
            &&& (r matches Err(e) ==> kind_of(e) == outcome->Err_0)
            &&& (r matches Err(e) ==> (e matches VersionError::VersionParseError(t) ==> t@
                == rc_capture(regexes@, branch@)->0))
        }),
{
    match regexes.rc_capture_exec(branch) {
        None => Err(VersionError::InvalidBranchFormat),
        Some(cap) => match SemanticVersion::parse(cap.as_str()) {
            Some(v) => Ok(v),
            None => Err(VersionError::VersionParseError(cap)),
        },
    }
}

/// Resolves the base version out of a tag, with the production-branch
/// exact-tag integrity check when `exact` is supplied.
pub fn resolve_from_tag(regexes: &Regexes, tag: &str, exact: Option<&str>) -> (r: Result<
    SemanticVersion,
    VersionError,
>)
    ensures
        ({
            let ex = match exact {
                Some(e) => Some(e@),
                None => None,
            };
            let outcome = resolve_tag_model(regexes@, tag@, ex);
            &&& (r is Ok <==> outcome is Ok)
            &&& (r matches Ok(v) ==> v@ == outcome->Ok_0 && v.wf())
            &&& (r matches Err(e) ==> kind_of(e) == outcome->Err_0)
            &&& (r matches Err(e) ==> (e matches VersionError::NoTagFound(t) ==> t@ == tag@))
            &&& (r matches Err(e) ==> (e matches VersionError::VersionParseError(t) ==> t@
                == tag@))
        }),
{
    match exact {
        Some(e) => {
            if !str_eq(e, tag) {
                return Err(VersionError::UntaggedProductionCommit);
            }
        },
        None => {},
    }
    match regexes.tag_capture_exec(tag) {
        None => Err(VersionError::NoTagFound(String::from_str(tag))),
        Some(cap) => match SemanticVersion::parse(cap.as_str()) {
            Some(v) => Ok(v),
            None => Err(VersionError::VersionParseError(String::from_str(tag))),
        },
    }
}

/// Resolves the base version for `git_branch`: from the branch name itself on
/// a release-candidate branch (deterministically, without consulting git),
/// else from the latest matching tag, with the `0.0.0` fallback when the
/// lookup fails and the exact-tag check on a production branch.
pub fn get_version<G: GitCommandTrait>(
    git_command: &G,
    regexes: &Regexes,
    git_branch: &str,
) -> (r: Result<SemanticVersion, VersionError>)
    ensures
        is_rc_branch(regexes@, git_branch@) ==> ({
            let outcome = resolve_branch_model(regexes@, git_branch@);
            &&& (r is Ok <==> outcome is Ok)
            &&& (r matches Ok(v) ==> v@ == outcome->Ok_0)
            &&& (r matches Err(e) ==> kind_of(e) == outcome->Err_0)
        }),
        r matches Ok(v) ==> v.wf(),
        !is_rc_branch(regexes@, git_branch@) && !is_main_branch(git_branch@) ==> (r matches Err(e)
            ==> kind_of(e) == ErrorKind::NoTagFound || kind_of(e) == ErrorKind::VersionParseError),
{
    if regexes.rc_capture_exec(git_branch).is_some() {
        return resolve_from_branch(regexes, git_branch);
    }
    let lookup = match &regexes.app_name {
        None => git_command.run(vec!["describe", "--abbrev=0", "--tags"]),
        Some(app) => {
            let pattern = app.clone().concat("-*");
            git_command.run(vec!["describe", "--abbrev=0", "--match", pattern.as_str(), "--tags"])
        },
    };
    let tag = match lookup {
        Ok(t) => t,
        Err(_) => fallback_tag(&regexes.app_name),
    };
    if regexes.main_branch_check(git_branch) {
        let exact = match git_command.run(
            vec!["describe", "--abbrev=0", "--exact-match", "--tags"],
        ) {
            Ok(e) => e,
            Err(e) => {
                return Err(e);
            },
        };
        resolve_from_tag(regexes, tag.as_str(), Some(exact.as_str()))
    } else {
        resolve_from_tag(regexes, tag.as_str(), None)
    }
}

} // verus!

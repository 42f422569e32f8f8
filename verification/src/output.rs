//! Orchestration: gathers the git facts through the collaborator trait, runs
//! the resolver and the mutation policy, and assembles the externally
//! observable record, including the container-safe tag variant.

use vstd::prelude::*;

use crate::errors::{kind_of, ErrorKind, VersionError};
use crate::git_command::GitCommandTrait;
use crate::mutator::update_version;
use crate::patterns::Regexes;
use crate::resolver::get_version;
use crate::text::{all_digits, dec_val, parse_u64_digits, plus_to_dot, replace_plus};

verus! {

/// The run's inputs, as handed over by the caller: an optional application
/// scope, an optional externally supplied build number, and whether to skip
/// the tag fetch.
pub struct Args {
    pub app_name: Option<String>,
    pub build_number: Option<u32>,
    pub skip_fetch: bool,
}

/// The final record: the raw git facts and the derived version, with its
/// container-safe variant.
#[derive(Debug)]
pub struct VersionOutput {
    pub git_branch: String,
    pub git_rev: String,
    pub rev_count: String,
    pub app_version: String,
    pub container_tag: String,
}

/// The mutation counter: the explicit build number always wins; otherwise the
/// revision count must be a decimal numeral that fits in 32 bits.
pub open spec fn count_model(build_number: Option<u32>, rev_count: Seq<char>) -> Result<
    nat,
    ErrorKind,
> {
    match build_number {
        Some(n) => Ok(n as nat),
        None => if rev_count.len() > 0 && all_digits(rev_count) && dec_val(rev_count)
            <= u32::MAX {
            Ok(dec_val(rev_count))
        } else {
            Err(ErrorKind::InvalidCounter)
        },
    }
}

/// Selects the mutation counter: the explicit build number when present, else
/// the revision count parsed as a decimal.
pub fn get_count(args: &Args, rev_count: &str) -> (r: Result<u32, VersionError>)
    ensures
        ({
            let outcome = count_model(args.build_number, rev_count@);
            &&& (r is Ok <==> outcome is Ok)
            &&& (r matches Ok(n) ==> n as nat == outcome->Ok_0)
            &&& (r matches Err(e) ==> kind_of(e) == outcome->Err_0)
            &&& (r matches Err(e) ==> (e matches VersionError::InvalidCounter(t) ==> t@
                == rev_count@))
        }),
{
    match args.build_number {
        Some(n) => Ok(n),
        None => match parse_u64_digits(rev_count) {
            Some(v) => {
                if v <= u32::MAX as u64 {
                    Ok(v as u32)
                } else {
                    Err(VersionError::InvalidCounter(String::from_str(rev_count)))
                }
            },
            None => Err(VersionError::InvalidCounter(String::from_str(rev_count))),
        },
    }
}

/// Derives the full version record for the current working copy: fetches tags
/// (unless skipped), reads the branch, commit hash and revision count, resolves
/// the base version, applies the mutation policy, and assembles the output.
/// Whatever git returns, a successful run's `container_tag` is its
/// `app_version` with every `+` replaced by `.`, and so never contains `+`.
pub fn get_version_output<G: GitCommandTrait>(args: &Args, git_command: &G) -> (r: Result<
    VersionOutput,
    VersionError,
>)
    ensures
        r matches Ok(out) ==> out.container_tag@ == plus_to_dot(out.app_version@),
        r matches Ok(out) ==> forall|i: int|
            0 <= i < out.container_tag@.len() ==> out.container_tag@[i] != '+',
        r matches Ok(out) ==> exists|m: crate::version::VersionModel|
            m.wf() && out.app_version@ == crate::version::version_chars(m),
{
    let regexes = match Regexes::new(&args.app_name) {
        Ok(rx) => rx,
        Err(e) => {
            return Err(e);
        },
    };
    if !args.skip_fetch {
        match git_command.run(vec!["fetch", "--tags"]) {
            Ok(_) => {},
            Err(e) => {
                return Err(e);
            },
        }
    }
    let git_branch = match git_command.run(vec!["branch", "--show-current"]) {
        Ok(b) => b,
        Err(e) => {
            return Err(e);
        },
    };
    let git_rev = match git_command.run(vec!["rev-parse", "--short", "HEAD"]) {
        Ok(v) => v,
        Err(e) => {
            return Err(e);
        },
    };
    let rev_count = match git_command.run(vec!["rev-list", "--count", "HEAD"]) {
        Ok(c) => c,
        Err(e) => {
            return Err(e);
        },
    };
    let semver = match get_version(git_command, &regexes, git_branch.as_str()) {
        Ok(v) => v,
        Err(e) => {
            return Err(e);
        },
    };
    let counter = match get_count(args, rev_count.as_str()) {
        Ok(c) => c,
        Err(e) => {
            return Err(e);
        },
    };
    let new_semver = match update_version(
        git_branch.as_str(),
        &regexes,
        &git_rev,
        counter,
        &semver,
    ) {
        Ok(v) => v,
        Err(e) => {
            return Err(e);
        },
    };
    let app_version = new_semver.render();
    let container_tag = replace_plus(app_version.as_str());
    Ok(VersionOutput { git_branch, git_rev, rev_count, app_version, container_tag })
}

} // verus!

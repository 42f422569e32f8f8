//! End-to-end tests of the production-branch integrity check, the fetch
//! switch, and counter selection through the whole derivation.

use gitver::errors::VersionError;
use gitver::git_command::GitCommandTrait;
use gitver::output::{get_version_output, Args};

/// A scripted git collaborator with independent answers for the latest-tag
/// and exact-match lookups, which also records whether a fetch was asked for.
struct ScriptedGit {
    branch: String,
    rev: String,
    count: String,
    latest_tag: Result<String, String>,
    exact_tag: Result<String, String>,
    fail_fetch: bool,
}

impl GitCommandTrait for ScriptedGit {
    fn run(&self, args: Vec<&str>) -> Result<String, VersionError> {
        if args == vec!["fetch", "--tags"] {
            if self.fail_fetch {
                return Err(VersionError::GitCommandFailed(String::from("fetch refused")));
            }
            return Ok(String::new());
        }
        if args == vec!["branch", "--show-current"] {
            return Ok(self.branch.clone());
        }
        if args == vec!["rev-parse", "--short", "HEAD"] {
            return Ok(self.rev.clone());
        }
        if args == vec!["rev-list", "--count", "HEAD"] {
            return Ok(self.count.clone());
        }
        if args == vec!["describe", "--abbrev=0", "--exact-match", "--tags"] {
            return self
                .exact_tag
                .clone()
                .map_err(VersionError::GitCommandFailed);
        }
        assert_eq!(args[0], "describe");
        self.latest_tag.clone().map_err(VersionError::GitCommandFailed)
    }
}

fn scripted(branch: &str, latest: Result<&str, &str>, exact: Result<&str, &str>) -> ScriptedGit {
    ScriptedGit {
        branch: String::from(branch),
        rev: String::from("1234567"),
        count: String::from("3"),
        latest_tag: latest.map(String::from).map_err(String::from),
        exact_tag: exact.map(String::from).map_err(String::from),
        fail_fetch: false,
    }
}

fn no_app_args() -> Args {
    Args { app_name: None, build_number: None, skip_fetch: false }
}

#[test]
fn untagged_production_commit_blocks_the_release() {
    let git = scripted("main", Ok("1.0.0"), Ok("0.9.0"));
    let result = get_version_output(&no_app_args(), &git);
    assert!(matches!(result, Err(VersionError::UntaggedProductionCommit)));
}

#[test]
fn production_requires_exact_tag_lookup_to_succeed() {
    let git = scripted("main", Ok("1.0.0"), Err("no exact tag"));
    let result = get_version_output(&no_app_args(), &git);
    assert!(matches!(result, Err(VersionError::GitCommandFailed(_))));
}

#[test]
fn failed_fetch_aborts_the_run() {
    let mut git = scripted("develop", Ok("1.0.0"), Ok("1.0.0"));
    git.fail_fetch = true;
    let result = get_version_output(&no_app_args(), &git);
    assert!(matches!(result, Err(VersionError::GitCommandFailed(_))));
}

#[test]
fn skip_fetch_avoids_the_fetch() {
    let mut git = scripted("develop", Ok("1.0.0"), Ok("1.0.0"));
    git.fail_fetch = true;
    let args = Args { app_name: None, build_number: None, skip_fetch: true };
    let output = get_version_output(&args, &git).unwrap();
    assert_eq!(output.app_version, "1.0.1-beta.3+1234567");
}

#[test]
fn build_number_overrides_revision_count_end_to_end() {
    let git = scripted("develop", Ok("1.0.0"), Ok("1.0.0"));
    let args = Args { app_name: None, build_number: Some(99), skip_fetch: false };
    let output = get_version_output(&args, &git).unwrap();
    assert_eq!(output.app_version, "1.0.1-beta.99+1234567");
    assert_eq!(output.container_tag, "1.0.1-beta.99.1234567");
}

#[test]
fn invalid_revision_count_is_reported() {
    let mut git = scripted("develop", Ok("1.0.0"), Ok("1.0.0"));
    git.count = String::from("three");
    let result = get_version_output(&no_app_args(), &git);
    assert!(matches!(result, Err(VersionError::InvalidCounter(_))));
}

#[test]
fn unparseable_latest_tag_suggests_app_scoping() {
    let git = scripted("develop", Ok("myapp-1.0.0"), Ok("myapp-1.0.0"));
    let result = get_version_output(&no_app_args(), &git);
    match result {
        Err(VersionError::VersionParseError(tag)) => assert_eq!(tag, "myapp-1.0.0"),
        other => panic!("expected a version parse error, got {:?}", other),
    }
}

#[test]
fn container_tag_never_contains_plus() {
    let git = scripted("feature/some.branch", Ok("2.5.1"), Ok("2.5.1"));
    let output = get_version_output(&no_app_args(), &git).unwrap();
    assert_eq!(output.app_version, "2.5.2-alpha.3+feature-some-branch.1234567");
    assert!(!output.container_tag.contains('+'));
    assert_eq!(output.container_tag, "2.5.2-alpha.3.feature-some-branch.1234567");
}

//! Unit tests of the version grammar, branch classification, sanitization,
//! counter selection, and the error paths.

use gitver::errors::VersionError;
use gitver::mutator::update_version;
use gitver::output::{get_count, Args};
use gitver::patterns::{BranchClass, Regexes};
use gitver::resolver::{fallback_tag, resolve_from_branch, resolve_from_tag};
use gitver::version::SemanticVersion;

fn no_app() -> Regexes {
    Regexes::new(&None).unwrap()
}

fn with_app(app: &str) -> Regexes {
    Regexes::new(&Some(String::from(app))).unwrap()
}

fn plain_args(build_number: Option<u32>) -> Args {
    Args { app_name: None, build_number, skip_fetch: true }
}

#[test]
fn parse_plain_version() {
    let v = SemanticVersion::parse("1.2.3").unwrap();
    assert_eq!(v.major, 1);
    assert_eq!(v.minor, 2);
    assert_eq!(v.patch, 3);
    assert_eq!(v.pre, "");
    assert_eq!(v.build, "");
    assert_eq!(v.render(), "1.2.3");
}

#[test]
fn parse_full_version() {
    let v = SemanticVersion::parse("10.0.7-rc.1+abc-123.def").unwrap();
    assert_eq!(v.major, 10);
    assert_eq!(v.minor, 0);
    assert_eq!(v.patch, 7);
    assert_eq!(v.pre, "rc.1");
    assert_eq!(v.build, "abc-123.def");
    assert_eq!(v.render(), "10.0.7-rc.1+abc-123.def");
}

#[test]
fn parse_rejects_bad_versions() {
    assert!(SemanticVersion::parse("").is_none());
    assert!(SemanticVersion::parse("1.2").is_none());
    assert!(SemanticVersion::parse("1.2.3.4").is_none());
    assert!(SemanticVersion::parse("01.2.3").is_none());
    assert!(SemanticVersion::parse("1.2.x").is_none());
    assert!(SemanticVersion::parse("1.2.3-").is_none());
    assert!(SemanticVersion::parse("1.2.3+").is_none());
    assert!(SemanticVersion::parse("1.2.3-rc..1").is_none());
    assert!(SemanticVersion::parse("1.2.3-01").is_none());
    assert!(SemanticVersion::parse("1.2.3+a_b").is_none());
    assert!(SemanticVersion::parse("18446744073709551616.0.0").is_none());
}

#[test]
fn parse_accepts_edge_identifiers() {
    assert!(SemanticVersion::parse("1.2.3-0a1").is_some());
    assert!(SemanticVersion::parse("1.2.3+007").is_some());
    assert!(SemanticVersion::parse("0.0.0").is_some());
    assert!(SemanticVersion::parse("18446744073709551615.0.0").is_some());
}

#[test]
fn classify_precedence() {
    let rx = no_app();
    assert_eq!(rx.classify("main"), BranchClass::Main);
    assert_eq!(rx.classify("master"), BranchClass::Main);
    assert_eq!(rx.classify("release/1.1.0"), BranchClass::ReleaseCandidate);
    assert_eq!(rx.classify("hotfix/1.1.1"), BranchClass::ReleaseCandidate);
    assert_eq!(rx.classify("develop"), BranchClass::Develop);
    assert_eq!(rx.classify("dev"), BranchClass::Develop);
    assert_eq!(rx.classify("feature/feat-1"), BranchClass::Feature);
    assert_eq!(rx.classify("mainline"), BranchClass::Feature);
    assert_eq!(rx.classify("development"), BranchClass::Feature);
    assert_eq!(rx.classify(""), BranchClass::Feature);
}

#[test]
fn classify_scoped_release_branches() {
    let rx = with_app("myapp");
    assert_eq!(rx.classify("release/myapp-1.1.0"), BranchClass::ReleaseCandidate);
    assert_eq!(rx.classify("hotfix/myapp-1.1.1"), BranchClass::ReleaseCandidate);
    assert_eq!(rx.classify("release/other-1.1.0"), BranchClass::Feature);
    assert_eq!(rx.classify("release/"), BranchClass::Feature);
    assert_eq!(rx.classify("release/myapp-"), BranchClass::Feature);
}

#[test]
fn sanitize_branch_replaces_unsafe_characters() {
    let rx = no_app();
    assert_eq!(rx.sanitize_branch("feature/feat-1"), "feature-feat-1");
    assert_eq!(rx.sanitize_branch("feature/a_b.c#d"), "feature-a-b-c-d");
    assert_eq!(rx.sanitize_branch("Simple-Branch09"), "Simple-Branch09");
}

#[test]
fn sanitize_branch_truncates_to_fifty() {
    let rx = no_app();
    let long = "x".repeat(60);
    let sanitized = rx.sanitize_branch(&long);
    assert_eq!(sanitized.len(), 50);
    assert_eq!(sanitized, "x".repeat(50));
}

#[test]
fn fallback_tag_text() {
    assert_eq!(fallback_tag(&None), "0.0.0");
    assert_eq!(fallback_tag(&Some(String::from("myapp"))), "myapp-0.0.0");
}

#[test]
fn count_prefers_explicit_build_number() {
    let args = plain_args(Some(42));
    assert_eq!(get_count(&args, "7").unwrap(), 42);
    assert_eq!(get_count(&args, "not-a-number").unwrap(), 42);
}

#[test]
fn count_parses_revision_count() {
    let args = plain_args(None);
    assert_eq!(get_count(&args, "7").unwrap(), 7);
    assert_eq!(get_count(&args, "007").unwrap(), 7);
    assert_eq!(get_count(&args, "4294967295").unwrap(), 4294967295);
    assert!(matches!(get_count(&args, ""), Err(VersionError::InvalidCounter(_))));
    assert!(matches!(get_count(&args, "abc"), Err(VersionError::InvalidCounter(_))));
    assert!(matches!(get_count(&args, "4294967296"), Err(VersionError::InvalidCounter(_))));
}

#[test]
fn resolve_from_branch_reads_branch_version() {
    let rx = no_app();
    let v = resolve_from_branch(&rx, "release/1.1.0").unwrap();
    assert_eq!(v.render(), "1.1.0");
    let rx_app = with_app("myapp");
    let v = resolve_from_branch(&rx_app, "hotfix/myapp-2.3.4").unwrap();
    assert_eq!(v.render(), "2.3.4");
}

#[test]
fn resolve_from_branch_errors() {
    let rx = no_app();
    assert!(matches!(
        resolve_from_branch(&rx, "feature/feat-1"),
        Err(VersionError::InvalidBranchFormat)
    ));
    let rx_app = with_app("myapp");
    assert!(matches!(
        resolve_from_branch(&rx_app, "release/myapp-1.x"),
        Err(VersionError::VersionParseError(_))
    ));
}

#[test]
fn resolve_from_tag_extracts_and_parses() {
    let rx = no_app();
    let v = resolve_from_tag(&rx, "1.0.0", None).unwrap();
    assert_eq!(v.render(), "1.0.0");
    let rx_app = with_app("myapp");
    let v = resolve_from_tag(&rx_app, "myapp-1.0.0", None).unwrap();
    assert_eq!(v.render(), "1.0.0");
}

#[test]
fn resolve_from_tag_errors() {
    let rx_app = with_app("myapp");
    assert!(matches!(
        resolve_from_tag(&rx_app, "other-1.0.0", None),
        Err(VersionError::NoTagFound(_))
    ));
    let rx = no_app();
    assert!(matches!(
        resolve_from_tag(&rx, "myapp-1.0.0", None),
        Err(VersionError::VersionParseError(_))
    ));
    assert!(matches!(
        resolve_from_tag(&rx, "1.0.0", Some("1.0.1")),
        Err(VersionError::UntaggedProductionCommit)
    ));
}

#[test]
fn update_version_main_keeps_line_version() {
    let rx = no_app();
    let base = SemanticVersion::parse("1.0.0").unwrap();
    let rev = String::from("1234567");
    let v = update_version("main", &rx, &rev, 5, &base).unwrap();
    assert_eq!(v.render(), "1.0.0+1234567");
}

#[test]
fn update_version_main_keeps_base_prerelease() {
    let rx = no_app();
    let base = SemanticVersion::parse("1.0.0-rc.2").unwrap();
    let rev = String::from("1234567");
    let v = update_version("main", &rx, &rev, 5, &base).unwrap();
    assert_eq!(v.render(), "1.0.0-rc.2+1234567");
}

#[test]
fn update_version_develop_bumps_patch() {
    let rx = no_app();
    let base = SemanticVersion::parse("1.4.9").unwrap();
    let rev = String::from("abcdef0");
    let v = update_version("develop", &rx, &rev, 12, &base).unwrap();
    assert_eq!(v.render(), "1.4.10-beta.12+abcdef0");
}

#[test]
fn update_version_feature_sanitizes_and_truncates() {
    let rx = no_app();
    let base = SemanticVersion::parse("0.0.0").unwrap();
    let rev = String::from("abcdef0");
    let long = format!("feature/{}", "y".repeat(60));
    let v = update_version(&long, &rx, &rev, 3, &base).unwrap();
    let expected_branch = format!("feature-{}", "y".repeat(42));
    assert_eq!(v.render(), format!("0.0.1-alpha.3+{}.abcdef0", expected_branch));
}

#[test]
fn update_version_rejects_bad_commit_hash() {
    let rx = no_app();
    let base = SemanticVersion::parse("1.0.0").unwrap();
    let rev = String::from("bad_rev");
    assert!(matches!(
        update_version("main", &rx, &rev, 1, &base),
        Err(VersionError::InvalidIdentifier(_))
    ));
}

#[test]
fn update_version_rejects_empty_feature_branch() {
    let rx = no_app();
    let base = SemanticVersion::parse("1.0.0").unwrap();
    let rev = String::from("1234567");
    assert!(matches!(
        update_version("", &rx, &rev, 1, &base),
        Err(VersionError::InvalidIdentifier(_))
    ));
}

#[test]
fn update_version_patch_overflow() {
    let rx = no_app();
    let base = SemanticVersion::parse("0.0.18446744073709551615").unwrap();
    let rev = String::from("1234567");
    assert!(matches!(
        update_version("develop", &rx, &rev, 1, &base),
        Err(VersionError::PatchOverflow)
    ));
}

#[test]
fn error_messages_surface_offending_text() {
    assert_eq!(
        VersionError::UntaggedProductionCommit.message(),
        "Cannot version a production release from a commit without a tag"
    );
    assert_eq!(
        VersionError::NoTagFound(String::from("weird")).message(),
        "No tag found: weird"
    );
    let msg = VersionError::VersionParseError(String::from("myapp-1.0.0")).message();
    assert!(msg.contains("myapp-1.0.0"));
    assert!(msg.contains("--app-name"));
}

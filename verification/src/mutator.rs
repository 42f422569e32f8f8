//! The version mutation policy: how the resolved base version is turned into
//! the final version for each branch class. Production keeps the line version
//! and stamps the commit hash; release candidates gain `rc.<counter>`;
//! develop bumps the patch and gains `beta.<counter>`; every other branch
//! bumps the patch and gains `alpha.<counter>` plus a sanitized branch name in
//! the build metadata.

use vstd::prelude::*;

use crate::errors::{kind_of, ErrorKind, VersionError};
use crate::patterns::{classify_spec, sanitized_trunc, BranchClass, Regexes};
use crate::text::{
    dec_chars, is_digit, is_ident_char, lemma_dec_chars_canon, lemma_first_idx_unique, u64_to_dec,
};
use crate::version::{
    valid_build, valid_build_check, valid_build_segment, valid_pre, valid_pre_segment,
    SemanticVersion, VersionModel,
};

verus! {

/// A prerelease of the shape `<label>.<counter>`.
pub open spec fn pre_tag_chars(label: Seq<char>, counter: nat) -> Seq<char> {
    label + seq!['.'] + dec_chars(counter)
}

/// The build metadata of a feature branch: the sanitized, truncated branch
/// name, a dot, and the commit hash.
pub open spec fn feature_build_chars(branch: Seq<char>, rev: Seq<char>) -> Seq<char> {
    sanitized_trunc(branch) + seq!['.'] + rev
}

/// What the mutation produces for each branch class, or the kind of error it
/// ends with.
pub open spec fn mutate_model(
    app: Option<Seq<char>>,
    branch: Seq<char>,
    rev: Seq<char>,
    counter: nat,
    base: VersionModel,
) -> Result<VersionModel, ErrorKind> {
    match classify_spec(app, branch) {
        BranchClass::Main => if valid_build(rev) {
            Ok(
                VersionModel {
                    major: base.major,
                    minor: base.minor,
                    patch: base.patch,
                    pre: base.pre,
                    build: rev,
                },
            )
        } else {
            Err(ErrorKind::InvalidIdentifier)
        },
        BranchClass::ReleaseCandidate => if valid_build(rev) {
            Ok(
                VersionModel {
                    major: base.major,
                    minor: base.minor,
                    patch: base.patch,
                    pre: pre_tag_chars("rc"@, counter),
                    build: rev,
                },
            )
        } else {
            Err(ErrorKind::InvalidIdentifier)
        },
        BranchClass::Develop => if base.patch + 1 > u64::MAX {
            Err(ErrorKind::PatchOverflow)
        } else if valid_build(rev) {
            Ok(
                VersionModel {
                    major: base.major,
                    minor: base.minor,
                    patch: base.patch + 1,
                    pre: pre_tag_chars("beta"@, counter),
                    build: rev,
                },
            )
        } else {
            Err(ErrorKind::InvalidIdentifier)
        },
        BranchClass::Feature => if base.patch + 1 > u64::MAX {
            Err(ErrorKind::PatchOverflow)
        } else if valid_build(feature_build_chars(branch, rev)) {
            Ok(
                VersionModel {
                    major: base.major,
                    minor: base.minor,
                    patch: base.patch + 1,
                    pre: pre_tag_chars("alpha"@, counter),
                    build: feature_build_chars(branch, rev),
                },
            )
        } else {
            Err(ErrorKind::InvalidIdentifier)
        },
    }
}

/// Splitting a prerelease at a dot that follows a dot-free head: the whole is
/// valid exactly when the head is a valid identifier and the tail is valid.
pub proof fn lemma_valid_pre_split(a: Seq<char>, b: Seq<char>)
    requires
        forall|i: int| 0 <= i < a.len() ==> a[i] != '.',
    ensures
        valid_pre(a + seq!['.'] + b) == (valid_pre_segment(a) && valid_pre(b)),
{
    let s = a + seq!['.'] + b;
    lemma_first_idx_unique(s, '.', a.len() as int);
    assert(s.take(a.len() as int) =~= a);
    assert(s.skip(a.len() as int + 1) =~= b);
}

/// The build-metadata counterpart of `lemma_valid_pre_split`.
pub proof fn lemma_valid_build_split(a: Seq<char>, b: Seq<char>)
    requires
        forall|i: int| 0 <= i < a.len() ==> a[i] != '.',
    ensures
        valid_build(a + seq!['.'] + b) == (valid_build_segment(a) && valid_build(b)),
{
    let s = a + seq!['.'] + b;
    lemma_first_idx_unique(s, '.', a.len() as int);
    assert(s.take(a.len() as int) =~= a);
    assert(s.skip(a.len() as int + 1) =~= b);
}

/// A canonical decimal numeral is a valid prerelease string.
pub proof fn lemma_valid_pre_num(c: nat)
    ensures
        valid_pre(dec_chars(c)),
{
    let s = dec_chars(c);
    lemma_dec_chars_canon(c);
    assert(forall|i: int| 0 <= i < s.len() ==> is_digit(#[trigger] s[i]));
    assert forall|i: int| 0 <= i < s.len() implies s[i] != '.' by {
        assert(is_digit(s[i]));
    }
    lemma_first_idx_unique(s, '.', s.len() as int);
    assert forall|i: int| 0 <= i < s.len() implies is_ident_char(#[trigger] s[i]) by {
        assert(is_digit(s[i]));
    }
    assert(valid_pre_segment(s));
}

/// The three prerelease labels are valid identifiers.
pub proof fn lemma_labels_valid()
    ensures
        valid_pre_segment("rc"@),
        valid_pre_segment("beta"@),
        valid_pre_segment("alpha"@),
        forall|i: int| 0 <= i < "rc"@.len() ==> #[trigger] "rc"@[i] != '.',
        forall|i: int| 0 <= i < "beta"@.len() ==> #[trigger] "beta"@[i] != '.',
        forall|i: int| 0 <= i < "alpha"@.len() ==> #[trigger] "alpha"@[i] != '.',
{
    reveal_strlit("rc");
    reveal_strlit("beta");
    reveal_strlit("alpha");
    assert forall|i: int| 0 <= i < "rc"@.len() implies is_ident_char(#[trigger] "rc"@[i])
        && "rc"@[i] != '.' by {
        if i == 0 {
            assert("rc"@[0] == 'r');
        } else {
            assert("rc"@[1] == 'c');
        }
    }
    assert(!is_digit("rc"@[0]));
    assert forall|i: int| 0 <= i < "beta"@.len() implies is_ident_char(#[trigger] "beta"@[i])
        && "beta"@[i] != '.' by {
        if i == 0 {
            assert("beta"@[0] == 'b');
        } else if i == 1 {
            assert("beta"@[1] == 'e');
        } else if i == 2 {
            assert("beta"@[2] == 't');
        } else {
            assert("beta"@[3] == 'a');
        }
    }
    assert(!is_digit("beta"@[0]));
    assert forall|i: int| 0 <= i < "alpha"@.len() implies is_ident_char(#[trigger] "alpha"@[i])
        && "alpha"@[i] != '.' by {
        if i == 0 {
            assert("alpha"@[0] == 'a');
        } else if i == 1 {
            assert("alpha"@[1] == 'l');
        } else if i == 2 {
            assert("alpha"@[2] == 'p');
        } else if i == 3 {
            assert("alpha"@[3] == 'h');
        } else {
            assert("alpha"@[4] == 'a');
        }
    }
    assert(!is_digit("alpha"@[0]));
}

/// A `<label>.<counter>` prerelease built from a valid, dot-free label is
/// valid.
pub proof fn lemma_pre_tag_valid(label: Seq<char>, counter: nat)
    requires
        valid_pre_segment(label),
        forall|i: int| 0 <= i < label.len() ==> label[i] != '.',
    ensures
        valid_pre(pre_tag_chars(label, counter)),
{
    lemma_valid_pre_num(counter);
    lemma_valid_pre_split(label, dec_chars(counter));
}

/// Builds the `<label>.<counter>` prerelease text.
fn make_pre(label: &str, counter: u32) -> (r: String)
    ensures
        r@ == pre_tag_chars(label@, counter as nat),
{
    proof {
        reveal_strlit(".");
    }
    let mut s = String::from_str(label);
    s.append(".");
    let num = u64_to_dec(counter as u64);
    s.append(num.as_str());
    assert(s@ =~= pre_tag_chars(label@, counter as nat));
    s
}

/// Applies the branch-class mutation policy to the resolved base version.
/// Pure with respect to its inputs; the outcome is `mutate_model`.
pub fn update_version(
    git_branch: &str,
    regexes: &Regexes,
    git_rev: &String,
    counter: u32,
    semver: &SemanticVersion,
) -> (r: Result<SemanticVersion, VersionError>)
    requires
        semver.wf(),
    ensures
        ({
            let outcome = mutate_model(regexes@, git_branch@, git_rev@, counter as nat, semver@);
            &&& (r is Ok <==> outcome is Ok)
            &&& (r matches Ok(v) ==> v@ == outcome->Ok_0 && v.wf())
            &&& (r matches Err(e) ==> kind_of(e) == outcome->Err_0)
            &&& (r matches Err(e) ==> (e matches VersionError::InvalidIdentifier(t) ==> t@ == (
            if classify_spec(regexes@, git_branch@) is Feature {
                feature_build_chars(git_branch@, git_rev@)
            } else {
                git_rev@
            })))
        }),
{
    proof {
        lemma_labels_valid();
    }
    match regexes.classify(git_branch) {
        BranchClass::Main => {
            if valid_build_check(git_rev.as_str()) {
                let v = SemanticVersion {
                    major: semver.major,
                    minor: semver.minor,
                    patch: semver.patch,
                    pre: semver.pre.clone(),
                    build: git_rev.clone(),
                };
                assert(v@ =~= mutate_model(
                    regexes@,
                    git_branch@,
                    git_rev@,
                    counter as nat,
                    semver@,
                )->Ok_0);
                Ok(v)
            } else {
                Err(VersionError::InvalidIdentifier(git_rev.clone()))
            }
        },
        BranchClass::ReleaseCandidate => {
            if valid_build_check(git_rev.as_str()) {
                let pre = make_pre("rc", counter);
                proof {
                    reveal_strlit("rc");
                    lemma_pre_tag_valid("rc"@, counter as nat);
                }
                let v = SemanticVersion {
                    major: semver.major,
                    minor: semver.minor,
                    patch: semver.patch,
                    pre,
                    build: git_rev.clone(),
                };
                assert(v@ =~= mutate_model(
                    regexes@,
                    git_branch@,
                    git_rev@,
                    counter as nat,
                    semver@,
                )->Ok_0);
                Ok(v)
            } else {
                Err(VersionError::InvalidIdentifier(git_rev.clone()))
            }
        },
        BranchClass::Develop => {
            if semver.patch == u64::MAX {
                return Err(VersionError::PatchOverflow);
            }
            if valid_build_check(git_rev.as_str()) {
                let pre = make_pre("beta", counter);
                proof {
                    reveal_strlit("beta");
                    lemma_pre_tag_valid("beta"@, counter as nat);
                }
                let v = SemanticVersion {
                    major: semver.major,
                    minor: semver.minor,
                    patch: semver.patch + 1,
                    pre,
                    build: git_rev.clone(),
                };
                assert(v@ =~= mutate_model(
                    regexes@,
                    git_branch@,
                    git_rev@,
                    counter as nat,
                    semver@,
                )->Ok_0);
                Ok(v)
            } else {
                Err(VersionError::InvalidIdentifier(git_rev.clone()))
            }
        },
        BranchClass::Feature => {
            if semver.patch == u64::MAX {
                return Err(VersionError::PatchOverflow);
            }
            proof {
                reveal_strlit(".");
            }
            let mut build = regexes.sanitize_branch(git_branch);
            build.append(".");
            build.append(git_rev.as_str());
            assert(build@ =~= feature_build_chars(git_branch@, git_rev@));
            if valid_build_check(build.as_str()) {
                let pre = make_pre("alpha", counter);
                proof {
                    reveal_strlit("alpha");
                    lemma_pre_tag_valid("alpha"@, counter as nat);
                }
                let v = SemanticVersion {
                    major: semver.major,
                    minor: semver.minor,
                    patch: semver.patch + 1,
                    pre,
                    build,
                };
                assert(v@ =~= mutate_model(
                    regexes@,
                    git_branch@,
                    git_rev@,
                    counter as nat,
                    semver@,
                )->Ok_0);
                Ok(v)
            } else {
                Err(VersionError::InvalidIdentifier(build))
            }
        },
    }
}

} // verus!

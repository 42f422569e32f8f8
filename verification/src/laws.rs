//! The library's laws: what the classification and mutation policy guarantee
//! for each branch class, the no-tag fallback, counter selection, and the
//! container-tag variant, proved over the specification functions that the
//! executable functions' contracts are stated with.

use vstd::prelude::*;

use crate::errors::ErrorKind;
use crate::mutator::{
    feature_build_chars, lemma_valid_build_split, mutate_model, pre_tag_chars,
};
use crate::output::count_model;
use crate::patterns::{
    is_develop_branch, is_main_branch, is_rc_branch, rc_capture, sanitized, sanitized_trunc,
    tag_capture,
};
use crate::resolver::{
    fallback_tag_chars, resolve_branch_model, resolve_model, resolve_tag_model,
};
use crate::text::{has_prefix, is_ident_char, lemma_first_idx_unique, plus_to_dot};
use crate::version::{parse_model, valid_build, valid_build_segment, VersionModel};

verus! {

/// The base version a brand-new repository resolves to.
pub open spec fn zero_model() -> VersionModel {
    VersionModel { major: 0, minor: 0, patch: 0, pre: Seq::empty(), build: Seq::empty() }
}

/// The fallback tag text parses to version `0.0.0`.
pub proof fn lemma_parse_zero()
    ensures
        parse_model("0.0.0"@) == Some(zero_model()),
{
    reveal_strlit("0.0.0");
    let s = "0.0.0"@;
    assert(s.len() == 5);
    assert(s[0] == '0' && s[1] == '.' && s[2] == '0' && s[3] == '.' && s[4] == '0');
    assert forall|j: int| 0 <= j < 5 implies s[j] != '+' by {}
    lemma_first_idx_unique(s, '+', 5);
    assert(s.take(5) =~= s);
    assert forall|j: int| 0 <= j < 5 implies s[j] != '-' by {}
    lemma_first_idx_unique(s, '-', 5);
    lemma_first_idx_unique(s, '.', 1);
    let major = s.take(1);
    assert(major =~= seq!['0']);
    let rest = s.skip(2);
    assert(rest =~= seq!['0', '.', '0']);
    lemma_first_idx_unique(rest, '.', 1);
    let minor = rest.take(1);
    assert(minor =~= seq!['0']);
    let patch = rest.skip(2);
    assert(patch =~= seq!['0']);
    assert(seq!['0'].drop_last() =~= Seq::<char>::empty());
    assert(crate::text::dec_val(Seq::<char>::empty()) == 0);
    assert(crate::text::dec_val(seq!['0']) == 0);
    assert(crate::text::is_digit(seq!['0'][0]));
    assert(crate::text::is_canon_num(seq!['0']));
    assert(parse_model(s)->0 =~= zero_model());
}

/// Production branch names are never release-candidate branch names.
pub proof fn lemma_main_not_rc(app: Option<Seq<char>>, b: Seq<char>)
    requires
        is_main_branch(b),
    ensures
        !is_rc_branch(app, b),
{
    reveal_strlit("main");
    reveal_strlit("master");
    reveal_strlit("hotfix/");
    reveal_strlit("release/");
    if has_prefix(b, "hotfix/"@) {
        assert(b.take(7)[0] == b[0]);
    }
    if has_prefix(b, "release/"@) {
        assert(b.take(8)[0] == b[0]);
    }
}

/// Develop branch names are neither production nor release-candidate branch
/// names.
pub proof fn lemma_develop_not_main_not_rc(app: Option<Seq<char>>, b: Seq<char>)
    requires
        is_develop_branch(b),
    ensures
        !is_main_branch(b),
        !is_rc_branch(app, b),
{
    reveal_strlit("develop");
    reveal_strlit("dev");
    reveal_strlit("main");
    reveal_strlit("master");
    reveal_strlit("hotfix/");
    reveal_strlit("release/");
    if has_prefix(b, "hotfix/"@) {
        assert(b.take(7)[0] == b[0]);
    }
    if has_prefix(b, "release/"@) {
        assert(b.take(8)[0] == b[0]);
    }
}

/// On a production branch the final version keeps the base's components,
/// carries no prerelease (the base being the clean line version), and stamps
/// the commit hash as build metadata; and whenever the exact-match tag
/// differs from the resolved tag, resolution fails with
/// `UntaggedProductionCommit`.
pub proof fn lemma_main_branch_policy(
    app: Option<Seq<char>>,
    branch: Seq<char>,
    rev: Seq<char>,
    counter: nat,
    base: VersionModel,
    tag: Seq<char>,
    exact: Seq<char>,
)
    requires
        is_main_branch(branch),
        base.pre.len() == 0,
    ensures
        valid_build(rev) ==> (mutate_model(app, branch, rev, counter, base) matches Ok(m)
            && m.pre.len() == 0 && m.build == rev && m.major == base.major && m.minor
            == base.minor && m.patch == base.patch),
        exact != tag ==> resolve_tag_model(app, tag, Some(exact)) == Err::<
            VersionModel,
            ErrorKind,
        >(ErrorKind::UntaggedProductionCommit),
{
}

/// On a release-candidate branch the tag state is irrelevant: resolution
/// depends on the branch name alone, the base is the version captured from
/// the branch name, and the final version keeps its components, with
/// prerelease `rc.<counter>` and the commit hash as build metadata.
pub proof fn lemma_release_candidate_policy(
    app: Option<Seq<char>>,
    branch: Seq<char>,
    rev: Seq<char>,
    counter: nat,
    latest1: Option<Seq<char>>,
    exact1: Option<Seq<char>>,
    latest2: Option<Seq<char>>,
    exact2: Option<Seq<char>>,
)
    requires
        is_rc_branch(app, branch),
        valid_build(rev),
    ensures
        resolve_model(app, branch, latest1, exact1) == resolve_model(app, branch, latest2, exact2),
        resolve_model(app, branch, latest1, exact1) == resolve_branch_model(app, branch),
        resolve_branch_model(app, branch) matches Ok(base) ==> parse_model(
            rc_capture(app, branch)->0,
        ) == Some(base),
        resolve_branch_model(app, branch) matches Ok(base) ==> (mutate_model(
            app,
            branch,
            rev,
            counter,
            base,
        ) matches Ok(m) && m.major == base.major && m.minor == base.minor && m.patch == base.patch
            && m.pre == pre_tag_chars("rc"@, counter) && m.build == rev),
{
    lemma_main_not_rc_converse(app, branch);
}

/// A release-candidate branch is never a production branch.
proof fn lemma_main_not_rc_converse(app: Option<Seq<char>>, b: Seq<char>)
    requires
        is_rc_branch(app, b),
    ensures
        !is_main_branch(b),
{
    if is_main_branch(b) {
        lemma_main_not_rc(app, b);
    }
}

/// On a develop branch, base `X.Y.Z` becomes `X.Y.(Z+1)-beta.<counter>+<hash>`.
pub proof fn lemma_develop_policy(
    app: Option<Seq<char>>,
    branch: Seq<char>,
    rev: Seq<char>,
    counter: nat,
    base: VersionModel,
)
    requires
        is_develop_branch(branch),
        base.patch < u64::MAX,
        valid_build(rev),
    ensures
        mutate_model(app, branch, rev, counter, base) matches Ok(m) && m.major == base.major
            && m.minor == base.minor && m.patch == base.patch + 1 && m.pre == pre_tag_chars(
            "beta"@,
            counter,
        ) && m.build == rev,
{
    lemma_develop_not_main_not_rc(app, branch);
}

/// On every other (feature) branch, base `X.Y.Z` becomes
/// `X.Y.(Z+1)-alpha.<counter>+<sanitized-branch>.<hash>`, the sanitized
/// branch name truncated to fifty characters. An empty branch name is
/// excluded: it sanitizes to an empty identifier, which the grammar rejects.
pub proof fn lemma_feature_policy(
    app: Option<Seq<char>>,
    branch: Seq<char>,
    rev: Seq<char>,
    counter: nat,
    base: VersionModel,
)
    requires
        !is_main_branch(branch),
        !is_rc_branch(app, branch),
        !is_develop_branch(branch),
        branch.len() > 0,
        base.patch < u64::MAX,
        valid_build(rev),
    ensures
        mutate_model(app, branch, rev, counter, base) matches Ok(m) && m.major == base.major
            && m.minor == base.minor && m.patch == base.patch + 1 && m.pre == pre_tag_chars(
            "alpha"@,
            counter,
        ) && m.build == feature_build_chars(branch, rev),
{
    let san = sanitized_trunc(branch);
    assert forall|i: int| 0 <= i < san.len() implies is_ident_char(#[trigger] san[i])
        && san[i] != '.' by {
        assert(sanitized(branch)[i] == san[i]);
        assert(is_ident_char('-'));
    }
    assert(san.len() > 0);
    assert(valid_build_segment(san));
    lemma_valid_build_split(san, rev);
}

/// When the latest-tag lookup fails on a non-production, non-release branch,
/// the base version resolves to `0.0.0` without error, whatever the
/// application scope.
pub proof fn lemma_no_tag_fallback(
    app: Option<Seq<char>>,
    branch: Seq<char>,
    exact: Option<Seq<char>>,
)
    requires
        !is_rc_branch(app, branch),
        !is_main_branch(branch),
    ensures
        resolve_model(app, branch, None, exact) == Ok::<VersionModel, ErrorKind>(zero_model()),
{
    lemma_fallback_tag_resolves_zero(app, None);
}

/// When the latest-tag lookup fails on a production branch whose exact-match
/// tag equals the fallback tag, the base version also resolves to `0.0.0`.
pub proof fn lemma_no_tag_fallback_main(app: Option<Seq<char>>, branch: Seq<char>)
    requires
        is_main_branch(branch),
    ensures
        resolve_model(app, branch, None, Some(fallback_tag_chars(app))) == Ok::<
            VersionModel,
            ErrorKind,
        >(zero_model()),
{
    lemma_main_not_rc(app, branch);
    lemma_fallback_tag_resolves_zero(app, Some(fallback_tag_chars(app)));
}

/// Resolving the fallback tag yields version `0.0.0`, with or without an
/// exact-match check against that same tag.
pub proof fn lemma_fallback_tag_resolves_zero(app: Option<Seq<char>>, exact: Option<Seq<char>>)
    requires
        exact matches Some(e) ==> e == fallback_tag_chars(app),
    ensures
        resolve_tag_model(app, fallback_tag_chars(app), exact) == Ok::<
            VersionModel,
            ErrorKind,
        >(zero_model()),
{
    lemma_parse_zero();
    reveal_strlit("0.0.0");
    reveal_strlit("-0.0.0");
    let tag = fallback_tag_chars(app);
    match app {
        None => {
            assert(tag.len() == 5);
            assert(tag_capture(None, tag) == Some(tag));
        },
        Some(a) => {
            let prefix = a + seq!['-'];
            assert(tag.take(prefix.len() as int) =~= prefix);
            assert(has_prefix(tag, prefix));
            assert(tag.len() == a.len() + 6 > prefix.len());
            let cap = tag.skip(prefix.len() as int);
            assert(cap =~= "0.0.0"@);
            assert(tag_capture(app, tag) == Some("0.0.0"@));
        },
    }
}

/// The explicit build number always wins over the revision count.
pub proof fn lemma_build_number_wins(n: u32, rev_count1: Seq<char>, rev_count2: Seq<char>)
    ensures
        count_model(Some(n), rev_count1) == Ok::<nat, ErrorKind>(n as nat),
        count_model(Some(n), rev_count1) == count_model(Some(n), rev_count2),
{
}

/// The container tag is the version text with every `+` replaced by `.`, and
/// so never contains `+`.
pub proof fn lemma_container_tag_safe(s: Seq<char>)
    ensures
        plus_to_dot(s).len() == s.len(),
        forall|i: int| 0 <= i < s.len() ==> plus_to_dot(s)[i] == (if s[i] == '+' {
            '.'
        } else {
            s[i]
        }),
        forall|i: int| 0 <= i < plus_to_dot(s).len() ==> plus_to_dot(s)[i] != '+',
{
}

} // verus!

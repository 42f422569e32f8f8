//! The classification pattern set: which branch names are production, release
//! candidate, or develop branches, how a version substring is captured from a
//! release branch or a tag, and how a branch name is made safe for build
//! metadata. All matching is literal; the optional application name scopes
//! tags and release branches.

use vstd::prelude::*;

use crate::errors::VersionError;
use crate::text::{has_prefix, is_ident_char, starts_with, str_eq};

verus! {

/// The compiled pattern set for one invocation, derived entirely from the
/// optional application name and immutable once built.
pub struct Regexes {
    pub app_name: Option<String>,
}

/// The view of an optional application name.
pub open spec fn app_view(app_name: Option<String>) -> Option<Seq<char>> {
    match app_name {
        Some(a) => Some(a@),
        None => None,
    }
}

impl View for Regexes {
    type V = Option<Seq<char>>;

    open spec fn view(&self) -> Option<Seq<char>> {
        app_view(self.app_name)
    }
}

/// The closed branch classification, in precedence order.
#[derive(Debug, Clone, Copy, PartialEq, Eq, Structural)]
pub enum BranchClass {
    Main,
    ReleaseCandidate,
    Develop,
    Feature,
}

/// A production branch: exactly `main` or `master`.
pub open spec fn is_main_branch(b: Seq<char>) -> bool {
    b == "main"@ || b == "master"@
}

/// A develop branch: exactly `develop` or `dev`.
pub open spec fn is_develop_branch(b: Seq<char>) -> bool {
    b == "develop"@ || b == "dev"@
}

/// The version substring captured from a release-candidate branch: the
/// non-empty remainder after `hotfix/` or `release/` and, when an application
/// name is set, after `<app>-`.
pub open spec fn rc_capture(app: Option<Seq<char>>, b: Seq<char>) -> Option<Seq<char>> {
    let rest = if has_prefix(b, "hotfix/"@) {
        Some(b.skip("hotfix/"@.len() as int))
    } else if has_prefix(b, "release/"@) {
        Some(b.skip("release/"@.len() as int))
    } else {
        None
    };
    match rest {
        None => None,
        Some(r) => match app {
            None => if r.len() > 0 {
                Some(r)
            } else {
                None
            },
            Some(a) => {
                let prefix = a + seq!['-'];
                if has_prefix(r, prefix) && r.len() > prefix.len() {
                    Some(r.skip(prefix.len() as int))
                } else {
                    None
                }
            },
        },
    }
}

/// A release-candidate branch: `hotfix/` or `release/` with a captured
/// version.
pub open spec fn is_rc_branch(app: Option<Seq<char>>, b: Seq<char>) -> bool {
    rc_capture(app, b) is Some
}

/// The version substring captured from a tag: the whole non-empty tag when no
/// application name is set, else the non-empty remainder after `<app>-`.
pub open spec fn tag_capture(app: Option<Seq<char>>, t: Seq<char>) -> Option<Seq<char>> {
    match app {
        None => if t.len() > 0 {
            Some(t)
        } else {
            None
        },
        Some(a) => {
            let prefix = a + seq!['-'];
            if has_prefix(t, prefix) && t.len() > prefix.len() {
                Some(t.skip(prefix.len() as int))
            } else {
                None
            }
        },
    }
}

/// The branch class, tested in the authoritative precedence order: main,
/// release candidate, develop, feature.
pub open spec fn classify_spec(app: Option<Seq<char>>, b: Seq<char>) -> BranchClass {
    if is_main_branch(b) {
        BranchClass::Main
    } else if is_rc_branch(app, b) {
        BranchClass::ReleaseCandidate
    } else if is_develop_branch(b) {
        BranchClass::Develop
    } else {
        BranchClass::Feature
    }
}

/// A branch name with every character outside `[a-zA-Z0-9-]` replaced by `-`.
pub open spec fn sanitized(b: Seq<char>) -> Seq<char> {
    b.map(|i: int, c: char| if is_ident_char(c) {
        c
    } else {
        '-'
    })
}

/// The sanitized branch name, truncated to fifty characters.
pub open spec fn sanitized_trunc(b: Seq<char>) -> Seq<char> {
    if sanitized(b).len() > 50 {
        sanitized(b).take(50)
    } else {
        sanitized(b)
    }
}

impl Regexes {
    /// Builds the pattern set for the given application name. Matching is
    /// literal, so building always succeeds.
    pub fn new(app_name: &Option<String>) -> (r: Result<Regexes, VersionError>)
        ensures
            r is Ok,
            r->Ok_0@ == app_view(*app_name),
    {
        let app = match app_name {
            Some(a) => Some(a.clone()),
            None => None,
        };
        Ok(Regexes { app_name: app })
    }

    /// Decides whether `b` is a production branch.
    pub fn main_branch_check(&self, b: &str) -> (r: bool)
        ensures
            r == is_main_branch(b@),
    {
        str_eq(b, "main") || str_eq(b, "master")
    }

    /// Decides whether `b` is a develop branch.
    pub fn develop_branch_check(&self, b: &str) -> (r: bool)
        ensures
            r == is_develop_branch(b@),
    {
        str_eq(b, "develop") || str_eq(b, "dev")
    }

    /// Captures the version substring from a release-candidate branch.
    pub fn rc_capture_exec(&self, b: &str) -> (r: Option<String>)
        ensures
            r is Some <==> rc_capture(self@, b@) is Some,
            r matches Some(cap) ==> cap@ == rc_capture(self@, b@)->0,
    {
        let len = b.unicode_len();
        let rest = if starts_with(b, "hotfix/") {
            proof {
                reveal_strlit("hotfix/");
            }
            b.substring_char(7, len)
        } else if starts_with(b, "release/") {
            proof {
                reveal_strlit("release/");
            }
            b.substring_char(8, len)
        } else {
            return None;
        };
        assert(rest@ =~= b@.skip(
            if has_prefix(b@, "hotfix/"@) {
                "hotfix/"@.len() as int
            } else {
                "release/"@.len() as int
            },
        ));
        self.scoped_capture(rest)
    }

    /// Captures the version substring from a tag.
    pub fn tag_capture_exec(&self, t: &str) -> (r: Option<String>)
        ensures
            r is Some <==> tag_capture(self@, t@) is Some,
            r matches Some(cap) ==> cap@ == tag_capture(self@, t@)->0,
    {
        self.scoped_capture(t)
    }

    /// The shared scoping step: the whole non-empty text when no application
    /// name is set, else the non-empty remainder after `<app>-`.
    fn scoped_capture(&self, rest: &str) -> (r: Option<String>)
        ensures
            r is Some <==> tag_capture(self@, rest@) is Some,
            r matches Some(cap) ==> cap@ == tag_capture(self@, rest@)->0,
    {
        let len = rest.unicode_len();
        match &self.app_name {
            None => {
                if len > 0 {
                    Some(String::from_str(rest))
                } else {
                    None
                }
            },
            Some(a) => {
                let prefix = a.clone().concat("-");
                proof {
                    reveal_strlit("-");
                    assert(prefix@ =~= a@ + seq!['-']);
                }
                let plen = prefix.as_str().unicode_len();
                if starts_with(rest, prefix.as_str()) && len > plen {
                    let cap = rest.substring_char(plen, len);
                    assert(cap@ =~= rest@.skip(prefix@.len() as int));
                    Some(String::from_str(cap))
                } else {
                    None
                }
            },
        }
    }

    /// Classifies a branch name, in precedence order.
    pub fn classify(&self, b: &str) -> (r: BranchClass)
        ensures
            r == classify_spec(self@, b@),
    {
        if self.main_branch_check(b) {
            BranchClass::Main
        } else if self.rc_capture_exec(b).is_some() {
            BranchClass::ReleaseCandidate
        } else if self.develop_branch_check(b) {
            BranchClass::Develop
        } else {
            BranchClass::Feature
        }
    }

    /// Replaces every unsafe character of a branch name with `-` and
    /// truncates the result to fifty characters.
    pub fn sanitize_branch(&self, b: &str) -> (r: String)
        ensures
            r@ == sanitized_trunc(b@),
    {
        let len = b.unicode_len();
        let bound = if len > 50 {
            50
        } else {
            len
        };
        let mut out = String::new();
        let mut i: usize = 0;
        while i < bound
            invariant
                len == b@.len(),
                bound <= len,
                bound <= 50,
                len > 50 ==> bound == 50,
                len <= 50 ==> bound == len,
                i <= bound,
                out@ == sanitized(b@.take(i as int)),
            decreases bound - i,
        {
            let c = b.get_char(i);
            if crate::text::ident_char_check(c) {
                let piece = b.substring_char(i, i + 1);
                out.append(piece);
            } else {
                out.append("-");
                proof {
                    reveal_strlit("-");
                }
            }
            assert(out@ =~= sanitized(b@.take(i as int + 1)));
            i += 1;
        }
        proof {
            if len <= 50 {
                assert(b@.take(bound as int) =~= b@);
            } else {
                assert(sanitized(b@.take(50)) =~= sanitized(b@).take(50));
            }
        }
        out
    }
}

} // verus!

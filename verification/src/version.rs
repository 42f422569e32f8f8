//! The semantic-version grammar: `major.minor.patch[-prerelease][+build]`,
//! where prerelease and build are dot-separated, non-empty identifiers of
//! ASCII alphanumerics and hyphens, numerals carry no leading zeros, and the
//! three numeric components fit in 64 bits.

use vstd::prelude::*;

use crate::text::{
    all_digits, dec_chars, dec_val, digit_check, find_char, first_idx, is_canon_num, is_digit,
    is_ident_char, lemma_first_idx, parse_u64_digits, u64_to_dec,
};

verus! {

/// A parsed semantic version. An empty `pre` or `build` means the segment is
/// absent.
pub struct SemanticVersion {
    pub major: u64,
    pub minor: u64,
    pub patch: u64,
    pub pre: String,
    pub build: String,
}

/// The mathematical model of a semantic version.
#[verifier::ext_equal]
pub struct VersionModel {
    pub major: nat,
    pub minor: nat,
    pub patch: nat,
    pub pre: Seq<char>,
    pub build: Seq<char>,
}

impl View for SemanticVersion {
    type V = VersionModel;

    open spec fn view(&self) -> VersionModel {
        VersionModel {
            major: self.major as nat,
            minor: self.minor as nat,
            patch: self.patch as nat,
            pre: self.pre@,
            build: self.build@,
        }
    }
}

/// A single prerelease identifier: non-empty, alphanumeric/hyphen, and, when
/// purely numeric, free of leading zeros.
pub open spec fn valid_pre_segment(seg: Seq<char>) -> bool {
    &&& seg.len() > 0
    &&& forall|i: int| 0 <= i < seg.len() ==> is_ident_char(#[trigger] seg[i])
    &&& (all_digits(seg) ==> (seg.len() == 1 || seg[0] != '0'))
}

/// A single build-metadata identifier: non-empty, alphanumeric/hyphen.
pub open spec fn valid_build_segment(seg: Seq<char>) -> bool {
    &&& seg.len() > 0
    &&& forall|i: int| 0 <= i < seg.len() ==> is_ident_char(#[trigger] seg[i])
}

/// A valid prerelease string: dot-separated valid prerelease identifiers.
pub open spec fn valid_pre(s: Seq<char>) -> bool
    decreases s.len(),
{
    let d = first_idx(s, '.');
    if 0 <= d && d < s.len() {
        valid_pre_segment(s.take(d)) && valid_pre(s.skip(d + 1))
    } else {
        valid_pre_segment(s)
    }
}

/// A valid build-metadata string: dot-separated valid build identifiers.
pub open spec fn valid_build(s: Seq<char>) -> bool
    decreases s.len(),
{
    let d = first_idx(s, '.');
    if 0 <= d && d < s.len() {
        valid_build_segment(s.take(d)) && valid_build(s.skip(d + 1))
    } else {
        valid_build_segment(s)
    }
}

impl VersionModel {
    /// Well-formedness: components representable, and present prerelease and
    /// build strings valid under the identifier grammar.
    pub open spec fn wf(self) -> bool {
        &&& self.major <= u64::MAX
        &&& self.minor <= u64::MAX
        &&& self.patch <= u64::MAX
        &&& (self.pre.len() > 0 ==> valid_pre(self.pre))
        &&& (self.build.len() > 0 ==> valid_build(self.build))
    }
}

/// The canonical text of a version: `major.minor.patch`, then `-pre` when a
/// prerelease is present, then `+build` when build metadata is present.
pub open spec fn version_chars(m: VersionModel) -> Seq<char> {
    dec_chars(m.major) + seq!['.'] + dec_chars(m.minor) + seq!['.'] + dec_chars(m.patch) + (
    if m.pre.len() > 0 {
        seq!['-'] + m.pre
    } else {
        Seq::<char>::empty()
    }) + (if m.build.len() > 0 {
        seq!['+'] + m.build
    } else {
        Seq::<char>::empty()
    })
}

/// The version denoted by a string, if any. The build metadata follows the
/// first `+`; before it, the prerelease follows the first `-`; what remains
/// must be three canonical numerals separated by dots.
pub open spec fn parse_model(s: Seq<char>) -> Option<VersionModel> {
    let plus = first_idx(s, '+');
    let has_build = 0 <= plus && plus < s.len();
    let core = s.take(plus);
    let build = if has_build {
        s.skip(plus + 1)
    } else {
        Seq::<char>::empty()
    };
    let dash = first_idx(core, '-');
    let has_pre = 0 <= dash && dash < core.len();
    let nums = core.take(dash);
    let pre = if has_pre {
        core.skip(dash + 1)
    } else {
        Seq::<char>::empty()
    };
    let d1 = first_idx(nums, '.');
    if !(0 <= d1 && d1 < nums.len()) {
        None
    } else {
        let major = nums.take(d1);
        let rest = nums.skip(d1 + 1);
        let d2 = first_idx(rest, '.');
        if !(0 <= d2 && d2 < rest.len()) {
            None
        } else {
            let minor = rest.take(d2);
            let patch = rest.skip(d2 + 1);
            if is_canon_num(major) && dec_val(major) <= u64::MAX && is_canon_num(minor)
                && dec_val(minor) <= u64::MAX && is_canon_num(patch) && dec_val(patch) <= u64::MAX
                && (has_pre ==> valid_pre(pre)) && (has_build ==> valid_build(build)) {
                Some(
                    VersionModel {
                        major: dec_val(major),
                        minor: dec_val(minor),
                        patch: dec_val(patch),
                        pre,
                        build,
                    },
                )
            } else {
                None
            }
        }
    }
}

/// Checks one prerelease identifier.
fn valid_pre_segment_check(s: &str) -> (r: bool)
    ensures
        r == valid_pre_segment(s@),
{
    let len = s.unicode_len();
    if len == 0 {
        return false;
    }
    let mut i: usize = 0;
    let mut digits_only = true;
    while i < len
        invariant
            len == s@.len(),
            i <= len,
            forall|j: int| 0 <= j < i ==> is_ident_char(#[trigger] s@[j]),
            digits_only == (forall|j: int| 0 <= j < i ==> is_digit(#[trigger] s@[j])),
        decreases len - i,
    {
        let c = s.get_char(i);
        if !crate::text::ident_char_check(c) {
            assert(!is_ident_char(s@[i as int]));
            return false;
        }
        if !digit_check(c) {
            digits_only = false;
            assert(!is_digit(s@[i as int]));
        }
        i += 1;
    }
    if digits_only && len > 1 && s.get_char(0) == '0' {
        return false;
    }
    true
}

/// Checks one build identifier.
fn valid_build_segment_check(s: &str) -> (r: bool)
    ensures
        r == valid_build_segment(s@),
{
    let len = s.unicode_len();
    if len == 0 {
        return false;
    }
    let mut i: usize = 0;
    while i < len
        invariant
            len == s@.len(),
            i <= len,
            forall|j: int| 0 <= j < i ==> is_ident_char(#[trigger] s@[j]),
        decreases len - i,
    {
        if !crate::text::ident_char_check(s.get_char(i)) {
            assert(!is_ident_char(s@[i as int]));
            return false;
        }
        i += 1;
    }
    true
}

/// Checks a whole prerelease string, segment by segment.
pub fn valid_pre_check(s: &str) -> (r: bool)
    ensures
        r == valid_pre(s@),
    decreases s@.len(),
{
    let len = s.unicode_len();
    let d = find_char(s, '.');
    proof {
        lemma_first_idx(s@, '.');
    }
    if d < len {
        let seg = s.substring_char(0, d);
        let rest = s.substring_char(d + 1, len);
        assert(seg@ =~= s@.take(d as int));
        assert(rest@ =~= s@.skip(d as int + 1));
        let seg_ok = valid_pre_segment_check(seg);
        seg_ok && valid_pre_check(rest)
    } else {
        valid_pre_segment_check(s)
    }
}

/// Checks a whole build-metadata string, segment by segment.
pub fn valid_build_check(s: &str) -> (r: bool)
    ensures
        r == valid_build(s@),
    decreases s@.len(),
{
    let len = s.unicode_len();
    let d = find_char(s, '.');
    proof {
        lemma_first_idx(s@, '.');
    }
    if d < len {
        let seg = s.substring_char(0, d);
        let rest = s.substring_char(d + 1, len);
        assert(seg@ =~= s@.take(d as int));
        assert(rest@ =~= s@.skip(d as int + 1));
        let seg_ok = valid_build_segment_check(seg);
        seg_ok && valid_build_check(rest)
    } else {
        valid_build_segment_check(s)
    }
}

/// Parses a canonical numeral that fits in 64 bits.
fn parse_canon_u64(s: &str) -> (r: Option<u64>)
    ensures
        r is Some <==> (is_canon_num(s@) && dec_val(s@) <= u64::MAX),
        r is Some ==> r->0 as nat == dec_val(s@),
{
    let len = s.unicode_len();
    if len > 1 && s.get_char(0) == '0' {
        return None;
    }
    parse_u64_digits(s)
}

impl SemanticVersion {
    /// Well-formedness of the executable value, through its model.
    pub open spec fn wf(self) -> bool {
        self@.wf()
    }

    /// Parses a version string; `None` exactly when the string does not
    /// belong to the version grammar.
    pub fn parse(s: &str) -> (r: Option<SemanticVersion>)
        ensures
            r is Some <==> parse_model(s@) is Some,
            r matches Some(v) ==> v@ == parse_model(s@)->0 && v.wf(),
    {
        let len = s.unicode_len();
        let plus = find_char(s, '+');
        proof {
            lemma_first_idx(s@, '+');
        }
        let core = s.substring_char(0, plus);
        assert(core@ =~= s@.take(plus as int));
        let has_build = plus < len;
        let build = if has_build {
            let b = s.substring_char(plus + 1, len);
            assert(b@ =~= s@.skip(plus as int + 1));
            String::from_str(b)
        } else {
            String::new()
        };
        let core_len = core.unicode_len();
        let dash = find_char(core, '-');
        proof {
            lemma_first_idx(core@, '-');
        }
        let nums = core.substring_char(0, dash);
        assert(nums@ =~= core@.take(dash as int));
        let has_pre = dash < core_len;
        let pre = if has_pre {
            let p = core.substring_char(dash + 1, core_len);
            assert(p@ =~= core@.skip(dash as int + 1));
            String::from_str(p)
        } else {
            String::new()
        };
        let nums_len = nums.unicode_len();
        let d1 = find_char(nums, '.');
        proof {
            lemma_first_idx(nums@, '.');
        }
        if d1 >= nums_len {
            return None;
        }
        let major_str = nums.substring_char(0, d1);
        assert(major_str@ =~= nums@.take(d1 as int));
        let rest = nums.substring_char(d1 + 1, nums_len);
        assert(rest@ =~= nums@.skip(d1 as int + 1));
        let rest_len = rest.unicode_len();
        let d2 = find_char(rest, '.');
        proof {
            lemma_first_idx(rest@, '.');
        }
        if d2 >= rest_len {
            return None;
        }
        let minor_str = rest.substring_char(0, d2);
        assert(minor_str@ =~= rest@.take(d2 as int));
        let patch_str = rest.substring_char(d2 + 1, rest_len);
        assert(patch_str@ =~= rest@.skip(d2 as int + 1));
        let major = match parse_canon_u64(major_str) {
            Some(v) => v,
            None => {
                return None;
            },
        };
        let minor = match parse_canon_u64(minor_str) {
            Some(v) => v,
            None => {
                return None;
            },
        };
        let patch = match parse_canon_u64(patch_str) {
            Some(v) => v,
            None => {
                return None;
            },
        };
        if has_pre && !valid_pre_check(pre.as_str()) {
            return None;
        }
        if has_build && !valid_build_check(build.as_str()) {
            return None;
        }
        let v = SemanticVersion { major, minor, patch, pre, build };
        assert(v@ =~= parse_model(s@)->0);
        Some(v)
    }

    /// Renders the version in its canonical text.
    pub fn render(&self) -> (r: String)
        ensures
            r@ == version_chars(self@),
    {
        proof {
            reveal_strlit(".");
            reveal_strlit("-");
            reveal_strlit("+");
        }
        let mut out = u64_to_dec(self.major);
        out.append(".");
        let minor = u64_to_dec(self.minor);
        out.append(minor.as_str());
        out.append(".");
        let patch = u64_to_dec(self.patch);
        out.append(patch.as_str());
        if self.pre.unicode_len() > 0 {
            out.append("-");
            out.append(self.pre.as_str());
        }
        if self.build.unicode_len() > 0 {
            out.append("+");
            out.append(self.build.as_str());
        }
        assert(out@ =~= version_chars(self@));
        out
    }
}

} // verus!

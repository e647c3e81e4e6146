//! Version constraints: parsing, comparison and matching of version strings.
use vstd::prelude::*;

use crate::text::{
    chars_eq, chars_of, find, find_exec, is_ws, parse_u32, parse_u32_exec, split, split_chars, starts_with,
    string_of, sub_chars, trim, trim_chars, vec_views,
};

verus! {

/// Version constraint for dependency matching.
#[derive(Debug, Clone, PartialEq, Eq)]
pub enum VersionConstraint {
    /// Any version.
    Any,
    /// Exact version.
    Exact(String),
    /// Minimum version (>=).
    AtLeast(String),
    /// Maximum version (<=).
    AtMost(String),
    /// Version range.
    Range { min: String, max: String },
    /// Semantic version compatible (~).
    Compatible(String),
    /// Caret version (^).
    Caret(String),
}

/// The meaning of a version constraint, over the text of its versions.
pub enum ConstraintSpec {
    Any,
    Exact(Seq<char>),
    AtLeast(Seq<char>),
    AtMost(Seq<char>),
    Range(Seq<char>, Seq<char>),
    Compatible(Seq<char>),
    Caret(Seq<char>),
}

impl View for VersionConstraint {
    type V = ConstraintSpec;

    open spec fn view(&self) -> ConstraintSpec {
        match self {
            VersionConstraint::Any => ConstraintSpec::Any,
            VersionConstraint::Exact(v) => ConstraintSpec::Exact(v@),
            VersionConstraint::AtLeast(v) => ConstraintSpec::AtLeast(v@),
            VersionConstraint::AtMost(v) => ConstraintSpec::AtMost(v@),
            VersionConstraint::Range { min, max } => ConstraintSpec::Range(min@, max@),
            VersionConstraint::Compatible(v) => ConstraintSpec::Compatible(v@),
            VersionConstraint::Caret(v) => ConstraintSpec::Caret(v@),
        }
    }
}

impl Default for VersionConstraint {
    fn default() -> (r: Self)
        ensures
            r@ == ConstraintSpec::Any,
    {
        VersionConstraint::Any
    }
}

/// The constraint that a constraint string denotes: after trimming, empty or
/// `*` is any version; a `>=`, `<=`, `~`, `^` or `=` prefix (checked in that
/// order) gives the trimmed rest; otherwise `min..max` is a range, and anything
/// else an exact version.
pub open spec fn parse_constraint(s: Seq<char>) -> ConstraintSpec {
    let t = trim(s);
    if t.len() == 0 || t == "*"@ {
        ConstraintSpec::Any
    } else if ">="@.is_prefix_of(t) {
        ConstraintSpec::AtLeast(trim(t.skip(2)))
    } else if "<="@.is_prefix_of(t) {
        ConstraintSpec::AtMost(trim(t.skip(2)))
    } else if t[0] == '~' {
        ConstraintSpec::Compatible(trim(t.skip(1)))
    } else if t[0] == '^' {
        ConstraintSpec::Caret(trim(t.skip(1)))
    } else if t[0] == '=' {
        ConstraintSpec::Exact(trim(t.skip(1)))
    } else {
        match find(t, ".."@) {
            Some(i) => ConstraintSpec::Range(trim(t.take(i)), trim(t.skip(i + 2))),
            None => ConstraintSpec::Exact(t),
        }
    }
}

/// The text has no whitespace at either end.
pub open spec fn unpadded(v: Seq<char>) -> bool {
    v.len() > 0 ==> !is_ws(v[0]) && !is_ws(v.last())
}

/// An operator without whitespace at its ends before an unpadded version
/// is already trimmed, and so is the version.
proof fn lemma_operator_trimmed(op: Seq<char>, v: Seq<char>)
    requires
        op.len() > 0,
        !is_ws(op[0]),
        !is_ws(op.last()),
        unpadded(v),
    ensures
        trim(op + v) == op + v,
        trim(v) == v,
        (op + v).skip(op.len() as int) == v,
{
    let t = op + v;
    assert(t[0] == op[0]);
    if v.len() > 0 {
        assert(t.last() == v.last());
    } else {
        assert(t.last() == op.last());
    }
    assert(t.skip(0) =~= t);
    assert(t.take(t.len() as int) =~= t);
    assert(v.skip(0) =~= v);
    assert(v.take(v.len() as int) =~= v);
    assert(t.skip(op.len() as int) =~= v);
}

/// Law: a constraint written as an operator before a version keeps exactly
/// that version: `>=v` is at least v, `<=v` at most v, `~v` compatible with
/// v, `^v` caret v and `=v` exactly v, for any version v without whitespace
/// at its ends. So `>=v` matches exactly the versions that compare at or
/// above v, and `<=v` those at or below it.
pub proof fn law_operator_keeps_version(v: Seq<char>, x: Seq<char>)
    requires
        unpadded(v),
    ensures
        parse_constraint(seq!['>', '='] + v) == ConstraintSpec::AtLeast(v),
        parse_constraint(seq!['<', '='] + v) == ConstraintSpec::AtMost(v),
        parse_constraint(seq!['~'] + v) == ConstraintSpec::Compatible(v),
        parse_constraint(seq!['^'] + v) == ConstraintSpec::Caret(v),
        parse_constraint(seq!['='] + v) == ConstraintSpec::Exact(v),
        constraint_matches(parse_constraint(seq!['>', '='] + v), x) <==> compare_versions_spec(x, v) >= 0,
        constraint_matches(parse_constraint(seq!['<', '='] + v), x) <==> compare_versions_spec(x, v) <= 0,
{
    reveal_strlit(">=");
    reveal_strlit("<=");
    reveal_strlit("*");
    lemma_operator_trimmed(seq!['>', '='], v);
    lemma_operator_trimmed(seq!['<', '='], v);
    lemma_operator_trimmed(seq!['~'], v);
    lemma_operator_trimmed(seq!['^'], v);
    lemma_operator_trimmed(seq!['='], v);
    assert(">="@.is_prefix_of(seq!['>', '='] + v));
    assert(!">="@.is_prefix_of(seq!['<', '='] + v));
    assert("<="@.is_prefix_of(seq!['<', '='] + v));
    assert(!">="@.is_prefix_of(seq!['~'] + v));
    assert(!"<="@.is_prefix_of(seq!['~'] + v));
    assert(!">="@.is_prefix_of(seq!['^'] + v));
    assert(!"<="@.is_prefix_of(seq!['^'] + v));
    assert(!">="@.is_prefix_of(seq!['='] + v));
    assert(!"<="@.is_prefix_of(seq!['='] + v));
    assert((seq!['>', '='] + v) != "*"@);
    assert((seq!['<', '='] + v) != "*"@);
    assert((seq!['~'] + v) != "*"@);
    assert((seq!['^'] + v) != "*"@);
    assert((seq!['='] + v) != "*"@);
}

/// The numeric parts of a version: the dot-separated pieces that parse as
/// `u32`, in order; the others are dropped.
pub open spec fn numeric_parts(pieces: Seq<Seq<char>>) -> Seq<u32>
    decreases pieces.len(),
{
    if pieces.len() == 0 {
        Seq::empty()
    } else {
        let rest = numeric_parts(pieces.drop_last());
        match parse_u32(pieces.last()) {
            Some(n) => rest.push(n),
            None => rest,
        }
    }
}

/// The numeric parts of a version string.
pub open spec fn version_parts(v: Seq<char>) -> Seq<u32> {
    numeric_parts(split(v, '.'))
}

/// The `i`-th part of a version, zero past its end.
pub open spec fn part_at(p: Seq<u32>, i: int) -> int {
    if 0 <= i < p.len() {
        p[i] as int
    } else {
        0
    }
}

/// Lexicographic comparison of two part lists from index `i`, the shorter one
/// padded with zeros: 1, 0 or -1.
pub open spec fn compare_parts_from(a: Seq<u32>, b: Seq<u32>, i: int) -> int
    decreases a.len() + b.len() - i,
{
    if i < 0 || (i >= a.len() && i >= b.len()) {
        0
    } else if part_at(a, i) > part_at(b, i) {
        1
    } else if part_at(a, i) < part_at(b, i) {
        -1
    } else {
        compare_parts_from(a, b, i + 1)
    }
}

/// The comparison of two version strings by their numeric parts.
pub open spec fn compare_versions_spec(a: Seq<char>, b: Seq<char>) -> int {
    compare_parts_from(version_parts(a), version_parts(b), 0)
}

/// The first two dot-separated pieces of both versions agree (when both have two).
pub open spec fn same_major_minor(base: Seq<char>, version: Seq<char>) -> bool {
    let bp = split(base, '.');
    let vp = split(version, '.');
    if bp.len() >= 2 && vp.len() >= 2 {
        bp[0] == vp[0] && bp[1] == vp[1]
    } else {
        true
    }
}

/// The first dot-separated pieces of both versions agree (when both have one).
pub open spec fn same_major(base: Seq<char>, version: Seq<char>) -> bool {
    let bp = split(base, '.');
    let vp = split(version, '.');
    if bp.len() >= 1 && vp.len() >= 1 {
        bp[0] == vp[0]
    } else {
        true
    }
}

/// Whether `version` satisfies the constraint `c`.
pub open spec fn constraint_matches(c: ConstraintSpec, version: Seq<char>) -> bool {
    match c {
        ConstraintSpec::Any => true,
        ConstraintSpec::Exact(v) => compare_versions_spec(version, v) == 0,
        ConstraintSpec::AtLeast(min) => compare_versions_spec(version, min) >= 0,
        ConstraintSpec::AtMost(max) => compare_versions_spec(version, max) <= 0,
        ConstraintSpec::Range(min, max) => compare_versions_spec(version, min) >= 0
            && compare_versions_spec(version, max) <= 0,
        ConstraintSpec::Compatible(base) => compare_versions_spec(version, base) >= 0
            && same_major_minor(base, version),
        ConstraintSpec::Caret(base) => compare_versions_spec(version, base) >= 0 && same_major(
            base,
            version,
        ),
    }
}

/// The comparison result is one of -1, 0, 1.
pub proof fn lemma_compare_parts_range(a: Seq<u32>, b: Seq<u32>, i: int)
    ensures
        -1 <= compare_parts_from(a, b, i) <= 1,
    decreases a.len() + b.len() - i,
{
    if !(i < 0 || (i >= a.len() && i >= b.len())) && part_at(a, i) == part_at(b, i) {
        lemma_compare_parts_range(a, b, i + 1);
    }
}

/// Swapping the operands negates the comparison.
pub proof fn lemma_compare_parts_antisym(a: Seq<u32>, b: Seq<u32>, i: int)
    ensures
        compare_parts_from(a, b, i) == -compare_parts_from(b, a, i),
    decreases a.len() + b.len() - i,
{
    if !(i < 0 || (i >= a.len() && i >= b.len())) && part_at(a, i) == part_at(b, i) {
        lemma_compare_parts_antisym(a, b, i + 1);
    }
}

/// A part list compares equal to itself.
pub proof fn lemma_compare_parts_refl(a: Seq<u32>, i: int)
    ensures
        compare_parts_from(a, a, i) == 0,
    decreases a.len() + a.len() - i,
{
    if !(i < 0 || i >= a.len()) {
        lemma_compare_parts_refl(a, i + 1);
    }
}

/// The comparison is transitive: `a >= b` and `b >= c` give `a >= c`.
pub proof fn lemma_compare_parts_trans(a: Seq<u32>, b: Seq<u32>, c: Seq<u32>, i: int)
    requires
        i >= 0,
        compare_parts_from(a, b, i) >= 0,
        compare_parts_from(b, c, i) >= 0,
    ensures
        compare_parts_from(a, c, i) >= 0,
    decreases a.len() + b.len() + c.len() - i,
{
    if i >= a.len() && i >= b.len() && i >= c.len() {
    } else if part_at(a, i) == part_at(b, i) && part_at(b, i) == part_at(c, i) {
        if i >= a.len() && i >= b.len() {
            lemma_compare_parts_zero_tail(b, c, i);
        } else if i >= b.len() && i >= c.len() {
            lemma_compare_parts_zero_tail(a, b, i);
        }
        lemma_compare_parts_trans(a, b, c, i + 1);
    }
}

/// Past the end of both lists the comparison is zero; past one list's end the
/// other list alone decides.
proof fn lemma_compare_parts_zero_tail(a: Seq<u32>, b: Seq<u32>, i: int)
    requires
        i >= 0,
    ensures
        i >= a.len() && i >= b.len() ==> compare_parts_from(a, b, i) == 0,
{
}

/// Law: comparing a version with itself gives 0.
pub proof fn law_compare_versions_reflexive(v: Seq<char>)
    ensures
        compare_versions_spec(v, v) == 0,
{
    lemma_compare_parts_refl(version_parts(v), 0);
}

/// Law: swapping the versions negates their comparison.
pub proof fn law_compare_versions_antisymmetric(a: Seq<char>, b: Seq<char>)
    ensures
        compare_versions_spec(a, b) == -compare_versions_spec(b, a),
        -1 <= compare_versions_spec(a, b) <= 1,
{
    lemma_compare_parts_antisym(version_parts(a), version_parts(b), 0);
    lemma_compare_parts_range(version_parts(a), version_parts(b), 0);
}

/// Law: "at least" is transitive across three versions.
pub proof fn law_compare_versions_transitive(a: Seq<char>, b: Seq<char>, c: Seq<char>)
    requires
        compare_versions_spec(a, b) >= 0,
        compare_versions_spec(b, c) >= 0,
    ensures
        compare_versions_spec(a, c) >= 0,
{
    lemma_compare_parts_trans(version_parts(a), version_parts(b), version_parts(c), 0);
}

/// Law: any version matches an exact, minimum, maximum or range constraint
/// built from that same version, and the `Any` constraint.
pub proof fn law_constraint_matches_own_version(v: Seq<char>)
    ensures
        constraint_matches(ConstraintSpec::Any, v),
        constraint_matches(ConstraintSpec::Exact(v), v),
        constraint_matches(ConstraintSpec::AtLeast(v), v),
        constraint_matches(ConstraintSpec::AtMost(v), v),
        constraint_matches(ConstraintSpec::Range(v, v), v),
        constraint_matches(ConstraintSpec::Compatible(v), v),
        constraint_matches(ConstraintSpec::Caret(v), v),
{
    law_compare_versions_reflexive(v);
}

/// When the first `k` pieces are numbers, they are the first `k` numeric
/// parts.
proof fn lemma_numeric_prefix(p: Seq<Seq<char>>, k: int)
    requires
        0 <= k <= p.len(),
        forall|i: int| 0 <= i < k ==> #[trigger] parse_u32(p[i]) is Some,
    ensures
        k <= numeric_parts(p).len() <= p.len(),
        forall|i: int| 0 <= i < k ==> parse_u32(#[trigger] p[i]) == Some(numeric_parts(p)[i]),
    decreases p.len(),
{
    if p.len() > 0 {
        if k == p.len() {
            lemma_numeric_prefix(p.drop_last(), k - 1);
        } else {
            lemma_numeric_prefix(p.drop_last(), k);
        }
        let rest = numeric_parts(p.drop_last());
        assert(numeric_parts(p) == match parse_u32(p.last()) {
            Some(n) => rest.push(n),
            None => rest,
        });
        assert forall|i: int| 0 <= i < k implies parse_u32(#[trigger] p[i]) == Some(numeric_parts(p)[i]) by {
            if i < p.len() - 1 {
                assert(p.drop_last()[i] == p[i]);
            }
        }
    }
}

/// Law: a caret constraint (`^1.2.3`: at least 1.2.3, below 2.0.0) matches
/// only versions that are not below its base and have its major number,
/// where the major pieces of both are numbers.
pub proof fn law_caret_keeps_major(base: Seq<char>, version: Seq<char>)
    requires
        constraint_matches(ConstraintSpec::Caret(base), version),
        parse_u32(split(base, '.')[0]) is Some,
        parse_u32(split(version, '.')[0]) is Some,
    ensures
        compare_versions_spec(version, base) >= 0,
        part_at(version_parts(version), 0) == part_at(version_parts(base), 0),
{
    lemma_numeric_prefix(split(base, '.'), 1);
    lemma_numeric_prefix(split(version, '.'), 1);
}

/// Law: a compatible constraint (`~1.2.3`: at least 1.2.3, below 1.3.0)
/// matches only versions that are not below its base and have its major
/// and minor numbers, where both have those two pieces and the base's are
/// numbers.
pub proof fn law_compatible_keeps_minor(base: Seq<char>, version: Seq<char>)
    requires
        constraint_matches(ConstraintSpec::Compatible(base), version),
        split(base, '.').len() >= 2,
        split(version, '.').len() >= 2,
        parse_u32(split(base, '.')[0]) is Some,
        parse_u32(split(base, '.')[1]) is Some,
    ensures
        compare_versions_spec(version, base) >= 0,
        part_at(version_parts(version), 0) == part_at(version_parts(base), 0),
        part_at(version_parts(version), 1) == part_at(version_parts(base), 1),
{
    lemma_numeric_prefix(split(base, '.'), 2);
    lemma_numeric_prefix(split(version, '.'), 2);
}

/// The numeric parts of the first `n` pieces, computed piece by piece.
fn numeric_parts_exec(pieces: &Vec<Vec<char>>) -> (r: Vec<u32>)
    ensures
        r@ == numeric_parts(vec_views(pieces@)),
{
    let mut r: Vec<u32> = Vec::new();
    let mut i: usize = 0;
    while i < pieces.len()
        invariant
            0 <= i <= pieces.len(),
            r@ == numeric_parts(vec_views(pieces@).take(i as int)),
        decreases pieces.len() - i,
    {
        let ghost before = vec_views(pieces@).take(i as int);
        assert(vec_views(pieces@).take(i + 1).drop_last() =~= before);
        assert(vec_views(pieces@).take(i + 1).last() == pieces@[i as int]@);
        match parse_u32_exec(&pieces[i]) {
            Some(n) => {
                r.push(n);
            },
            None => {},
        }
        i = i + 1;
    }
    assert(vec_views(pieces@).take(pieces.len() as int) =~= vec_views(pieces@));
    r
}

/// The numeric parts of a version string.
fn version_parts_exec(v: &Vec<char>) -> (r: Vec<u32>)
    ensures
        r@ == version_parts(v@),
{
    let pieces = split_chars(v, '.');
    numeric_parts_exec(&pieces)
}

/// The first `n` dot-separated pieces of `base` and `version` agree, for the
/// number of pieces that the compatibility rules look at.
fn leading_pieces_equal(base: &str, version: &str, n: usize) -> (r: bool)
    requires
        n == 1 || n == 2,
    ensures
        n == 2 ==> r == same_major_minor(base@, version@),
        n == 1 ==> r == same_major(base@, version@),
{
    let bv = chars_of(base);
    let vv = chars_of(version);
    let bp = split_chars(&bv, '.');
    let vp = split_chars(&vv, '.');
    assert(vec_views(bp@).len() == bp@.len());
    assert(vec_views(vp@).len() == vp@.len());
    if bp.len() >= n && vp.len() >= n {
        assert(vec_views(bp@)[0] == bp@[0]@);
        assert(vec_views(vp@)[0] == vp@[0]@);
        let first = chars_eq(&bp[0], &vp[0]);
        if n == 2 {
            assert(vec_views(bp@)[1] == bp@[1]@);
            assert(vec_views(vp@)[1] == vp@[1]@);
            first && chars_eq(&bp[1], &vp[1])
        } else {
            first
        }
    } else {
        true
    }
}

impl VersionConstraint {
    /// Parse a version constraint string.
    pub fn parse(s: &str) -> (r: Self)
        ensures
            r@ == parse_constraint(s@),
    {
        let sv = chars_of(s);
        let t = trim_chars(&sv);
        let star = chars_of("*");
        let ge = chars_of(">=");
        let le = chars_of("<=");
        let dots = chars_of("..");
        proof {
            reveal_strlit("*");
            reveal_strlit(">=");
            reveal_strlit("<=");
            reveal_strlit("..");
        }
        if t.len() == 0 || chars_eq(&t, &star) {
            return VersionConstraint::Any;
        }
        if starts_with(&t, &ge) {
            let rest = sub_chars(&t, 2, t.len());
            assert(rest@ =~= t@.skip(2));
            return VersionConstraint::AtLeast(string_of(&trim_chars(&rest)));
        }
        if starts_with(&t, &le) {
            let rest = sub_chars(&t, 2, t.len());
            assert(rest@ =~= t@.skip(2));
            return VersionConstraint::AtMost(string_of(&trim_chars(&rest)));
        }
        let first = t[0];
        if first == '~' || first == '^' || first == '=' {
            let rest = sub_chars(&t, 1, t.len());
            assert(rest@ =~= t@.skip(1));
            let v = string_of(&trim_chars(&rest));
            return if first == '~' {
                VersionConstraint::Compatible(v)
            } else if first == '^' {
                VersionConstraint::Caret(v)
            } else {
                VersionConstraint::Exact(v)
            };
        }
        match find_exec(&t, &dots) {
            Some(idx) => {
                proof {
                    crate::text::lemma_find_from_props(t@, dots@, 0);
                }
                let lo = sub_chars(&t, 0, idx);
                let hi = sub_chars(&t, idx + 2, t.len());
                assert(lo@ =~= t@.take(idx as int));
                assert(hi@ =~= t@.skip(idx + 2));
                VersionConstraint::Range {
                    min: string_of(&trim_chars(&lo)),
                    max: string_of(&trim_chars(&hi)),
                }
            },
            None => VersionConstraint::Exact(string_of(&t)),
        }
    }

    /// Check if a version satisfies this constraint.
    pub fn matches(&self, version: &str) -> (r: bool)
        ensures
            r == constraint_matches(self@, version@),
    {
        match self {
            VersionConstraint::Any => true,
            VersionConstraint::Exact(v) => self.versions_equal(version, v.as_str()),
            VersionConstraint::AtLeast(min) => self.compare_versions(version, min.as_str()) >= 0,
            VersionConstraint::AtMost(max) => self.compare_versions(version, max.as_str()) <= 0,
            VersionConstraint::Range { min, max } => {
                self.compare_versions(version, min.as_str()) >= 0 && self.compare_versions(
                    version,
                    max.as_str(),
                ) <= 0
            },
            VersionConstraint::Compatible(base) => {
                if self.compare_versions(version, base.as_str()) < 0 {
                    return false;
                }
                leading_pieces_equal(base.as_str(), version, 2)
            },
            VersionConstraint::Caret(base) => {
                if self.compare_versions(version, base.as_str()) < 0 {
                    return false;
                }
                leading_pieces_equal(base.as_str(), version, 1)
            },
        }
    }

    /// Compare two version strings: 1 if `a` is newer, -1 if older, 0 if equal.
    pub fn compare_versions(&self, a: &str, b: &str) -> (r: i32)
        ensures
            r == compare_versions_spec(a@, b@),
    {
        let av = chars_of(a);
        let bv = chars_of(b);
        let ap = version_parts_exec(&av);
        let bp = version_parts_exec(&bv);
        let n = if ap.len() > bp.len() {
            ap.len()
        } else {
            bp.len()
        };
        let mut i: usize = 0;
        while i < n
            invariant
                0 <= i <= n,
                ap@ == version_parts(a@),
                bp@ == version_parts(b@),
                n == if ap@.len() > bp@.len() {
                    ap@.len()
                } else {
                    bp@.len()
                },
                compare_parts_from(ap@, bp@, 0) == compare_parts_from(ap@, bp@, i as int),
            decreases n - i,
        {
            let x: u32 = if i < ap.len() {
                ap[i]
            } else {
                0
            };
            let y: u32 = if i < bp.len() {
                bp[i]
            } else {
                0
            };
            if x > y {
                return 1;
            }
            if x < y {
                return -1;
            }
            i = i + 1;
        }
        0
    }

    /// Check if two versions are equal.
    pub fn versions_equal(&self, a: &str, b: &str) -> (r: bool)
        ensures
            r == (compare_versions_spec(a@, b@) == 0),
    {
        self.compare_versions(a, b) == 0
    }
}

} // verus!

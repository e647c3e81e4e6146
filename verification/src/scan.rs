//! Line, word and character-class scanning over character sequences.
use vstd::prelude::*;

use crate::text::{is_ws, is_ws_char, split, split_chars, sub_chars, vec_views};

verus! {

/// A line without its trailing carriage return.
pub open spec fn strip_cr(l: Seq<char>) -> Seq<char> {
    if l.len() > 0 && l.last() == '\r' {
        l.drop_last()
    } else {
        l
    }
}

/// `str::lines`: the pieces between line feeds, each without a trailing
/// carriage return, and no empty last line after a final line feed.
pub open spec fn lines(s: Seq<char>) -> Seq<Seq<char>> {
    let parts = split(s, '\n');
    let kept = if s.len() == 0 || s.last() == '\n' {
        parts.drop_last()
    } else {
        parts
    };
    kept.map_values(|l: Seq<char>| strip_cr(l))
}

/// The last index of `c` in `s`.
pub open spec fn rfind_char(s: Seq<char>, c: char) -> Option<int>
    decreases s.len(),
{
    if s.len() == 0 {
        None
    } else if s.last() == c {
        Some(s.len() - 1)
    } else {
        rfind_char(s.drop_last(), c)
    }
}

/// `Path::extension` of a file name: the text after its last dot, unless that
/// dot starts the name or there is none.
pub open spec fn extension(name: Seq<char>) -> Option<Seq<char>> {
    match rfind_char(name, '.') {
        Some(i) => if i > 0 {
            Some(name.skip(i + 1))
        } else {
            None
        },
        None => None,
    }
}

/// The first index at or after `k` whose character is one of `cs`.
pub open spec fn find_any_from(s: Seq<char>, cs: Seq<char>, k: int) -> Option<int>
    decreases s.len() - k,
{
    if k < 0 || k >= s.len() {
        None
    } else if cs.contains(s[k]) {
        Some(k)
    } else {
        find_any_from(s, cs, k + 1)
    }
}

/// `str::find` with a set of characters.
pub open spec fn find_any(s: Seq<char>, cs: Seq<char>) -> Option<int> {
    find_any_from(s, cs, 0)
}

/// The length of the run of non-whitespace characters that starts `s`.
pub open spec fn leading_word(s: Seq<char>) -> nat
    decreases s.len(),
{
    if s.len() > 0 && !is_ws(s[0]) {
        1 + leading_word(s.drop_first())
    } else {
        0
    }
}

/// `str::split_whitespace`: the maximal runs of non-whitespace characters.
pub open spec fn split_ws(s: Seq<char>) -> Seq<Seq<char>>
    decreases s.len(),
{
    if s.len() == 0 {
        seq![]
    } else if is_ws(s[0]) {
        split_ws(s.drop_first())
    } else {
        proof {
            lemma_leading_word_bound(s);
        }
        seq![s.take(leading_word(s) as int)] + split_ws(s.skip(leading_word(s) as int))
    }
}

/// `str::trim_start_matches` with a string pattern: every leading copy of
/// `pat` removed.
pub open spec fn trim_start_str(s: Seq<char>, pat: Seq<char>) -> Seq<char>
    decreases s.len(),
{
    if pat.len() > 0 && pat.is_prefix_of(s) {
        trim_start_str(s.skip(pat.len() as int), pat)
    } else {
        s
    }
}

/// `s` without leading characters from `cs`.
pub open spec fn trim_start_set(s: Seq<char>, cs: Seq<char>) -> Seq<char>
    decreases s.len(),
{
    if s.len() > 0 && cs.contains(s[0]) {
        trim_start_set(s.drop_first(), cs)
    } else {
        s
    }
}

/// `s` without trailing characters from `cs`.
pub open spec fn trim_end_set(s: Seq<char>, cs: Seq<char>) -> Seq<char>
    decreases s.len(),
{
    if s.len() > 0 && cs.contains(s.last()) {
        trim_end_set(s.drop_last(), cs)
    } else {
        s
    }
}

/// `str::trim_matches` with a set of characters.
pub open spec fn trim_set(s: Seq<char>, cs: Seq<char>) -> Seq<char> {
    trim_end_set(trim_start_set(s, cs), cs)
}

/// The word run is part of the string and non-empty when the string starts
/// with a non-whitespace character.
pub proof fn lemma_leading_word_bound(s: Seq<char>)
    ensures
        leading_word(s) <= s.len(),
        s.len() > 0 && !is_ws(s[0]) ==> leading_word(s) >= 1,
    decreases s.len(),
{
    if s.len() > 0 && !is_ws(s[0]) {
        lemma_leading_word_bound(s.drop_first());
    }
}

/// The word run from `i` ends at the first whitespace at or after `i`.
proof fn lemma_leading_word_run(s: Seq<char>, i: int, j: int)
    requires
        0 <= i <= j <= s.len(),
        forall|k: int| i <= k < j ==> !is_ws(s[k]),
        j == s.len() || is_ws(s[j]),
    ensures
        leading_word(s.skip(i)) == j - i,
    decreases j - i,
{
    if i < j {
        lemma_leading_word_run(s, i + 1, j);
        assert(s.skip(i).drop_first() =~= s.skip(i + 1));
    }
}

/// `split` never yields an empty list.
pub proof fn lemma_split_nonempty(s: Seq<char>, sep: char)
    ensures
        split(s, sep).len() >= 1,
{
}

// ---------------------------------------------------------------------------
// Executable operations
// ---------------------------------------------------------------------------
/// `str::lines` on a character vector.
pub fn lines_chars(v: &Vec<char>) -> (r: Vec<Vec<char>>)
    ensures
        vec_views(r@) == lines(v@),
{
    let parts = split_chars(v, '\n');
    proof {
        lemma_split_nonempty(v@, '\n');
    }
    let n = if v.len() == 0 || v[v.len() - 1] == '\n' {
        parts.len() - 1
    } else {
        parts.len()
    };
    let ghost kept = if v@.len() == 0 || v@.last() == '\n' {
        vec_views(parts@).drop_last()
    } else {
        vec_views(parts@)
    };
    assert(kept.len() == n);
    let mut r: Vec<Vec<char>> = Vec::new();
    let mut i: usize = 0;
    while i < n
        invariant
            0 <= i <= n,
            n <= parts.len(),
            kept.len() == n,
            forall|k: int| 0 <= k < n ==> kept[k] == parts@[k]@,
            vec_views(r@) == kept.take(i as int).map_values(|l: Seq<char>| strip_cr(l)),
        decreases n - i,
    {
        let p = &parts[i];
        let line = if p.len() > 0 && p[p.len() - 1] == '\r' {
            sub_chars(p, 0, p.len() - 1)
        } else {
            sub_chars(p, 0, p.len())
        };
        assert(line@ =~= strip_cr(p@));
        let ghost old_r = r@;
        r.push(line);
        assert(vec_views(r@) =~= vec_views(old_r).push(line@));
        assert(kept.take(i + 1).map_values(|l: Seq<char>| strip_cr(l)) =~= kept.take(
            i as int,
        ).map_values(|l: Seq<char>| strip_cr(l)).push(strip_cr(kept[i as int])));
        i = i + 1;
    }
    assert(kept.take(n as int) =~= kept);
    r
}

/// The first index at or after `from` whose character is one of `cs`.
pub fn find_any_exec(v: &Vec<char>, cs: &Vec<char>) -> (r: Option<usize>)
    ensures
        match r {
            Some(i) => find_any(v@, cs@) == Some(i as int),
            None => find_any(v@, cs@) is None,
        },
{
    let mut k: usize = 0;
    while k < v.len()
        invariant
            0 <= k <= v.len(),
            find_any(v@, cs@) == find_any_from(v@, cs@, k as int),
        decreases v.len() - k,
    {
        if contains_char(cs, v[k]) {
            return Some(k);
        }
        k = k + 1;
    }
    None
}

/// `str::split_whitespace` on a character vector.
pub fn split_ws_chars(v: &Vec<char>) -> (r: Vec<Vec<char>>)
    ensures
        vec_views(r@) == split_ws(v@),
{
    let mut r: Vec<Vec<char>> = Vec::new();
    let mut i: usize = 0;
    assert(v@.skip(0) =~= v@);
    while i < v.len()
        invariant
            0 <= i <= v.len(),
            vec_views(r@) + split_ws(v@.skip(i as int)) == split_ws(v@),
        decreases v.len() - i,
    {
        if is_ws_char(v[i]) {
            assert(v@.skip(i as int).drop_first() =~= v@.skip(i + 1));
            i = i + 1;
        } else {
            let mut j: usize = i;
            while j < v.len() && !is_ws_char(v[j])
                invariant
                    i <= j <= v.len(),
                    forall|k: int| i <= k < j ==> !is_ws(v@[k]),
                decreases v.len() - j,
            {
                j = j + 1;
            }
            proof {
                lemma_leading_word_run(v@, i as int, j as int);
            }
            let word = sub_chars(v, i, j);
            let ghost s = v@.skip(i as int);
            assert(word@ =~= s.take(leading_word(s) as int));
            assert(s.skip(leading_word(s) as int) =~= v@.skip(j as int));
            let ghost old_r = r@;
            r.push(word);
            assert(vec_views(r@) =~= vec_views(old_r).push(word@));
            assert(vec_views(r@) + split_ws(v@.skip(j as int)) =~= vec_views(old_r) + split_ws(s));
            i = j;
        }
    }
    assert(vec_views(r@) =~= vec_views(r@) + split_ws(v@.skip(i as int)));
    r
}

/// `str::trim_start_matches` with a string pattern.
pub fn trim_start_str_exec(v: &Vec<char>, pat: &Vec<char>) -> (r: Vec<char>)
    ensures
        r@ == trim_start_str(v@, pat@),
{
    if pat.len() == 0 {
        return sub_chars(v, 0, v.len());
    }
    let mut i: usize = 0;
    assert(v@.skip(0) =~= v@);
    loop
        invariant
            0 <= i <= v.len(),
            pat.len() > 0,
            trim_start_str(v@, pat@) == trim_start_str(v@.skip(i as int), pat@),
        decreases v.len() - i,
    {
        let rest = sub_chars(v, i, v.len());
        assert(rest@ =~= v@.skip(i as int));
        if crate::text::starts_with(&rest, pat) {
            assert(rest@.skip(pat.len() as int) =~= v@.skip(i + pat.len()));
            i = i + pat.len();
        } else {
            return rest;
        }
    }
}

/// `str::trim_matches` with a set of characters.
pub fn trim_set_exec(v: &Vec<char>, cs: &Vec<char>) -> (r: Vec<char>)
    ensures
        r@ == trim_set(v@, cs@),
{
    let mut a: usize = 0;
    assert(v@.skip(0) =~= v@);
    while a < v.len() && contains_char(cs, v[a])
        invariant
            0 <= a <= v.len(),
            trim_start_set(v@, cs@) == trim_start_set(v@.skip(a as int), cs@),
        decreases v.len() - a,
    {
        assert(v@.skip(a as int).drop_first() =~= v@.skip(a + 1));
        a = a + 1;
    }
    let ghost t = v@.skip(a as int);
    assert(trim_start_set(t, cs@) == t);
    let mut b: usize = v.len();
    while b > a && contains_char(cs, v[b - 1])
        invariant
            a <= b <= v.len(),
            t == v@.skip(a as int),
            trim_end_set(t, cs@) == trim_end_set(v@.subrange(a as int, b as int), cs@),
        decreases b,
    {
        assert(v@.subrange(a as int, b as int).drop_last() =~= v@.subrange(a as int, b - 1));
        b = b - 1;
    }
    assert(v@.subrange(a as int, b as int) =~= t.take(b - a));
    sub_chars(v, a, b)
}

/// The concatenation of two character vectors.
pub fn concat_chars(a: &Vec<char>, b: &Vec<char>) -> (r: Vec<char>)
    ensures
        r@ == a@ + b@,
{
    let mut r = sub_chars(a, 0, a.len());
    let mut i: usize = 0;
    assert(a@.subrange(0, a.len() as int) =~= a@);
    while i < b.len()
        invariant
            0 <= i <= b.len(),
            r@ == a@ + b@.take(i as int),
        decreases b.len() - i,
    {
        r.push(b[i]);
        assert(b@.take(i + 1) =~= b@.take(i as int).push(b@[i as int]));
        i = i + 1;
    }
    assert(b@.take(b.len() as int) =~= b@);
    r
}

/// The last index of `c` in `v`.
pub fn rfind_char_exec(v: &Vec<char>, c: char) -> (r: Option<usize>)
    ensures
        match r {
            Some(i) => rfind_char(v@, c) == Some(i as int) && i < v.len(),
            None => rfind_char(v@, c) is None,
        },
{
    let mut k: usize = v.len();
    assert(v@.take(v.len() as int) =~= v@);
    while k > 0
        invariant
            0 <= k <= v.len(),
            rfind_char(v@, c) == rfind_char(v@.take(k as int), c),
        decreases k,
    {
        assert(v@.take(k as int).drop_last() =~= v@.take(k - 1));
        if v[k - 1] == c {
            return Some(k - 1);
        }
        k = k - 1;
    }
    None
}

/// `Path::extension` of a file name.
pub fn extension_exec(name: &Vec<char>) -> (r: Option<Vec<char>>)
    ensures
        match r {
            Some(e) => extension(name@) == Some(e@),
            None => extension(name@) is None,
        },
{
    match rfind_char_exec(name, '.') {
        Some(i) => if i > 0 {
            let e = sub_chars(name, i + 1, name.len());
            assert(e@ =~= name@.skip(i + 1));
            Some(e)
        } else {
            None
        },
        None => None,
    }
}

/// `s` without trailing characters from `cs` (`str::trim_end_matches`).
pub fn trim_end_set_exec(v: &Vec<char>, cs: &Vec<char>) -> (r: Vec<char>)
    ensures
        r@ == trim_end_set(v@, cs@),
{
    let mut b: usize = v.len();
    assert(v@.subrange(0, v.len() as int) =~= v@);
    while b > 0 && contains_char(cs, v[b - 1])
        invariant
            0 <= b <= v.len(),
            trim_end_set(v@, cs@) == trim_end_set(v@.subrange(0, b as int), cs@),
        decreases b,
    {
        assert(v@.subrange(0, b as int).drop_last() =~= v@.subrange(0, b - 1));
        b = b - 1;
    }
    sub_chars(v, 0, b)
}

/// Whether `c` is one of `cs`.
pub fn contains_char(cs: &Vec<char>, c: char) -> (r: bool)
    ensures
        r == cs@.contains(c),
{
    let mut j: usize = 0;
    while j < cs.len()
        invariant
            0 <= j <= cs.len(),
            forall|m: int| 0 <= m < j ==> cs@[m] != c,
        decreases cs.len() - j,
    {
        if cs[j] == c {
            return true;
        }
        j = j + 1;
    }
    false
}

} // verus!

//! Change detection between two sets of extracted signatures: matching by
//! unique id, signature changes, renames and removals, in file and line order.
use vstd::prelude::*;

use super::change::DetectedChange;
use super::detector::{
    create_rename_change, derefs, detect_signature_change, first_free, greedy_renames, pair_renames,
    pairs_view, removal_change, removed_api_change, rename_allowed, rename_change,
    signature_change_result, taken_by, views_ranked,
};
use super::detector::param_differs;
use super::signature::{lemma_same_type_refl, unique_id_spec, ApiSignature};
use crate::strmap::StrMap;
use crate::text::{
    chars_of, lemma_text_lt_irreflexive, lemma_text_lt_transitive, str_eq, text_lt_from, views,
};

verus! {

/// The id a signature is matched by.
pub open spec fn sig_id(s: ApiSignature) -> Seq<char> {
    unique_id_spec(s.name@, s.mod_path)
}

/// The detector looks at exported signatures, or at all of them when
/// private ones are included.
pub open spec fn considered(s: ApiSignature, include_private: bool) -> bool {
    include_private || s.is_exported
}

/// The signatures of the first `n` entries of a map, entry by entry, each
/// entry's in order.
pub open spec fn flatten_upto(m: StrMap<Vec<ApiSignature>>, n: int) -> Seq<ApiSignature>
    decreases n,
{
    if n <= 0 {
        Seq::empty()
    } else {
        flatten_upto(m, n - 1) + m.value_at_spec(n - 1)
    }
}

/// All signatures of a map, entry by entry.
pub open spec fn all_sigs(m: StrMap<Vec<ApiSignature>>) -> Seq<ApiSignature> {
    flatten_upto(m, m.spec_len() as int)
}

/// The signature at position `i` is the one kept for its id: it is
/// considered, and no later considered signature has its id.
pub open spec fn kept_at(s: Seq<ApiSignature>, include_private: bool, i: int) -> bool {
    &&& considered(s[i], include_private)
    &&& forall|j: int| i < j < s.len() && considered(#[trigger] s[j], include_private) ==> sig_id(s[j]) != sig_id(s[i])
}

/// The kept signatures among the first `n`, in order.
pub open spec fn kept_upto(s: Seq<ApiSignature>, include_private: bool, n: int) -> Seq<ApiSignature>
    decreases n,
{
    if n <= 0 {
        Seq::empty()
    } else {
        let w = kept_upto(s, include_private, n - 1);
        if kept_at(s, include_private, n - 1) {
            w.push(s[n - 1])
        } else {
            w
        }
    }
}

/// The detector's table of a map: one signature per id, the last considered
/// one, in the order they stand.
pub open spec fn id_table(m: StrMap<Vec<ApiSignature>>, include_private: bool) -> Seq<ApiSignature> {
    let s = all_sigs(m);
    kept_upto(s, include_private, s.len() as int)
}

/// The ids of a list of signatures.
pub open spec fn ids_of(s: Seq<ApiSignature>) -> Seq<Seq<char>> {
    s.map_values(|x: ApiSignature| sig_id(x))
}

/// All signatures of a map, borrowed, entry by entry.
fn all_signatures<'a>(m: &'a StrMap<Vec<ApiSignature>>) -> (r: Vec<&'a ApiSignature>)
    ensures
        derefs(r@) == all_sigs(*m),
{
    let mut out: Vec<&'a ApiSignature> = Vec::new();
    let n = m.len();
    let mut i: usize = 0;
    while i < n
        invariant
            0 <= i <= n,
            n == m.spec_len(),
            derefs(out@) == flatten_upto(*m, i as int),
        decreases n - i,
    {
        let v = m.value_at(i);
        let mut j: usize = 0;
        while j < v.len()
            invariant
                0 <= j <= v@.len(),
                i < n,
                n == m.spec_len(),
                v@ == m.value_at_spec(i as int),
                derefs(out@) == flatten_upto(*m, i as int) + v@.take(j as int),
            decreases v.len() - j,
        {
            let ghost before = derefs(out@);
            out.push(&v[j]);
            assert(derefs(out@) =~= before.push(v@[j as int]));
            assert(v@.take(j + 1) =~= v@.take(j as int).push(v@[j as int]));
            j = j + 1;
        }
        assert(v@.take(v@.len() as int) =~= v@);
        i = i + 1;
    }
    out
}

/// The ids of borrowed signatures.
fn ids_exec(s: &Vec<&ApiSignature>) -> (r: Vec<String>)
    ensures
        views(r@) == ids_of(derefs(s@)),
{
    let mut out: Vec<String> = Vec::new();
    let mut i: usize = 0;
    while i < s.len()
        invariant
            0 <= i <= s@.len(),
            out@.len() == i,
            forall|k: int| 0 <= k < i ==> #[trigger] out@[k]@ == sig_id(*s@[k]),
        decreases s.len() - i,
    {
        out.push(s[i].unique_id());
        i = i + 1;
    }
    assert(views(out@) =~= ids_of(derefs(s@)));
    out
}

/// The table of a map: the signature kept for each id, borrowed, in order.
pub fn kept_signatures<'a>(m: &'a StrMap<Vec<ApiSignature>>, include_private: bool) -> (r: Vec<&'a ApiSignature>)
    ensures
        derefs(r@) == id_table(*m, include_private),
{
    let all = all_signatures(m);
    let ids = ids_exec(&all);
    let ghost s = derefs(all@);
    assert(views(ids@).len() == ids@.len());
    let mut out: Vec<&'a ApiSignature> = Vec::new();
    let mut i: usize = 0;
    while i < all.len()
        invariant
            0 <= i <= all@.len(),
            s == derefs(all@),
            s == all_sigs(*m),
            views(ids@) == ids_of(s),
            ids@.len() == all@.len(),
            derefs(out@) == kept_upto(s, include_private, i as int),
        decreases all.len() - i,
    {
        let mut keep = include_private || all[i].is_exported;
        let mut j: usize = i + 1;
        while j < all.len() && keep
            invariant
                i < j <= all@.len(),
                s == derefs(all@),
                views(ids@) == ids_of(s),
                ids@.len() == all@.len(),
                keep ==> considered(s[i as int], include_private),
                keep ==> forall|q: int| i < q < j && considered(#[trigger] s[q], include_private) ==> sig_id(s[q]) != sig_id(s[i as int]),
                !keep ==> !kept_at(s, include_private, i as int),
            decreases all.len() - j,
        {
            assert(views(ids@)[j as int] == sig_id(s[j as int]));
            assert(views(ids@)[i as int] == sig_id(s[i as int]));
            if (include_private || all[j].is_exported) && str_eq(ids[j].as_str(), ids[i].as_str()) {
                keep = false;
            }
            j = j + 1;
        }
        let ghost before = derefs(out@);
        if keep {
            out.push(all[i]);
            assert(derefs(out@) =~= before.push(s[i as int]));
        }
        i = i + 1;
    }
    out
}

/// The first position from `i` on that holds `k`.
pub open spec fn first_index_from(ids: Seq<Seq<char>>, k: Seq<char>, i: int) -> Option<int>
    decreases ids.len() - i,
{
    if i < 0 || i >= ids.len() {
        None
    } else if ids[i] == k {
        Some(i)
    } else {
        first_index_from(ids, k, i + 1)
    }
}

/// The signatures among the first `n` of `a` whose id no signature of `b`
/// has, in order.
pub open spec fn unmatched_upto(a: Seq<ApiSignature>, b: Seq<ApiSignature>, n: int) -> Seq<ApiSignature>
    decreases n,
{
    if n <= 0 {
        Seq::empty()
    } else {
        let w = unmatched_upto(a, b, n - 1);
        if ids_of(b).contains(sig_id(a[n - 1])) {
            w
        } else {
            w.push(a[n - 1])
        }
    }
}

/// The signatures of `a` whose id no signature of `b` has, in order.
pub open spec fn unmatched(a: Seq<ApiSignature>, b: Seq<ApiSignature>) -> Seq<ApiSignature> {
    unmatched_upto(a, b, a.len() as int)
}

/// The changes among some outcomes, in order.
pub open spec fn somes(outs: Seq<Option<DetectedChange>>) -> Seq<DetectedChange>
    decreases outs.len(),
{
    if outs.len() == 0 {
        Seq::empty()
    } else {
        let w = somes(outs.drop_last());
        match outs.last() {
            Some(c) => w.push(c),
            None => w,
        }
    }
}

/// `o` is what comparing `a[i]` with the first signature of `b` of its id
/// gives; nothing when `b` has none.
pub open spec fn compared_at(a: Seq<ApiSignature>, b: Seq<ApiSignature>, i: int, o: Option<DetectedChange>) -> bool {
    match first_index_from(ids_of(b), sig_id(a[i]), 0) {
        Some(j) => signature_change_result(a[i], b[j], o),
        None => o is None,
    }
}

/// The first position of `ids` that holds `k`.
fn find_id(ids: &Vec<String>, k: &str) -> (r: Option<usize>)
    ensures
        match r {
            Some(j) => first_index_from(views(ids@), k@, 0) == Some(j as int) && j < ids@.len(),
            None => first_index_from(views(ids@), k@, 0) is None,
        },
        r is None <==> !views(ids@).contains(k@),
{
    let ghost v = views(ids@);
    let mut i: usize = 0;
    while i < ids.len()
        invariant
            0 <= i <= ids@.len(),
            v == views(ids@),
            v.len() == ids@.len(),
            first_index_from(v, k@, 0) == first_index_from(v, k@, i as int),
            forall|q: int| 0 <= q < i ==> v[q] != k@,
        decreases ids.len() - i,
    {
        assert(v[i as int] == ids@[i as int]@);
        if str_eq(ids[i].as_str(), k) {
            return Some(i);
        }
        i = i + 1;
    }
    None
}

/// Match the tables of two versions by id. For each old API in table order
/// that the new version has, the change of signature between them, if any;
/// then the old APIs whose id the new version lacks, and the new APIs whose
/// id the old version lacks, each in table order.
pub fn unmatched_apis<'a>(
    old: &'a StrMap<Vec<ApiSignature>>,
    new: &'a StrMap<Vec<ApiSignature>>,
    include_private: bool,
) -> (r: (Vec<DetectedChange>, Vec<&'a ApiSignature>, Vec<&'a ApiSignature>))
    ensures
        exists|outs: Seq<Option<DetectedChange>>|
            outs.len() == id_table(*old, include_private).len() && (forall|i: int|
                0 <= i < outs.len() ==> compared_at(
                    id_table(*old, include_private),
                    id_table(*new, include_private),
                    i,
                    #[trigger] outs[i],
                )) && r.0@ == somes(outs),
        derefs(r.1@) == unmatched(id_table(*old, include_private), id_table(*new, include_private)),
        derefs(r.2@) == unmatched(id_table(*new, include_private), id_table(*old, include_private)),
{
    let ot = kept_signatures(old, include_private);
    let nt = kept_signatures(new, include_private);
    let oids = ids_exec(&ot);
    let nids = ids_exec(&nt);
    let ghost a = derefs(ot@);
    let ghost b = derefs(nt@);
    assert(views(oids@).len() == oids@.len() && views(nids@).len() == nids@.len());
    let mut changes: Vec<DetectedChange> = Vec::new();
    let mut old_un: Vec<&'a ApiSignature> = Vec::new();
    let ghost mut outs: Seq<Option<DetectedChange>> = Seq::empty();
    let mut i: usize = 0;
    while i < ot.len()
        invariant
            0 <= i <= ot@.len(),
            a == derefs(ot@),
            b == derefs(nt@),
            views(oids@) == ids_of(a),
            views(nids@) == ids_of(b),
            oids@.len() == ot@.len(),
            nids@.len() == nt@.len(),
            outs.len() == i,
            forall|q: int| 0 <= q < i ==> compared_at(a, b, q, #[trigger] outs[q]),
            changes@ == somes(outs),
            derefs(old_un@) == unmatched_upto(a, b, i as int),
        decreases ot.len() - i,
    {
        assert(views(oids@)[i as int] == sig_id(a[i as int]));
        let ghost before = derefs(old_un@);
        match find_id(&nids, oids[i].as_str()) {
            Some(j) => {
                let c = detect_signature_change(ot[i], nt[j]);
                let ghost o = c;
                match c {
                    Some(x) => {
                        changes.push(x);
                    },
                    None => {},
                }
                proof {
                    assert(outs.push(o).drop_last() =~= outs);
                    outs = outs.push(o);
                }
            },
            None => {
                old_un.push(ot[i]);
                assert(derefs(old_un@) =~= before.push(a[i as int]));
                proof {
                    assert(outs.push(None).drop_last() =~= outs);
                    outs = outs.push(None);
                }
            },
        }
        i = i + 1;
    }
    let mut new_un: Vec<&'a ApiSignature> = Vec::new();
    let mut j: usize = 0;
    while j < nt.len()
        invariant
            0 <= j <= nt@.len(),
            a == derefs(ot@),
            b == derefs(nt@),
            views(oids@) == ids_of(a),
            views(nids@) == ids_of(b),
            nids@.len() == nt@.len(),
            derefs(new_un@) == unmatched_upto(b, a, j as int),
        decreases nt.len() - j,
    {
        assert(views(nids@)[j as int] == sig_id(b[j as int]));
        let ghost before = derefs(new_un@);
        if find_id(&oids, nids[j].as_str()).is_none() {
            new_un.push(nt[j]);
            assert(derefs(new_un@) =~= before.push(b[j as int]));
        }
        j = j + 1;
    }
    (changes, old_un, new_un)
}

/// A detected change, and for a rename the positions of the old and new
/// API in the unmatched lists it was paired from.
pub struct FoundChange {
    /// The change.
    pub change: DetectedChange,
    /// For a rename, the positions it pairs.
    pub rename_of: Option<(usize, usize)>,
}

/// The old positions that some renames pair.
pub open spec fn paired_old(pairs: Seq<(int, int)>) -> Set<int> {
    pairs.map_values(|p: (int, int)| p.0).to_set()
}

/// The positions below `n` that no rename pairs, in order.
pub open spec fn unpaired_upto(pairs: Seq<(int, int)>, n: int) -> Seq<int>
    decreases n,
{
    if n <= 0 {
        Seq::empty()
    } else {
        let w = unpaired_upto(pairs, n - 1);
        if paired_old(pairs).contains(n - 1) {
            w
        } else {
            w.push(n - 1)
        }
    }
}

/// The changes before ordering: the signature changes as given, then a
/// rename for each pair of unmatched APIs in turn, then a removal, under its
/// id, of each unmatched old API that no rename took.
pub open spec fn found_changes(
    changes: Seq<DetectedChange>,
    old: Seq<ApiSignature>,
    new: Seq<ApiSignature>,
    pairs: Seq<(int, int)>,
    items: Seq<FoundChange>,
) -> bool {
    let c = changes.len() as int;
    let p = pairs.len() as int;
    let un = unpaired_upto(pairs, old.len() as int);
    &&& items.len() == c + p + un.len()
    &&& forall|k: int| 0 <= k < c ==> #[trigger] items[k].change == changes[k] && items[k].rename_of is None
    &&& forall|k: int|
        c <= k < c + p ==> rename_change(old[pairs[k - c].0], new[pairs[k - c].1], #[trigger] items[k].change)
            && items[k].rename_of == Some((pairs[k - c].0 as usize, pairs[k - c].1 as usize))
    &&& forall|k: int|
        c + p <= k < items.len() ==> removal_change(
            sig_id(old[un[k - c - p]]),
            old[un[k - c - p]],
            #[trigger] items[k].change,
        ) && items[k].rename_of is None
}

/// An absent line comes before every line, and lines by number.
pub open spec fn line_lt(a: Option<usize>, b: Option<usize>) -> bool {
    match (a, b) {
        (None, Some(_)) => true,
        (Some(x), Some(y)) => x < y,
        _ => false,
    }
}

/// `a` comes before `b` by file path, then by old line.
pub open spec fn change_lt(a: DetectedChange, b: DetectedChange) -> bool {
    ||| text_lt_from(a.file_path@, b.file_path@, 0)
    ||| a.file_path@ == b.file_path@ && line_lt(a.metadata.old_line, b.metadata.old_line)
}

/// Where `x` goes among ordered changes, looking from `k` on: before the
/// first that comes after it, after those that do not.
pub open spec fn insert_pos_from(s: Seq<FoundChange>, x: FoundChange, k: int) -> int
    decreases s.len() - k,
{
    if k < 0 || k >= s.len() {
        s.len() as int
    } else if change_lt(x.change, s[k].change) {
        k
    } else {
        insert_pos_from(s, x, k + 1)
    }
}

/// Changes ordered by file path and old line, keeping the order of those
/// that tie.
pub open spec fn sorted_changes(s: Seq<FoundChange>) -> Seq<FoundChange>
    decreases s.len(),
{
    if s.len() == 0 {
        s
    } else {
        let t = sorted_changes(s.drop_last());
        t.insert(insert_pos_from(t, s.last(), 0), s.last())
    }
}

/// Whether `a` comes before `b` in code-point order.
fn text_lt(a: &str, b: &str) -> (r: bool)
    ensures
        r == text_lt_from(a@, b@, 0),
{
    let av = chars_of(a);
    let bv = chars_of(b);
    let mut k: usize = 0;
    while k < av.len() && k < bv.len()
        invariant
            0 <= k <= av@.len(),
            av@ == a@,
            bv@ == b@,
            text_lt_from(a@, b@, 0) == text_lt_from(a@, b@, k as int),
        decreases av.len() - k,
    {
        if av[k] != bv[k] {
            return (av[k] as u32) < (bv[k] as u32);
        }
        k = k + 1;
    }
    k < bv.len()
}

/// Whether `a` comes before `b` by file path, then by old line.
fn change_lt_exec(a: &DetectedChange, b: &DetectedChange) -> (r: bool)
    ensures
        r == change_lt(*a, *b),
{
    if text_lt(a.file_path.as_str(), b.file_path.as_str()) {
        return true;
    }
    if !str_eq(a.file_path.as_str(), b.file_path.as_str()) {
        return false;
    }
    match (a.metadata.old_line, b.metadata.old_line) {
        (None, Some(_)) => true,
        (Some(x), Some(y)) => x < y,
        _ => false,
    }
}

/// Order changes by file path and old line, keeping the order of those that
/// tie.
fn sort_found(v: Vec<FoundChange>) -> (r: Vec<FoundChange>)
    ensures
        r@ == sorted_changes(v@),
{
    let ghost orig = v@;
    let mut rest = v;
    let mut out: Vec<FoundChange> = Vec::new();
    let ghost mut i: int = 0;
    while rest.len() > 0
        invariant
            0 <= i <= orig.len(),
            rest@ == orig.skip(i),
            out@ == sorted_changes(orig.take(i)),
        decreases rest.len(),
    {
        let x = rest.remove(0);
        let mut k: usize = 0;
        while k < out.len() && !change_lt_exec(&x.change, &out[k].change)
            invariant
                0 <= k <= out@.len(),
                insert_pos_from(out@, x, 0) == insert_pos_from(out@, x, k as int),
            decreases out.len() - k,
        {
            k = k + 1;
        }
        proof {
            assert(orig.take(i + 1).drop_last() =~= orig.take(i));
            assert(orig.take(i + 1).last() == x);
            assert(orig.skip(i).drop_first() =~= orig.skip(i + 1));
        }
        out.insert(k, x);
        proof {
            i = i + 1;
        }
    }
    assert(orig.take(orig.len() as int) =~= orig);
    out
}

/// A free candidate is one the old API may be renamed to and that is not
/// taken.
proof fn lemma_first_free_allowed(
    old: Seq<ApiSignature>,
    new: Seq<ApiSignature>,
    cross_file: bool,
    i: int,
    cands: Seq<usize>,
    taken: Set<int>,
)
    ensures
        first_free(old, new, cross_file, i, cands, taken) matches Some(j) ==> rename_allowed(
            old,
            new,
            cross_file,
            i,
            j,
        ),
    decreases cands.len(),
{
    if cands.len() > 0 {
        lemma_first_free_allowed(old, new, cross_file, i, cands.drop_first(), taken);
    }
}

/// Each rename of the first `n` old APIs pairs one of them with a new API.
proof fn lemma_greedy_in_range(
    old: Seq<ApiSignature>,
    new: Seq<ApiSignature>,
    cross_file: bool,
    ranked: Seq<Seq<usize>>,
    n: int,
)
    ensures
        forall|k: int|
            0 <= k < greedy_renames(old, new, cross_file, ranked, n).len() ==> 0 <= (
            #[trigger] greedy_renames(old, new, cross_file, ranked, n)[k]).0 < n && 0
                <= greedy_renames(old, new, cross_file, ranked, n)[k].1 < new.len(),
    decreases n,
{
    if n > 0 {
        lemma_greedy_in_range(old, new, cross_file, ranked, n - 1);
        let prev = greedy_renames(old, new, cross_file, ranked, n - 1);
        lemma_first_free_allowed(old, new, cross_file, n - 1, ranked[n - 1], taken_by(prev));
    }
}

/// Finish detection: rename the unmatched old APIs to the unmatched new ones
/// that `ranked` lists for them, most similar first (see `pair_renames`),
/// report the other unmatched old APIs as removed under their ids, and order
/// all changes, the given ones first, by file path and old line, keeping the
/// order of those that tie.
pub fn finish_changes(
    changes: Vec<DetectedChange>,
    old_unmatched: &Vec<&ApiSignature>,
    new_unmatched: &Vec<&ApiSignature>,
    cross_file: bool,
    ranked: &Vec<Vec<usize>>,
) -> (r: Vec<FoundChange>)
    requires
        ranked@.len() == old_unmatched@.len(),
    ensures
        exists|items: Seq<FoundChange>|
            found_changes(
                changes@,
                derefs(old_unmatched@),
                derefs(new_unmatched@),
                greedy_renames(
                    derefs(old_unmatched@),
                    derefs(new_unmatched@),
                    cross_file,
                    views_ranked(ranked@),
                    old_unmatched@.len() as int,
                ),
                items,
            ) && r@ == sorted_changes(items),
{
    let ghost old = derefs(old_unmatched@);
    let ghost new = derefs(new_unmatched@);
    let pairs = pair_renames(old_unmatched, new_unmatched, cross_file, ranked);
    let ghost ps = pairs_view(pairs@);
    proof {
        lemma_greedy_in_range(old, new, cross_file, views_ranked(ranked@), old.len() as int);
    }
    let ghost cs = changes@;
    let ghost c = cs.len() as int;
    let mut rest = changes;
    let mut items: Vec<FoundChange> = Vec::new();
    let ghost mut i: int = 0;
    while rest.len() > 0
        invariant
            0 <= i <= c,
            c == cs.len(),
            rest@ == cs.skip(i),
            items@.len() == i,
            forall|k: int| 0 <= k < i ==> #[trigger] items@[k].change == cs[k] && items@[k].rename_of is None,
        decreases rest.len(),
    {
        let x = rest.remove(0);
        assert(cs.skip(i).drop_first() =~= cs.skip(i + 1));
        items.push(FoundChange { change: x, rename_of: None });
        proof {
            i = i + 1;
        }
    }
    let mut k: usize = 0;
    while k < pairs.len()
        invariant
            0 <= k <= pairs@.len(),
            c == cs.len(),
            ps == pairs_view(pairs@),
            ps == greedy_renames(old, new, cross_file, views_ranked(ranked@), old.len() as int),
            old == derefs(old_unmatched@),
            new == derefs(new_unmatched@),
            forall|q: int| 0 <= q < ps.len() ==> 0 <= (#[trigger] ps[q]).0 < old.len() && 0 <= ps[q].1 < new.len(),
            items@.len() == c + k,
            forall|q: int| 0 <= q < c ==> #[trigger] items@[q].change == cs[q] && items@[q].rename_of is None,
            forall|q: int|
                c <= q < c + k ==> rename_change(old[ps[q - c].0], new[ps[q - c].1], #[trigger] items@[q].change)
                    && items@[q].rename_of == Some((ps[q - c].0 as usize, ps[q - c].1 as usize)),
        decreases pairs.len() - k,
    {
        let (oi, nj) = pairs[k];
        assert(ps[k as int] == (oi as int, nj as int));
        let ch = create_rename_change(old_unmatched[oi], new_unmatched[nj]);
        let ghost before = items@;
        assert(old[oi as int] == *old_unmatched@[oi as int]);
        assert(new[nj as int] == *new_unmatched@[nj as int]);
        items.push(FoundChange { change: ch, rename_of: Some((oi, nj)) });
        assert(before.len() == c + k);
        assert(items@.drop_last() =~= before);
        assert forall|q: int| c <= q < c + k + 1 implies rename_change(old[ps[q - c].0], new[ps[q - c].1], #[trigger] items@[q].change)
            && items@[q].rename_of == Some((ps[q - c].0 as usize, ps[q - c].1 as usize)) by {
            if q < c + k {
                assert(items@[q] == before[q]);
            }
        }
        assert forall|q: int| 0 <= q < c implies #[trigger] items@[q].change == cs[q] && items@[q].rename_of is None by {
            assert(items@[q] == before[q]);
        }
        k = k + 1;
    }
    let mut paired: Vec<bool> = Vec::new();
    let mut q: usize = 0;
    while q < old_unmatched.len()
        invariant
            0 <= q <= old_unmatched@.len(),
            paired@.len() == q,
            forall|t: int| 0 <= t < q ==> !paired@[t],
        decreases old_unmatched.len() - q,
    {
        paired.push(false);
        q = q + 1;
    }
    let mut k2: usize = 0;
    while k2 < pairs.len()
        invariant
            0 <= k2 <= pairs@.len(),
            ps == pairs_view(pairs@),
            paired@.len() == old_unmatched@.len(),
            old == derefs(old_unmatched@),
            forall|t: int| 0 <= t < ps.len() ==> 0 <= (#[trigger] ps[t]).0 < old.len(),
            forall|t: int| 0 <= t < paired@.len() ==> (paired@[t] <==> #[trigger] paired_old(ps.take(k2 as int)).contains(t)),
        decreases pairs.len() - k2,
    {
        let (oi, _nj) = pairs[k2];
        assert(ps[k2 as int].0 == oi as int);
        proof {
            let pre = ps.take(k2 as int).map_values(|p: (int, int)| p.0);
            assert(ps.take(k2 + 1).map_values(|p: (int, int)| p.0) =~= pre.push(oi as int));
            pre.lemma_push_to_set_commute(oi as int);
            assert(paired_old(ps.take(k2 + 1)) =~= paired_old(ps.take(k2 as int)).insert(oi as int));
        }
        paired.set(oi, true);
        k2 = k2 + 1;
    }
    assert(ps.take(ps.len() as int) =~= ps);
    let ghost p = ps.len() as int;
    let mut t: usize = 0;
    while t < old_unmatched.len()
        invariant
            0 <= t <= old_unmatched@.len(),
            c == cs.len(),
            ps == pairs_view(pairs@),
            p == ps.len(),
            old == derefs(old_unmatched@),
            new == derefs(new_unmatched@),
            paired@.len() == old_unmatched@.len(),
            forall|u: int| 0 <= u < paired@.len() ==> (paired@[u] <==> #[trigger] paired_old(ps).contains(u)),
            items@.len() == c + p + unpaired_upto(ps, t as int).len(),
            forall|u: int| 0 <= u < c ==> #[trigger] items@[u].change == cs[u] && items@[u].rename_of is None,
            forall|u: int|
                c <= u < c + p ==> rename_change(old[ps[u - c].0], new[ps[u - c].1], #[trigger] items@[u].change)
                    && items@[u].rename_of == Some((ps[u - c].0 as usize, ps[u - c].1 as usize)),
            forall|u: int|
                c + p <= u < items@.len() ==> removal_change(
                    sig_id(old[unpaired_upto(ps, t as int)[u - c - p]]),
                    old[unpaired_upto(ps, t as int)[u - c - p]],
                    #[trigger] items@[u].change,
                ) && items@[u].rename_of is None,
        decreases old_unmatched.len() - t,
    {
        let ghost un = unpaired_upto(ps, t as int);
        let ghost un2 = unpaired_upto(ps, t + 1);
        if !paired[t] {
            let name = old_unmatched[t].unique_id();
            let ch = removed_api_change(name.as_str(), old_unmatched[t]);
            let ghost before = items@;
            assert(old[t as int] == *old_unmatched@[t as int]);
            items.push(FoundChange { change: ch, rename_of: None });
            assert(items@.drop_last() =~= before);
            assert(!paired_old(ps).contains(t as int));
            assert(un2 == un.push(t as int));
            assert forall|u: int| c + p <= u < items@.len() implies removal_change(
                sig_id(old[un2[u - c - p]]),
                old[un2[u - c - p]],
                #[trigger] items@[u].change,
            ) && items@[u].rename_of is None by {
                if u < items@.len() - 1 {
                    assert(un2[u - c - p] == un[u - c - p]);
                    assert(items@[u] == before[u]);
                } else {
                    assert(un2[u - c - p] == t as int);
                }
            }
            assert forall|u: int| 0 <= u < c implies #[trigger] items@[u].change == cs[u] && items@[u].rename_of is None by {
                assert(items@[u] == before[u]);
            }
            assert forall|u: int| c <= u < c + p implies rename_change(old[ps[u - c].0], new[ps[u - c].1], #[trigger] items@[u].change)
                && items@[u].rename_of == Some((ps[u - c].0 as usize, ps[u - c].1 as usize)) by {
                assert(items@[u] == before[u]);
            }
        } else {
            assert(paired_old(ps).contains(t as int));
            assert(un2 == un);
        }
        t = t + 1;
    }
    let ghost all = items@;
    assert(found_changes(cs, old, new, ps, all));
    sort_found(items)
}

/// The position of the `a`-th kept signature among the first `n`.
spec fn kept_pos(s: Seq<ApiSignature>, include_private: bool, n: int, a: int) -> int
    decreases n,
{
    if n <= 0 {
        0
    } else if a < kept_upto(s, include_private, n - 1).len() {
        kept_pos(s, include_private, n - 1, a)
    } else {
        n - 1
    }
}

/// Each kept signature stands at a kept position.
proof fn lemma_kept_positions(s: Seq<ApiSignature>, include_private: bool, n: int)
    requires
        0 <= n <= s.len(),
    ensures
        forall|a: int|
            0 <= a < kept_upto(s, include_private, n).len() ==> 0 <= #[trigger] kept_pos(s, include_private, n, a) < n
                && kept_at(s, include_private, kept_pos(s, include_private, n, a))
                && kept_upto(s, include_private, n)[a] == s[kept_pos(s, include_private, n, a)],
    decreases n,
{
    if n > 0 {
        lemma_kept_positions(s, include_private, n - 1);
        let w = kept_upto(s, include_private, n - 1);
        assert forall|a: int| 0 <= a < kept_upto(s, include_private, n).len() implies 0 <= #[trigger] kept_pos(s, include_private, n, a) < n
            && kept_at(s, include_private, kept_pos(s, include_private, n, a))
            && kept_upto(s, include_private, n)[a] == s[kept_pos(s, include_private, n, a)] by {
            if a < w.len() {
                assert(kept_pos(s, include_private, n, a) == kept_pos(s, include_private, n - 1, a));
                assert(kept_upto(s, include_private, n)[a] == w[a]);
            } else {
                assert(kept_upto(s, include_private, n)[a] == s[n - 1]);
            }
        }
    }
}

/// No two kept signatures have one id.
proof fn lemma_kept_distinct(s: Seq<ApiSignature>, include_private: bool, n: int)
    requires
        0 <= n <= s.len(),
    ensures
        forall|a: int, b: int|
            0 <= a < b < kept_upto(s, include_private, n).len() ==> sig_id(
                #[trigger] kept_upto(s, include_private, n)[a],
            ) != sig_id(#[trigger] kept_upto(s, include_private, n)[b]),
    decreases n,
{
    if n > 0 {
        lemma_kept_distinct(s, include_private, n - 1);
        lemma_kept_positions(s, include_private, n - 1);
        let w = kept_upto(s, include_private, n - 1);
        let t = kept_upto(s, include_private, n);
        if kept_at(s, include_private, n - 1) {
            assert forall|a: int, b: int| 0 <= a < b < t.len() implies sig_id(#[trigger] t[a]) != sig_id(#[trigger] t[b]) by {
                if b < w.len() {
                    assert(t[a] == w[a] && t[b] == w[b]);
                } else {
                    assert(t[b] == s[n - 1]);
                    assert(t[a] == w[a]);
                    let p = kept_pos(s, include_private, n - 1, a);
                    assert(considered(s[n - 1], include_private));
                }
            }
        }
    }
}

/// The first signature of a list with the id of the one at `i`, when no two
/// have one id, is that one.
proof fn lemma_first_index_distinct(t: Seq<ApiSignature>, i: int, k: int)
    requires
        0 <= k <= i < t.len(),
        forall|a: int, b: int| 0 <= a < b < t.len() ==> sig_id(#[trigger] t[a]) != sig_id(#[trigger] t[b]),
    ensures
        first_index_from(ids_of(t), sig_id(t[i]), k) == Some(i),
    decreases i - k,
{
    if k < i {
        assert(ids_of(t)[k] == sig_id(t[k]));
        lemma_first_index_distinct(t, i, k + 1);
    } else {
        assert(ids_of(t)[k] == sig_id(t[k]));
    }
}

/// Comparing a signature with itself reports nothing.
proof fn lemma_compare_same(x: ApiSignature, o: Option<DetectedChange>)
    requires
        signature_change_result(x, x, o),
    ensures
        o is None,
{
    match x.return_type {
        Some(t) => lemma_same_type_refl(t),
        None => {},
    }
    assert forall|i: int| 0 <= i < x.parameters@.len() implies !param_differs(#[trigger] x.parameters@[i], x.parameters@[i]) by {
        match x.parameters@[i].type_info {
            Some(t) => lemma_same_type_refl(t),
            None => {},
        }
    }
}

/// No signature of a list lacks its own id.
proof fn lemma_unmatched_self(t: Seq<ApiSignature>, n: int)
    requires
        0 <= n <= t.len(),
    ensures
        unmatched_upto(t, t, n) == Seq::<ApiSignature>::empty(),
    decreases n,
{
    if n > 0 {
        lemma_unmatched_self(t, n - 1);
        assert(ids_of(t)[n - 1] == sig_id(t[n - 1]));
    }
}

/// The changes among outcomes that are all none are none.
proof fn lemma_somes_none(outs: Seq<Option<DetectedChange>>)
    requires
        forall|i: int| 0 <= i < outs.len() ==> #[trigger] outs[i] is None,
    ensures
        somes(outs) == Seq::<DetectedChange>::empty(),
    decreases outs.len(),
{
    if outs.len() > 0 {
        lemma_somes_none(outs.drop_last());
    }
}

/// Law: a version compared with itself shows no change. Every API of its
/// table is matched with itself and compares equal, so no signature change
/// is found and no API is left unmatched; with nothing to rename or remove,
/// the finished list of changes is empty.
pub proof fn law_same_version_no_changes(
    m: StrMap<Vec<ApiSignature>>,
    include_private: bool,
    outs: Seq<Option<DetectedChange>>,
    cross_file: bool,
    ranked: Seq<Seq<usize>>,
    items: Seq<FoundChange>,
)
    requires
        outs.len() == id_table(m, include_private).len(),
        forall|i: int|
            0 <= i < outs.len() ==> compared_at(
                id_table(m, include_private),
                id_table(m, include_private),
                i,
                #[trigger] outs[i],
            ),
        found_changes(
            somes(outs),
            unmatched(id_table(m, include_private), id_table(m, include_private)),
            unmatched(id_table(m, include_private), id_table(m, include_private)),
            greedy_renames(
                unmatched(id_table(m, include_private), id_table(m, include_private)),
                unmatched(id_table(m, include_private), id_table(m, include_private)),
                cross_file,
                ranked,
                unmatched(id_table(m, include_private), id_table(m, include_private)).len() as int,
            ),
            items,
        ),
    ensures
        somes(outs) == Seq::<DetectedChange>::empty(),
        unmatched(id_table(m, include_private), id_table(m, include_private)) == Seq::<ApiSignature>::empty(),
        sorted_changes(items) == Seq::<FoundChange>::empty(),
{
    let s = all_sigs(m);
    let t = id_table(m, include_private);
    lemma_kept_distinct(s, include_private, s.len() as int);
    assert forall|i: int| 0 <= i < outs.len() implies #[trigger] outs[i] is None by {
        lemma_first_index_distinct(t, i, 0);
        lemma_compare_same(t[i], outs[i]);
    }
    lemma_somes_none(outs);
    lemma_unmatched_self(t, t.len() as int);
    assert(unpaired_upto(Seq::<(int, int)>::empty(), 0) == Seq::<int>::empty());
    assert(items.len() == 0);
}

/// No change of the list comes before an earlier one.
pub open spec fn changes_ordered(s: Seq<FoundChange>) -> bool {
    forall|i: int, j: int| 0 <= i < j < s.len() ==> !change_lt(#[trigger] s[j].change, #[trigger] s[i].change)
}

/// The change names the file of a signature of `m` that the detector looks at.
pub open spec fn from_considered_sig(c: DetectedChange, m: StrMap<Vec<ApiSignature>>, include_private: bool) -> bool {
    exists|k: int|
        0 <= k < all_sigs(m).len() && considered(#[trigger] all_sigs(m)[k], include_private)
            && c.file_path@ == all_sigs(m)[k].location.file@
}

/// The order of changes is transitive.
proof fn lemma_change_lt_transitive(a: DetectedChange, b: DetectedChange, c: DetectedChange)
    requires
        change_lt(a, b),
        change_lt(b, c),
    ensures
        change_lt(a, c),
{
    if text_lt_from(a.file_path@, b.file_path@, 0) && text_lt_from(b.file_path@, c.file_path@, 0) {
        lemma_text_lt_transitive(a.file_path@, b.file_path@, c.file_path@, 0);
    }
}

/// No two changes come before each other.
proof fn lemma_change_lt_asymmetric(a: DetectedChange, b: DetectedChange)
    ensures
        !(change_lt(a, b) && change_lt(b, a)),
{
    lemma_text_lt_irreflexive(a.file_path@, 0);
    lemma_text_lt_irreflexive(b.file_path@, 0);
    if text_lt_from(a.file_path@, b.file_path@, 0) && text_lt_from(b.file_path@, a.file_path@, 0) {
        lemma_text_lt_transitive(a.file_path@, b.file_path@, a.file_path@, 0);
    }
}

/// Where a change is inserted: after those it does not come before, before
/// the first it comes before.
proof fn lemma_insert_pos(t: Seq<FoundChange>, x: FoundChange, k: int)
    requires
        0 <= k <= t.len(),
    ensures
        k <= insert_pos_from(t, x, k) <= t.len(),
        forall|q: int| k <= q < insert_pos_from(t, x, k) ==> !change_lt(x.change, #[trigger] t[q].change),
        insert_pos_from(t, x, k) < t.len() ==> change_lt(x.change, t[insert_pos_from(t, x, k)].change),
    decreases t.len() - k,
{
    if k < t.len() && !change_lt(x.change, t[k].change) {
        lemma_insert_pos(t, x, k + 1);
    }
}

/// The ordered changes are in order, and each is one of the given changes.
proof fn lemma_sorted_changes(s: Seq<FoundChange>)
    ensures
        changes_ordered(sorted_changes(s)),
        sorted_changes(s).len() == s.len(),
        forall|k: int|
            #![trigger sorted_changes(s)[k]]
            0 <= k < sorted_changes(s).len() ==> exists|j: int|
                0 <= j < s.len() && #[trigger] s[j] == sorted_changes(s)[k],
    decreases s.len(),
{
    if s.len() > 0 {
        let d = s.drop_last();
        lemma_sorted_changes(d);
        let t = sorted_changes(d);
        let x = s.last();
        let p = insert_pos_from(t, x, 0);
        lemma_insert_pos(t, x, 0);
        let r = t.insert(p, x);
        assert(sorted_changes(s) == r);
        assert forall|i: int, j: int| 0 <= i < j < r.len() implies !change_lt(#[trigger] r[j].change, #[trigger] r[i].change) by {
            if j < p {
                assert(r[i] == t[i] && r[j] == t[j]);
            } else if j == p {
                assert(r[i] == t[i] && r[j] == x);
            } else if i < p {
                assert(r[i] == t[i] && r[j] == t[j - 1]);
            } else if i == p {
                assert(r[i] == x && r[j] == t[j - 1]);
                lemma_change_lt_asymmetric(x.change, t[p].change);
                if j - 1 > p {
                    assert(!change_lt(t[j - 1].change, t[p].change));
                    if change_lt(t[j - 1].change, x.change) {
                        lemma_change_lt_transitive(t[j - 1].change, x.change, t[p].change);
                    }
                }
            } else {
                assert(r[i] == t[i - 1] && r[j] == t[j - 1]);
            }
        }
        assert forall|k: int|
            #![trigger r[k]] 0 <= k < r.len() implies exists|j: int| 0 <= j < s.len() && #[trigger] s[j] == r[k] by {
            if k < p {
                assert(r[k] == t[k]);
                let j = choose|j: int| 0 <= j < d.len() && #[trigger] d[j] == t[k];
                assert(s[j] == d[j]);
            } else if k == p {
                assert(s[s.len() - 1] == r[k]);
            } else {
                assert(r[k] == t[k - 1]);
                let j = choose|j: int| 0 <= j < d.len() && #[trigger] d[j] == t[k - 1];
                assert(s[j] == d[j]);
            }
        }
    }
}

/// The signatures of the table are signatures of the map that the detector
/// looks at.
proof fn lemma_table_members(m: StrMap<Vec<ApiSignature>>, include_private: bool)
    ensures
        forall|a: int|
            0 <= a < id_table(m, include_private).len() ==> 0 <= #[trigger] kept_pos(
                all_sigs(m),
                include_private,
                all_sigs(m).len() as int,
                a,
            ) < all_sigs(m).len() && considered(
                all_sigs(m)[kept_pos(all_sigs(m), include_private, all_sigs(m).len() as int, a)],
                include_private,
            ) && all_sigs(m)[kept_pos(all_sigs(m), include_private, all_sigs(m).len() as int, a)]
                == id_table(m, include_private)[a],
{
    let s = all_sigs(m);
    lemma_kept_positions(s, include_private, s.len() as int);
}

/// The unmatched signatures are signatures of the list they come from.
proof fn lemma_unmatched_members(a: Seq<ApiSignature>, b: Seq<ApiSignature>, n: int)
    requires
        0 <= n <= a.len(),
    ensures
        forall|k: int|
            #![trigger unmatched_upto(a, b, n)[k]]
            0 <= k < unmatched_upto(a, b, n).len() ==> exists|i: int|
                0 <= i < n && #[trigger] a[i] == unmatched_upto(a, b, n)[k],
    decreases n,
{
    if n > 0 {
        lemma_unmatched_members(a, b, n - 1);
        let w = unmatched_upto(a, b, n - 1);
        assert forall|k: int|
            #![trigger unmatched_upto(a, b, n)[k]] 0 <= k < unmatched_upto(a, b, n).len() implies exists|i: int|
            0 <= i < n && #[trigger] a[i] == unmatched_upto(a, b, n)[k] by {
            if k < w.len() {
                assert(unmatched_upto(a, b, n)[k] == w[k]);
                let i = choose|i: int| 0 <= i < n - 1 && #[trigger] a[i] == w[k];
                assert(a[i] == unmatched_upto(a, b, n)[k]);
            } else {
                assert(a[n - 1] == unmatched_upto(a, b, n)[k]);
            }
        }
    }
}

/// Each change among outcomes is one of them.
proof fn lemma_somes_members(outs: Seq<Option<DetectedChange>>)
    ensures
        forall|k: int|
            #![trigger somes(outs)[k]]
            0 <= k < somes(outs).len() ==> exists|i: int|
                0 <= i < outs.len() && #[trigger] outs[i] == Some(somes(outs)[k]),
    decreases outs.len(),
{
    if outs.len() > 0 {
        let d = outs.drop_last();
        lemma_somes_members(d);
        assert forall|k: int|
            #![trigger somes(outs)[k]] 0 <= k < somes(outs).len() implies exists|i: int|
            0 <= i < outs.len() && #[trigger] outs[i] == Some(somes(outs)[k]) by {
            if k < somes(d).len() {
                assert(somes(outs)[k] == somes(d)[k]);
                let i = choose|i: int| 0 <= i < d.len() && #[trigger] d[i] == Some(somes(d)[k]);
                assert(outs[i] == d[i]);
            } else {
                assert(outs[outs.len() - 1] == Some(somes(outs)[k]));
            }
        }
    }
}

/// The positions no rename pairs lie below `n`.
proof fn lemma_unpaired_range(pairs: Seq<(int, int)>, n: int)
    ensures
        forall|k: int| 0 <= k < unpaired_upto(pairs, n).len() ==> 0 <= #[trigger] unpaired_upto(pairs, n)[k] < n,
    decreases n,
{
    if n > 0 {
        lemma_unpaired_range(pairs, n - 1);
        let w = unpaired_upto(pairs, n - 1);
        assert forall|k: int| 0 <= k < unpaired_upto(pairs, n).len() implies 0 <= #[trigger] unpaired_upto(pairs, n)[k] < n by {
            if k < w.len() {
                assert(unpaired_upto(pairs, n)[k] == w[k]);
            }
        }
    }
}

/// Law: the finished changes come ordered by file path and old line, and
/// each names the file of an old signature that the detector looks at (an
/// exported one, unless private ones are included).
pub proof fn law_changes_ordered_from_old(
    old: StrMap<Vec<ApiSignature>>,
    new: StrMap<Vec<ApiSignature>>,
    include_private: bool,
    outs: Seq<Option<DetectedChange>>,
    cross_file: bool,
    ranked: Seq<Seq<usize>>,
    items: Seq<FoundChange>,
)
    requires
        outs.len() == id_table(old, include_private).len(),
        forall|i: int|
            0 <= i < outs.len() ==> compared_at(
                id_table(old, include_private),
                id_table(new, include_private),
                i,
                #[trigger] outs[i],
            ),
        found_changes(
            somes(outs),
            unmatched(id_table(old, include_private), id_table(new, include_private)),
            unmatched(id_table(new, include_private), id_table(old, include_private)),
            greedy_renames(
                unmatched(id_table(old, include_private), id_table(new, include_private)),
                unmatched(id_table(new, include_private), id_table(old, include_private)),
                cross_file,
                ranked,
                unmatched(id_table(old, include_private), id_table(new, include_private)).len() as int,
            ),
            items,
        ),
    ensures
        changes_ordered(sorted_changes(items)),
        forall|k: int|
            0 <= k < sorted_changes(items).len() ==> from_considered_sig(
                #[trigger] sorted_changes(items)[k].change,
                old,
                include_private,
            ),
{
    let ot = id_table(old, include_private);
    let nt = id_table(new, include_private);
    let ou = unmatched(ot, nt);
    let nu = unmatched(nt, ot);
    let ps = greedy_renames(ou, nu, cross_file, ranked, ou.len() as int);
    let c = somes(outs).len() as int;
    let p = ps.len() as int;
    let un = unpaired_upto(ps, ou.len() as int);
    lemma_sorted_changes(items);
    lemma_table_members(old, include_private);
    lemma_unmatched_members(ot, nt, ot.len() as int);
    lemma_somes_members(outs);
    lemma_greedy_in_range(ou, nu, cross_file, ranked, ou.len() as int);
    lemma_unpaired_range(ps, ou.len() as int);
    // Each change names the file of a signature of the old table.
    assert forall|q: int|
            #![trigger items[q]] 0 <= q < items.len() implies exists|a: int|
        0 <= a < ot.len() && (#[trigger] items[q]).change.file_path@ == ot[a].location.file@ by {
        if q < c {
            let i = choose|i: int| 0 <= i < outs.len() && #[trigger] outs[i] == Some(somes(outs)[q]);
            assert(compared_at(ot, nt, i, outs[i]));
            assert(items[q].change.file_path@ == ot[i].location.file@);
        } else if q < c + p {
            let o = ps[q - c].0;
            assert(0 <= o < ou.len());
            let a = choose|a: int| 0 <= a < ot.len() && #[trigger] ot[a] == ou[o];
            assert(items[q].change.file_path@ == ot[a].location.file@);
        } else {
            let o = un[q - c - p];
            assert(0 <= o < ou.len());
            let a = choose|a: int| 0 <= a < ot.len() && #[trigger] ot[a] == ou[o];
            assert(items[q].change.file_path@ == ot[a].location.file@);
        }
    }
    assert forall|k: int| 0 <= k < sorted_changes(items).len() implies from_considered_sig(
        #[trigger] sorted_changes(items)[k].change,
        old,
        include_private,
    ) by {
        let q = choose|q: int| 0 <= q < items.len() && #[trigger] items[q] == sorted_changes(items)[k];
        let a = choose|a: int| 0 <= a < ot.len() && (#[trigger] items[q]).change.file_path@ == ot[a].location.file@;
        let j = kept_pos(all_sigs(old), include_private, all_sigs(old).len() as int, a);
        assert(considered(all_sigs(old)[j], include_private));
        assert(all_sigs(old)[j] == ot[a]);
    }
}

} // verus!

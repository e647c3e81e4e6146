//! Change detection between API versions: edit distance between names and
//! the comparison of signatures.
use vstd::prelude::*;

use super::change::{ApiType, ChangeKind, ChangeMetadata, DetectedChange, Severity};
use super::signature::{
    copy_opt_type, copy_params, param_display_spec, param_names_spec, same_opt_type,
    same_opt_type_exec, same_params, type_display_spec, ApiSignature, Parameter,
};
use crate::codemod::discovery::snapshot::list_has;
use crate::text::{chars_of, push_str, str_eq, views};

verus! {

/// The smallest of three numbers.
pub open spec fn min3(x: int, y: int, z: int) -> int {
    if x <= y && x <= z {
        x
    } else if y <= z {
        y
    } else {
        z
    }
}

/// The Levenshtein distance: the fewest single-character insertions,
/// deletions and substitutions that turn `a` into `b`.
pub open spec fn lev(a: Seq<char>, b: Seq<char>) -> nat
    decreases a.len() + b.len(),
{
    if a.len() == 0 {
        b.len()
    } else if b.len() == 0 {
        a.len()
    } else {
        min3(
            lev(a.drop_last(), b) + 1int,
            lev(a, b.drop_last()) + 1int,
            lev(a.drop_last(), b.drop_last()) as int + if a.last() == b.last() {
                0int
            } else {
                1int
            },
        ) as nat
    }
}

/// The distance never exceeds the longer length.
pub proof fn lemma_lev_upper(a: Seq<char>, b: Seq<char>)
    ensures
        lev(a, b) <= if a.len() >= b.len() {
            a.len()
        } else {
            b.len()
        },
    decreases a.len() + b.len(),
{
    if a.len() > 0 && b.len() > 0 {
        lemma_lev_upper(a.drop_last(), b.drop_last());
    }
}

/// Law: a string is at distance zero from itself.
pub proof fn law_lev_identity(a: Seq<char>)
    ensures
        lev(a, a) == 0,
    decreases a.len(),
{
    if a.len() > 0 {
        law_lev_identity(a.drop_last());
    }
}

/// Law: the distance is zero exactly between equal strings.
pub proof fn law_lev_zero_iff_equal(a: Seq<char>, b: Seq<char>)
    ensures
        lev(a, b) == 0 <==> a == b,
    decreases a.len() + b.len(),
{
    if a == b {
        law_lev_identity(a);
    } else if lev(a, b) == 0 {
        if a.len() == 0 || b.len() == 0 {
            assert(a =~= b);
        } else {
            let z = lev(a.drop_last(), b.drop_last()) as int + if a.last() == b.last() {
                0int
            } else {
                1int
            };
            assert(z == 0);
            law_lev_zero_iff_equal(a.drop_last(), b.drop_last());
            assert(a =~= a.drop_last().push(a.last()));
            assert(b =~= b.drop_last().push(b.last()));
        }
    }
}

/// Law: the distance is symmetric.
pub proof fn law_lev_symmetric(a: Seq<char>, b: Seq<char>)
    ensures
        lev(a, b) == lev(b, a),
    decreases a.len() + b.len(),
{
    if a.len() > 0 && b.len() > 0 {
        law_lev_symmetric(a.drop_last(), b);
        law_lev_symmetric(a, b.drop_last());
        law_lev_symmetric(a.drop_last(), b.drop_last());
    }
}

/// Law: the distance to the empty string is the length.
pub proof fn law_lev_empty(a: Seq<char>)
    ensures
        lev(a, Seq::empty()) == a.len(),
        lev(Seq::empty(), a) == a.len(),
{
}

/// Law: the distance is at least the difference of the lengths, and at most
/// the longer length.
pub proof fn law_lev_bounds(a: Seq<char>, b: Seq<char>)
    ensures
        lev(a, b) >= a.len() - b.len(),
        lev(a, b) >= b.len() - a.len(),
        lev(a, b) <= if a.len() >= b.len() {
            a.len()
        } else {
            b.len()
        },
    decreases a.len() + b.len(),
{
    lemma_lev_upper(a, b);
    if a.len() > 0 && b.len() > 0 {
        law_lev_bounds(a.drop_last(), b);
        law_lev_bounds(a, b.drop_last());
        law_lev_bounds(a.drop_last(), b.drop_last());
    }
}

/// The smaller of two numbers.
fn min_usize(x: usize, y: usize) -> (r: usize)
    ensures
        r == if x <= y {
            x
        } else {
            y
        },
{
    if x <= y {
        x
    } else {
        y
    }
}

/// Calculate the Levenshtein distance between two strings, by character.
pub fn levenshtein_distance(a: &str, b: &str) -> (r: usize)
    requires
        a@.len() < usize::MAX,
        b@.len() < usize::MAX,
    ensures
        r == lev(a@, b@),
{
    let a_chars = chars_of(a);
    let b_chars = chars_of(b);
    let len_a = a_chars.len();
    let len_b = b_chars.len();
    if len_a == 0 {
        return len_b;
    }
    if len_b == 0 {
        return len_a;
    }
    let ghost sa = a_chars@;
    let ghost sb = b_chars@;
    // Row 0: the distance from the empty prefix of `a` to each prefix of `b`.
    let mut prev: Vec<usize> = Vec::new();
    let mut j: usize = 0;
    while j <= len_b
        invariant
            0 <= j <= len_b + 1,
            len_b == sb.len(),
            len_b < usize::MAX,
            prev@.len() == j,
            forall|k: int| 0 <= k < j ==> prev@[k] == lev(sa.take(0), sb.take(k)),
        decreases len_b + 1 - j,
    {
        prev.push(j);
        j = j + 1;
    }
    let mut i: usize = 0;
    while i < len_a
        invariant
            0 <= i <= len_a,
            len_a == sa.len(),
            len_b == sb.len(),
            sa == a_chars@,
            sb == b_chars@,
            len_a < usize::MAX,
            len_b < usize::MAX,
            prev@.len() == len_b + 1,
            forall|k: int| 0 <= k <= len_b ==> prev@[k] == lev(sa.take(i as int), sb.take(k)),
        decreases len_a - i,
    {
        let ghost pa = sa.take(i as int);
        let ghost ca = sa.take(i + 1);
        assert(ca.drop_last() =~= pa);
        assert(ca.last() == sa[i as int]);
        let mut cur: Vec<usize> = Vec::new();
        cur.push(i + 1);
        assert(sb.take(0).len() == 0);
        let mut j: usize = 1;
        while j <= len_b
            invariant
                1 <= j <= len_b + 1,
                i < len_a,
                len_a == sa.len(),
                len_b == sb.len(),
                sa == a_chars@,
                sb == b_chars@,
                len_a < usize::MAX,
                len_b < usize::MAX,
                pa == sa.take(i as int),
                ca == sa.take(i + 1),
                ca.drop_last() == pa,
                ca.last() == sa[i as int],
                prev@.len() == len_b + 1,
                forall|k: int| 0 <= k <= len_b ==> prev@[k] == lev(pa, sb.take(k)),
                cur@.len() == j,
                forall|k: int| 0 <= k < j ==> cur@[k] == lev(ca, sb.take(k)),
            decreases len_b + 1 - j,
        {
            let ghost cb = sb.take(j as int);
            assert(cb.drop_last() =~= sb.take(j - 1));
            assert(cb.last() == sb[j - 1]);
            proof {
                lemma_lev_upper(pa, cb);
                lemma_lev_upper(ca, sb.take(j - 1));
                lemma_lev_upper(pa, sb.take(j - 1));
            }
            let cost: usize = if a_chars[i] == b_chars[j - 1] {
                0
            } else {
                1
            };
            let v = min_usize(min_usize(prev[j] + 1, cur[j - 1] + 1), prev[j - 1] + cost);
            assert(v == lev(ca, cb));
            cur.push(v);
            j = j + 1;
        }
        prev = cur;
        i = i + 1;
    }
    assert(sa.take(len_a as int) =~= sa);
    assert(sb.take(len_b as int) =~= sb);
    prev[len_b]
}


/// Every name of `a` occurs in `b`.
pub open spec fn all_in(a: Seq<Seq<char>>, b: Seq<Seq<char>>) -> bool {
    forall|i: int| 0 <= i < a.len() ==> b.contains(#[trigger] a[i])
}

/// `k` is the first position of `a` whose name does not occur in `b`.
pub open spec fn first_missing(a: Seq<Seq<char>>, b: Seq<Seq<char>>, k: int) -> bool {
    &&& 0 <= k < a.len()
    &&& !b.contains(a[k])
    &&& forall|j: int| 0 <= j < k ==> b.contains(#[trigger] a[j])
}

/// Two parameter lists differ: in length, or at some position in name or type.
pub open spec fn params_differ_spec(old: Seq<Parameter>, new: Seq<Parameter>) -> bool {
    old.len() != new.len() || exists|i: int|
        0 <= i < old.len() && #[trigger] param_differs(old[i], new[i])
}

/// Two parameters differ in name or type.
pub open spec fn param_differs(a: Parameter, b: Parameter) -> bool {
    a.name@ != b.name@ || !same_opt_type(a.type_info, b.type_info)
}

/// The same names in another order: equal lengths, equal name sets, and the
/// name sequences differ.
pub open spec fn is_reorder(old: Seq<Parameter>, new: Seq<Parameter>) -> bool {
    let on = param_names_spec(old);
    let nn = param_names_spec(new);
    &&& old.len() == new.len()
    &&& all_in(on, nn)
    &&& all_in(nn, on)
    &&& on != nn
}

/// The parameters changed in a way that names one parameter or the order.
pub open spec fn has_param_change(old: ApiSignature, new: ApiSignature) -> bool {
    let on = param_names_spec(old.parameters@);
    let nn = param_names_spec(new.parameters@);
    is_reorder(old.parameters@, new.parameters@) || !all_in(nn, on) || !all_in(on, nn)
}

/// `c` reports that the parameters of `old` were reordered into those of `new`.
pub open spec fn reorder_change(old: ApiSignature, new: ApiSignature, c: DetectedChange) -> bool {
    &&& c.kind matches ChangeKind::ParameterReordered { function_name, old_order, new_order }
        && function_name@ == old.name@ && views(old_order@) == param_names_spec(old.parameters@)
        && views(new_order@) == param_names_spec(new.parameters@)
    &&& c.file_path@ == old.location.file@
    &&& c.original is None
    &&& c.replacement is None
    &&& ChangeMetadata::with_notes(
        Severity::Breaking,
        "Parameters of '"@ + old.name@ + "' were reordered"@,
        c.metadata,
    )
}

/// `c` reports the parameter at position `k` of `new` as added.
pub open spec fn added_change(old: ApiSignature, new: ApiSignature, k: int, c: DetectedChange) -> bool {
    let p = new.parameters@[k];
    let defaulted = p.has_default || p.is_optional;
    &&& c.kind matches ChangeKind::ParameterAdded {
        function_name,
        param_name,
        param_type,
        position,
        has_default,
    } && function_name@ == old.name@ && param_name@ == p.name@ && same_opt_type(
        param_type,
        p.type_info,
    ) && position == k && has_default == defaulted
    &&& c.file_path@ == old.location.file@
    &&& c.original is None
    &&& c.replacement is None
    &&& c.metadata.old_line == Some(old.location.line)
    &&& c.metadata.new_line == Some(new.location.line)
    &&& c.metadata.severity == if defaulted {
        Severity::Warning
    } else {
        Severity::Breaking
    }
    &&& c.metadata.migration_notes matches Some(n) && n@ == "Parameter '"@ + p.name@
        + "' added to '"@ + old.name@ + "'"@
}

/// `c` reports the parameter at position `k` of `old` as removed.
pub open spec fn removed_change(old: ApiSignature, new: ApiSignature, k: int, c: DetectedChange) -> bool {
    let p = old.parameters@[k];
    &&& c.kind matches ChangeKind::ParameterRemoved { function_name, param_name, position }
        && function_name@ == old.name@ && param_name@ == p.name@ && position == k
    &&& c.file_path@ == old.location.file@
    &&& c.original is None
    &&& c.replacement is None
    &&& ChangeMetadata::with_notes(
        Severity::Breaking,
        "Parameter '"@ + p.name@ + "' removed from '"@ + old.name@ + "'"@,
        c.metadata,
    )
}

/// What the parameter comparison reports: a reordering first; else the first
/// new parameter whose name is not among the old ones; else the first old
/// parameter whose name is not among the new ones; else nothing.
pub open spec fn parameter_change_result(
    old: ApiSignature,
    new: ApiSignature,
    r: Option<DetectedChange>,
) -> bool {
    let on = param_names_spec(old.parameters@);
    let nn = param_names_spec(new.parameters@);
    if is_reorder(old.parameters@, new.parameters@) {
        r matches Some(c) && reorder_change(old, new, c)
    } else if !all_in(nn, on) {
        r matches Some(c) && exists|k: int| #[trigger] first_missing(nn, on, k) && added_change(old, new, k, c)
    } else if !all_in(on, nn) {
        r matches Some(c) && exists|k: int| #[trigger] first_missing(on, nn, k) && removed_change(old, new, k, c)
    } else {
        r is None
    }
}

/// The display texts of parameters, joined by `", "`.
pub open spec fn params_display_spec(ps: Seq<Parameter>) -> Seq<char>
    decreases ps.len(),
{
    if ps.len() == 0 {
        Seq::empty()
    } else if ps.len() == 1 {
        param_display_spec(ps[0])
    } else {
        params_display_spec(ps.drop_last()) + ", "@ + param_display_spec(ps.last())
    }
}

/// The text of a signature: `name(params) -> ret`.
pub open spec fn signature_text(sig: ApiSignature) -> Seq<char> {
    sig.name@ + "("@ + params_display_spec(sig.parameters@) + ")"@ + match sig.return_type {
        Some(t) => " -> "@ + type_display_spec(t),
        None => Seq::empty(),
    }
}

/// `c` reports a general change of signature from `old` to `new`; breaking
/// when the parameters changed, a warning when only the return type did.
pub open spec fn general_change(
    old: ApiSignature,
    new: ApiSignature,
    params_changed: bool,
    c: DetectedChange,
) -> bool {
    &&& c.kind matches ChangeKind::SignatureChanged {
        name,
        old_params,
        new_params,
        old_return,
        new_return,
    } && name@ == old.name@ && same_params(old_params@, old.parameters@) && same_params(
        new_params@,
        new.parameters@,
    ) && same_opt_type(old_return, old.return_type) && same_opt_type(new_return, new.return_type)
    &&& c.file_path@ == old.location.file@
    &&& c.original matches Some(o) && o@ == signature_text(old)
    &&& c.replacement matches Some(n) && n@ == signature_text(new)
    &&& c.metadata.old_line == Some(old.location.line)
    &&& c.metadata.new_line == Some(new.location.line)
    &&& c.metadata.severity == if params_changed {
        Severity::Breaking
    } else {
        Severity::Warning
    }
    &&& c.metadata.migration_notes matches Some(n) && n@ == "Function '"@ + old.name@
        + "' signature changed"@
}

/// What comparing two signatures of one API reports: nothing for what is
/// not a function or method, or when neither parameters nor return type
/// changed; a parameter change where there is one; else a general change.
pub open spec fn signature_change_result(
    old: ApiSignature,
    new: ApiSignature,
    r: Option<DetectedChange>,
) -> bool {
    let pc = params_differ_spec(old.parameters@, new.parameters@);
    let rc = !same_opt_type(old.return_type, new.return_type);
    if !(old.kind is Function || old.kind is Method) || (!pc && !rc) {
        r is None
    } else if has_param_change(old, new) {
        parameter_change_result(old, new, r)
    } else {
        r matches Some(c) && general_change(old, new, pc, c)
    }
}

/// The names of a parameter list.
fn names_of(ps: &Vec<Parameter>) -> (r: Vec<String>)
    ensures
        views(r@) == param_names_spec(ps@),
{
    let mut r: Vec<String> = Vec::new();
    let mut i: usize = 0;
    while i < ps.len()
        invariant
            0 <= i <= ps.len(),
            views(r@) == param_names_spec(ps@.take(i as int)),
        decreases ps.len() - i,
    {
        r.push(ps[i].name.clone());
        assert(param_names_spec(ps@.take(i + 1)) =~= param_names_spec(ps@.take(i as int)).push(
            ps@[i as int].name@,
        ));
        assert(views(r@) =~= views(r@.drop_last()).push(r@.last()@));
        i = i + 1;
    }
    assert(ps@.take(ps.len() as int) =~= ps@);
    r
}

/// The first position of `a` whose string does not occur in `b`.
fn first_missing_exec(a: &Vec<String>, b: &Vec<String>) -> (r: Option<usize>)
    ensures
        match r {
            Some(k) => first_missing(views(a@), views(b@), k as int),
            None => all_in(views(a@), views(b@)),
        },
{
    let mut i: usize = 0;
    while i < a.len()
        invariant
            0 <= i <= a.len(),
            forall|j: int| 0 <= j < i ==> views(b@).contains(#[trigger] views(a@)[j]),
        decreases a.len() - i,
    {
        assert(views(a@)[i as int] == a@[i as int]@);
        if !list_has(b, a[i].as_str()) {
            return Some(i);
        }
        i = i + 1;
    }
    None
}

/// Two lists of strings are equal.
fn names_equal(a: &Vec<String>, b: &Vec<String>) -> (r: bool)
    ensures
        r == (views(a@) == views(b@)),
{
    if a.len() != b.len() {
        assert(views(a@).len() != views(b@).len());
        return false;
    }
    let mut i: usize = 0;
    while i < a.len()
        invariant
            0 <= i <= a.len(),
            a.len() == b.len(),
            forall|j: int| 0 <= j < i ==> views(a@)[j] == views(b@)[j],
        decreases a.len() - i,
    {
        if !str_eq(a[i].as_str(), b[i].as_str()) {
            assert(views(a@)[i as int] != views(b@)[i as int]);
            return false;
        }
        i = i + 1;
    }
    assert(views(a@) =~= views(b@));
    true
}

/// Whether two parameter lists differ in length, or at some position in
/// name or type.
pub fn params_differ(old: &[Parameter], new: &[Parameter]) -> (r: bool)
    ensures
        r == params_differ_spec(old@, new@),
{
    if old.len() != new.len() {
        return true;
    }
    let mut i: usize = 0;
    while i < old.len()
        invariant
            0 <= i <= old.len(),
            old.len() == new.len(),
            forall|j: int| 0 <= j < i ==> !#[trigger] param_differs(old@[j], new@[j]),
        decreases old.len() - i,
    {
        if !str_eq(old[i].name.as_str(), new[i].name.as_str()) || !same_opt_type_exec(
            &old[i].type_info,
            &new[i].type_info,
        ) {
            assert(param_differs(old@[i as int], new@[i as int]));
            return true;
        }
        assert(!param_differs(old@[i as int], new@[i as int]));
        i = i + 1;
    }
    false
}

/// The display texts of the first `n` parameters, joined by `", "`.
fn params_display(ps: &Vec<Parameter>) -> (r: String)
    ensures
        r@ == params_display_spec(ps@),
{
    let mut s = String::new();
    let mut i: usize = 0;
    while i < ps.len()
        invariant
            0 <= i <= ps.len(),
            s@ == params_display_spec(ps@.take(i as int)),
        decreases ps.len() - i,
    {
        if i > 0 {
            push_str(&mut s, ", ");
        }
        let d = ps[i].display();
        push_str(&mut s, d.as_str());
        assert(ps@.take(i + 1).drop_last() =~= ps@.take(i as int));
        i = i + 1;
    }
    assert(ps@.take(ps.len() as int) =~= ps@);
    s
}

/// The text of a signature: `name(params) -> ret`.
pub fn format_signature(sig: &ApiSignature) -> (r: String)
    ensures
        r@ == signature_text(*sig),
{
    let mut s = sig.name.clone();
    push_str(&mut s, "(");
    let params = params_display(&sig.parameters);
    push_str(&mut s, params.as_str());
    push_str(&mut s, ")");
    match &sig.return_type {
        Some(t) => {
            push_str(&mut s, " -> ");
            let d = t.display();
            push_str(&mut s, d.as_str());
        },
        None => {},
    }
    s
}

/// Compare the parameter lists of two signatures of one function: report a
/// reordering, else the first added parameter, else the first removed one.
pub fn detect_parameter_changes(old_sig: &ApiSignature, new_sig: &ApiSignature) -> (r: Option<
    DetectedChange,
>)
    ensures
        parameter_change_result(*old_sig, *new_sig, r),
{
    let old_names = names_of(&old_sig.parameters);
    let new_names = names_of(&new_sig.parameters);
    let ghost on = param_names_spec(old_sig.parameters@);
    let ghost nn = param_names_spec(new_sig.parameters@);
    let added = first_missing_exec(&new_names, &old_names);
    let removed = first_missing_exec(&old_names, &new_names);
    if old_sig.parameters.len() == new_sig.parameters.len() && added.is_none() && removed.is_none()
        && !names_equal(&old_names, &new_names) {
        let mut notes = String::new();
        push_str(&mut notes, "Parameters of '");
        push_str(&mut notes, old_sig.name.as_str());
        push_str(&mut notes, "' were reordered");
        let c = DetectedChange {
            kind: ChangeKind::ParameterReordered {
                function_name: old_sig.name.clone(),
                old_order: old_names,
                new_order: new_names,
            },
            file_path: old_sig.location.file.clone(),
            original: None,
            replacement: None,
            metadata: ChangeMetadata::breaking(notes.as_str()),
        };
        return Some(c);
    }
    assert(!is_reorder(old_sig.parameters@, new_sig.parameters@));
    match added {
        Some(k) => {
            let p = &new_sig.parameters[k];
            let defaulted = p.has_default || p.is_optional;
            let mut notes = String::new();
            push_str(&mut notes, "Parameter '");
            push_str(&mut notes, p.name.as_str());
            push_str(&mut notes, "' added to '");
            push_str(&mut notes, old_sig.name.as_str());
            push_str(&mut notes, "'");
            let c = DetectedChange {
                kind: ChangeKind::ParameterAdded {
                    function_name: old_sig.name.clone(),
                    param_name: p.name.clone(),
                    param_type: copy_opt_type(&p.type_info),
                    position: k,
                    has_default: defaulted,
                },
                file_path: old_sig.location.file.clone(),
                original: None,
                replacement: None,
                metadata: ChangeMetadata {
                    old_line: Some(old_sig.location.line),
                    new_line: Some(new_sig.location.line),
                    severity: if defaulted {
                        Severity::Warning
                    } else {
                        Severity::Breaking
                    },
                    migration_notes: Some(notes),
                },
            };
            assert(first_missing(nn, on, k as int));
            return Some(c);
        },
        None => {},
    }
    match removed {
        Some(k) => {
            let p = &old_sig.parameters[k];
            let mut notes = String::new();
            push_str(&mut notes, "Parameter '");
            push_str(&mut notes, p.name.as_str());
            push_str(&mut notes, "' removed from '");
            push_str(&mut notes, old_sig.name.as_str());
            push_str(&mut notes, "'");
            let c = DetectedChange {
                kind: ChangeKind::ParameterRemoved {
                    function_name: old_sig.name.clone(),
                    param_name: p.name.clone(),
                    position: k,
                },
                file_path: old_sig.location.file.clone(),
                original: None,
                replacement: None,
                metadata: ChangeMetadata::breaking(notes.as_str()),
            };
            assert(first_missing(on, nn, k as int));
            Some(c)
        },
        None => None,
    }
}

/// Compare two signatures of one API: nothing for what is not a function or
/// method or did not change, else the parameter change, else a general
/// change of signature.
pub fn detect_signature_change(old_sig: &ApiSignature, new_sig: &ApiSignature) -> (r: Option<
    DetectedChange,
>)
    ensures
        signature_change_result(*old_sig, *new_sig, r),
{
    match old_sig.kind {
        ApiType::Function | ApiType::Method => {},
        _ => {
            return None;
        },
    }
    let params_changed = params_differ(old_sig.parameters.as_slice(), new_sig.parameters.as_slice());
    let return_changed = !same_opt_type_exec(&old_sig.return_type, &new_sig.return_type);
    if !params_changed && !return_changed {
        return None;
    }
    match detect_parameter_changes(old_sig, new_sig) {
        Some(c) => {
            return Some(c);
        },
        None => {},
    }
    let mut notes = String::new();
    push_str(&mut notes, "Function '");
    push_str(&mut notes, old_sig.name.as_str());
    push_str(&mut notes, "' signature changed");
    let c = DetectedChange {
        kind: ChangeKind::SignatureChanged {
            name: old_sig.name.clone(),
            old_params: copy_params(&old_sig.parameters),
            new_params: copy_params(&new_sig.parameters),
            old_return: copy_opt_type(&old_sig.return_type),
            new_return: copy_opt_type(&new_sig.return_type),
        },
        file_path: old_sig.location.file.clone(),
        original: Some(format_signature(old_sig)),
        replacement: Some(format_signature(new_sig)),
        metadata: ChangeMetadata {
            old_line: Some(old_sig.location.line),
            new_line: Some(new_sig.location.line),
            severity: if params_changed {
                Severity::Breaking
            } else {
                Severity::Warning
            },
            migration_notes: Some(notes),
        },
    };
    Some(c)
}

/// The API kinds that are types: classes, structs, enums, interfaces and
/// type aliases. A rename of one of these is a type rename; of any other
/// kind, a function rename.
pub open spec fn is_type_kind(k: ApiType) -> bool {
    ||| k is Class
    ||| k is Struct
    ||| k is Enum
    ||| k is Interface
    ||| k is TypeAlias
}

/// `c` reports `old` as renamed to `new`.
pub open spec fn rename_change(old: ApiSignature, new: ApiSignature, c: DetectedChange) -> bool {
    &&& if is_type_kind(old.kind) {
        c.kind matches ChangeKind::TypeRenamed { old_name, new_name } && old_name@ == old.name@
            && new_name@ == new.name@
    } else {
        c.kind matches ChangeKind::FunctionRenamed { old_name, new_name, mod_path }
            && old_name@ == old.name@ && new_name@ == new.name@ && match (mod_path, old.mod_path) {
            (Some(a), Some(b)) => a@ == b@,
            (None, None) => true,
            _ => false,
        }
    }
    &&& c.file_path@ == old.location.file@
    &&& c.original matches Some(o) && o@ == old.name@
    &&& c.replacement matches Some(n) && n@ == new.name@
    &&& c.metadata.old_line == Some(old.location.line)
    &&& c.metadata.new_line == Some(new.location.line)
    &&& c.metadata.severity == Severity::Breaking
    &&& c.metadata.migration_notes matches Some(n) && n@ == crate::analyzer::change::api_type_name(
        old.kind,
    ) + " '"@ + old.name@ + "' renamed to '"@ + new.name@ + "'"@
}

/// The change that reports `old` as renamed to `new`, with its kind by the
/// API type and the line of each.
pub fn create_rename_change(old_sig: &ApiSignature, new_sig: &ApiSignature) -> (r: DetectedChange)
    ensures
        rename_change(*old_sig, *new_sig, r),
{
    let kind = match old_sig.kind {
        ApiType::Class | ApiType::Struct | ApiType::Enum | ApiType::Interface
        | ApiType::TypeAlias => ChangeKind::TypeRenamed {
            old_name: old_sig.name.clone(),
            new_name: new_sig.name.clone(),
        },
        _ => ChangeKind::FunctionRenamed {
            old_name: old_sig.name.clone(),
            new_name: new_sig.name.clone(),
            mod_path: match &old_sig.mod_path {
                Some(p) => Some(p.clone()),
                None => None,
            },
        },
    };
    let mut notes = String::new();
    push_str(&mut notes, old_sig.kind.name());
    push_str(&mut notes, " '");
    push_str(&mut notes, old_sig.name.as_str());
    push_str(&mut notes, "' renamed to '");
    push_str(&mut notes, new_sig.name.as_str());
    push_str(&mut notes, "'");
    DetectedChange {
        kind,
        file_path: old_sig.location.file.clone(),
        original: Some(old_sig.name.clone()),
        replacement: Some(new_sig.name.clone()),
        metadata: ChangeMetadata {
            old_line: Some(old_sig.location.line),
            new_line: Some(new_sig.location.line),
            severity: Severity::Breaking,
            migration_notes: Some(notes),
        },
    }
}

/// `c` reports the API known by `name`, with signature `old`, as removed:
/// breaking, with the name as the original text.
pub open spec fn removal_change(name: Seq<char>, old: ApiSignature, c: DetectedChange) -> bool {
    &&& c.kind matches ChangeKind::ApiRemoved { name: n, api_type } && n@ == name && api_type == old.kind
    &&& c.file_path@ == old.location.file@
    &&& c.original matches Some(o) && o@ == name
    &&& c.replacement is None
    &&& ChangeMetadata::with_notes(
        Severity::Breaking,
        crate::analyzer::change::api_type_name(old.kind) + " '"@ + name + "' was removed"@,
        c.metadata,
    )
}

/// The change that reports the API known by `name` as removed: breaking,
/// with the name as the original text.
pub fn removed_api_change(name: &str, old_sig: &ApiSignature) -> (r: DetectedChange)
    ensures
        removal_change(name@, *old_sig, r),
{
    let mut notes = String::new();
    push_str(&mut notes, old_sig.kind.name());
    push_str(&mut notes, " '");
    push_str(&mut notes, name);
    push_str(&mut notes, "' was removed");
    DetectedChange {
        kind: ChangeKind::ApiRemoved { name: crate::text::copy_str(name), api_type: old_sig.kind },
        file_path: old_sig.location.file.clone(),
        original: Some(crate::text::copy_str(name)),
        replacement: None,
        metadata: ChangeMetadata::breaking(notes.as_str()),
    }
}

/// Old API `i` may be renamed to new API `j`: both are of one kind, and,
/// unless renames may cross files, in one file.
pub open spec fn rename_allowed(old: Seq<ApiSignature>, new: Seq<ApiSignature>, cross_file: bool, i: int, j: int) -> bool {
    &&& 0 <= j < new.len()
    &&& old[i].kind == new[j].kind
    &&& (cross_file || old[i].location.file@ == new[j].location.file@)
}

/// The first of the ranked candidates of old API `i` that it may be renamed
/// to and that no earlier rename took.
pub open spec fn first_free(
    old: Seq<ApiSignature>,
    new: Seq<ApiSignature>,
    cross_file: bool,
    i: int,
    cands: Seq<usize>,
    taken: Set<int>,
) -> Option<int>
    decreases cands.len(),
{
    if cands.len() == 0 {
        None
    } else if rename_allowed(old, new, cross_file, i, cands[0] as int) && !taken.contains(cands[0] as int) {
        Some(cands[0] as int)
    } else {
        first_free(old, new, cross_file, i, cands.drop_first(), taken)
    }
}

/// The new APIs taken by a list of renames.
pub open spec fn taken_by(pairs: Seq<(int, int)>) -> Set<int> {
    pairs.map_values(|p: (int, int)| p.1).to_set()
}

/// The renames of the first `n` old APIs, each in turn taking its best
/// ranked candidate that is still free: a list of (old, new) index pairs.
pub open spec fn greedy_renames(
    old: Seq<ApiSignature>,
    new: Seq<ApiSignature>,
    cross_file: bool,
    ranked: Seq<Seq<usize>>,
    n: int,
) -> Seq<(int, int)>
    decreases n,
{
    if n <= 0 {
        Seq::empty()
    } else {
        let prev = greedy_renames(old, new, cross_file, ranked, n - 1);
        match first_free(old, new, cross_file, n - 1, ranked[n - 1], taken_by(prev)) {
            Some(j) => prev.push((n - 1, j)),
            None => prev,
        }
    }
}

/// The index pairs as integers.
pub open spec fn pairs_view(v: Seq<(usize, usize)>) -> Seq<(int, int)> {
    v.map_values(|p: (usize, usize)| (p.0 as int, p.1 as int))
}

/// Whether two API kinds are the same.
fn same_kind(a: ApiType, b: ApiType) -> (r: bool)
    ensures
        r == (a == b),
{
    a == b
}

/// Pair unmatched old APIs with the unmatched new APIs they were renamed
/// to. `ranked[i]` lists the new APIs similar enough to old API `i`, most
/// similar first; each old API in turn takes the first of them that has its
/// kind, stands in its file unless renames may cross files, and is not
/// taken yet.
pub fn pair_renames(old: &Vec<&ApiSignature>, new: &Vec<&ApiSignature>, cross_file: bool, ranked: &Vec<Vec<usize>>) -> (r: Vec<(usize, usize)>)
    requires
        ranked@.len() == old@.len(),
    ensures
        pairs_view(r@) == greedy_renames(derefs(old@), derefs(new@), cross_file, views_ranked(ranked@), old@.len() as int),
{
    let mut pairs: Vec<(usize, usize)> = Vec::new();
    let mut taken: Vec<bool> = Vec::new();
    let mut k: usize = 0;
    while k < new.len()
        invariant
            0 <= k <= new.len(),
            taken@.len() == k,
            forall|q: int| 0 <= q < k ==> !taken@[q],
        decreases new.len() - k,
    {
        taken.push(false);
        k = k + 1;
    }
    let ghost rk = views_ranked(ranked@);
    let mut i: usize = 0;
    while i < old.len()
        invariant
            0 <= i <= old.len(),
            ranked@.len() == old@.len(),
            rk == views_ranked(ranked@),
            taken@.len() == new.len(),
            pairs_view(pairs@) == greedy_renames(derefs(old@), derefs(new@), cross_file, rk, i as int),
            forall|q: int| 0 <= q < new.len() ==> (taken@[q] <==> taken_by(pairs_view(pairs@)).contains(q)),
            forall|q: int| #![trigger taken_by(pairs_view(pairs@)).contains(q)]
                taken_by(pairs_view(pairs@)).contains(q) ==> 0 <= q < new.len(),
        decreases old.len() - i,
    {
        let cands = &ranked[i];
        let ghost tk = taken_by(pairs_view(pairs@));
        let mut c: usize = 0;
        let mut found: Option<usize> = None;
        assert(cands@.skip(0) =~= cands@);
        while c < cands.len() && found.is_none()
            invariant
                0 <= c <= cands.len(),
                i < old.len(),
                taken@.len() == new.len(),
                cands@ == rk[i as int],
                forall|q: int| 0 <= q < new.len() ==> (taken@[q] <==> tk.contains(q)),
                forall|q: int| #![trigger tk.contains(q)] tk.contains(q) ==> 0 <= q < new.len(),
                rk.len() == old@.len(),
                found matches Some(j) ==> j < new.len(),
                match found {
                    None => first_free(derefs(old@), derefs(new@), cross_file, i as int, cands@, tk)
                        == first_free(derefs(old@), derefs(new@), cross_file, i as int, cands@.skip(c as int), tk),
                    Some(j) => first_free(derefs(old@), derefs(new@), cross_file, i as int, cands@, tk) == Some(j as int),
                },
            decreases cands.len() - c + (if found is None { 1int } else { 0int }),
        {
            let j = cands[c];
            assert(cands@.skip(c as int)[0] == j);
            assert(cands@.skip(c as int).drop_first() =~= cands@.skip(c + 1));
            if j < new.len() && same_kind(old[i].kind, new[j].kind)
                && (cross_file || str_eq(old[i].location.file.as_str(), new[j].location.file.as_str()))
                && !taken[j] {
                found = Some(j);
            } else {
                c = c + 1;
            }
        }
        proof {
            if found is None {
                assert(cands@.skip(c as int).len() == 0);
            }
        }
        match found {
            Some(j) => {
                let ghost before = pairs_view(pairs@);
                pairs.push((i, j));
                taken.set(j, true);
                assert(pairs_view(pairs@) =~= before.push((i as int, j as int)));
                assert(taken_by(pairs_view(pairs@)) =~= tk.insert(j as int)) by {
                    assert(pairs_view(pairs@).map_values(|p: (int, int)| p.1) =~= before.map_values(
                        |p: (int, int)| p.1,
                    ).push(j as int));
                    before.map_values(|p: (int, int)| p.1).lemma_push_to_set_commute(j as int);
                }
            },
            None => {},
        }
        i = i + 1;
    }
    pairs
}

/// The signatures that a list of borrowed signatures points to.
pub open spec fn derefs(s: Seq<&ApiSignature>) -> Seq<ApiSignature> {
    s.map_values(|r: &ApiSignature| *r)
}

/// The candidate lists as sequences.
pub open spec fn views_ranked(r: Seq<Vec<usize>>) -> Seq<Seq<usize>> {
    r.map_values(|v: Vec<usize>| v@)
}

} // verus!

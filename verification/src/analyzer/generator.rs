//! Turning detected API changes into source transforms and report lines.
use vstd::prelude::*;

use super::change::{api_type_name, change_kind_name, is_auto_transformable_spec, ChangeKind, Severity};
use crate::text::{copy_str, decimal, push_str, u64_to_string};

verus! {

/// A source transformation that an API change calls for.
#[derive(Debug, Clone)]
pub enum Transform {
    FunctionRename { old_name: String, new_name: String },
    TypeRename { old_name: String, new_name: String },
    ImportRename { old_path: String, new_path: String },
    MethodMove { method_name: String, old_location: String, new_location: String },
    ConstantUpdate { name: String, old_value: String, new_value: String },
}

/// The characters that have a meaning in a regular expression
/// (`regex_syntax::is_meta_character`).
pub open spec fn is_meta_char(c: char) -> bool {
    c == '\\' || c == '.' || c == '+' || c == '*' || c == '?' || c == '(' || c == ')' || c == '|'
        || c == '[' || c == ']' || c == '{' || c == '}' || c == '^' || c == '$' || c == '#' || c
        == '&' || c == '-' || c == '~'
}

/// The text with a backslash before every meta character.
pub open spec fn regex_escaped(s: Seq<char>) -> Seq<char>
    decreases s.len(),
{
    if s.len() == 0 {
        Seq::empty()
    } else {
        let rest = regex_escaped(s.drop_last());
        if is_meta_char(s.last()) {
            rest.push('\\').push(s.last())
        } else {
            rest.push(s.last())
        }
    }
}

/// `regex::escape`: the text with a backslash before each regex meta
/// character (`\ . + * ? ( ) | [ ] { } ^ $ # & - ~`), as the regex-syntax
/// source writes it.
#[verifier::external_body]
pub(crate) fn regex_escape(s: &str) -> (r: String)
    ensures
        r@ == regex_escaped(s@),
{
    regex::escape(s)
}

/// The regex pattern and replacement that carry out a transform: calls of a
/// renamed function (also with a turbofish), whole-word uses of a renamed
/// type, quoted import paths, calls of a moved method on its old location,
/// and literal constant values.
pub open spec fn pattern_replacement(t: Transform) -> (Seq<char>, Seq<char>) {
    match t {
        Transform::FunctionRename { old_name, new_name } => (
            "\\b"@ + regex_escaped(old_name@) + "\\s*(\\(|::<)"@,
            new_name@ + "$1"@,
        ),
        Transform::TypeRename { old_name, new_name } => (
            "\\b"@ + regex_escaped(old_name@) + "\\b"@,
            new_name@,
        ),
        Transform::ImportRename { old_path, new_path } => (
            "(['\"])"@ + regex_escaped(old_path@) + "\\1"@,
            "$1"@ + new_path@ + "$1"@,
        ),
        Transform::MethodMove { method_name, old_location, new_location } => (
            regex_escaped(old_location@) + "\\."@ + regex_escaped(method_name@),
            new_location@ + "."@ + method_name@,
        ),
        Transform::ConstantUpdate { name: _, old_value, new_value } => (
            regex_escaped(old_value@),
            new_value@,
        ),
    }
}

/// Law: each transform rewrites to the new name it carries: a function
/// rename replaces the call's name by the new name, keeping the call's `(`
/// or turbofish; a type rename gives the new type name; an import rename
/// the new path in the same quotes; a method move calls the method on its
/// new location (`new_location.method_name`); a constant update gives the
/// new value. Each pattern looks for the escaped old text.
pub proof fn law_transform_rewrites_to_new(t: Transform)
    ensures
        t matches Transform::FunctionRename { old_name, new_name } ==> pattern_replacement(t) == (
            "\\b"@ + regex_escaped(old_name@) + "\\s*(\\(|::<)"@,
            new_name@ + "$1"@,
        ),
        t matches Transform::TypeRename { old_name, new_name } ==> pattern_replacement(t) == (
            "\\b"@ + regex_escaped(old_name@) + "\\b"@,
            new_name@,
        ),
        t matches Transform::ImportRename { old_path, new_path } ==> pattern_replacement(t).1 == "$1"@
            + new_path@ + "$1"@ && pattern_replacement(t).0 == "(['\"])"@ + regex_escaped(old_path@)
            + "\\1"@,
        t matches Transform::MethodMove { method_name, old_location, new_location } ==> pattern_replacement(t)
            == (regex_escaped(old_location@) + "\\."@ + regex_escaped(method_name@), new_location@ + "."@
            + method_name@),
        t matches Transform::ConstantUpdate { name, old_value, new_value } ==> pattern_replacement(t) == (
            regex_escaped(old_value@),
            new_value@,
        ),
{
}

/// A string made of three parts.
pub(crate) fn cat3(a: &str, b: &str, c: &str) -> (r: String)
    ensures
        r@ == a@ + b@ + c@,
{
    let mut s = copy_str(a);
    push_str(&mut s, b);
    push_str(&mut s, c);
    s
}

impl Transform {
    /// The regex pattern and replacement that carry out this transform.
    pub fn to_pattern_replacement(&self) -> (r: (String, String))
        ensures
            (r.0@, r.1@) == pattern_replacement(*self),
    {
        match self {
            Transform::FunctionRename { old_name, new_name } => {
                let pattern = cat3("\\b", regex_escape(old_name.as_str()).as_str(), "\\s*(\\(|::<)");
                let replacement = cat3(new_name.as_str(), "$1", "");
                assert(replacement@ =~= new_name@ + "$1"@ + ""@) by {
                    reveal_strlit("");
                }
                assert(new_name@ + "$1"@ + ""@ =~= new_name@ + "$1"@) by {
                    reveal_strlit("");
                }
                (pattern, replacement)
            },
            Transform::TypeRename { old_name, new_name } => {
                let pattern = cat3("\\b", regex_escape(old_name.as_str()).as_str(), "\\b");
                (pattern, copy_str(new_name.as_str()))
            },
            Transform::ImportRename { old_path, new_path } => {
                let pattern = cat3("(['\"])", regex_escape(old_path.as_str()).as_str(), "\\1");
                let replacement = cat3("$1", new_path.as_str(), "$1");
                (pattern, replacement)
            },
            Transform::MethodMove { method_name, old_location, new_location } => {
                let pattern = cat3(
                    regex_escape(old_location.as_str()).as_str(),
                    "\\.",
                    regex_escape(method_name.as_str()).as_str(),
                );
                let replacement = cat3(new_location.as_str(), ".", method_name.as_str());
                (pattern, replacement)
            },
            Transform::ConstantUpdate { name: _, old_value, new_value } => {
                (regex_escape(old_value.as_str()), copy_str(new_value.as_str()))
            },
        }
    }
}

/// The transform that a change calls for: renames, moves and constant
/// updates with both values known; none for the other changes.
pub open spec fn transform_for(kind: ChangeKind) -> Option<(int, Seq<Seq<char>>)> {
    match kind {
        ChangeKind::FunctionRenamed { old_name, new_name, .. } => Some((0, seq![old_name@, new_name@])),
        ChangeKind::TypeRenamed { old_name, new_name } => Some((1, seq![old_name@, new_name@])),
        ChangeKind::ImportRenamed { old_path, new_path } => Some((2, seq![old_path@, new_path@])),
        ChangeKind::MethodMoved { method_name, old_location, new_location } => Some(
            (3, seq![method_name@, old_location@, new_location@]),
        ),
        ChangeKind::ConstantChanged { name, old_value, new_value } => match (old_value, new_value) {
            (Some(o), Some(n)) => Some((4, seq![name@, o@, n@])),
            _ => None,
        },
        _ => None,
    }
}

/// A transform as its kind (0 to 4) and its texts.
pub open spec fn transform_parts(t: Transform) -> (int, Seq<Seq<char>>) {
    match t {
        Transform::FunctionRename { old_name, new_name } => (0, seq![old_name@, new_name@]),
        Transform::TypeRename { old_name, new_name } => (1, seq![old_name@, new_name@]),
        Transform::ImportRename { old_path, new_path } => (2, seq![old_path@, new_path@]),
        Transform::MethodMove { method_name, old_location, new_location } => (
            3,
            seq![method_name@, old_location@, new_location@],
        ),
        Transform::ConstantUpdate { name, old_value, new_value } => (
            4,
            seq![name@, old_value@, new_value@],
        ),
    }
}

/// The transform that a change calls for, if it can be done automatically.
pub fn change_to_transform(kind: &ChangeKind) -> (r: Option<Transform>)
    ensures
        match r {
            Some(t) => transform_for(*kind) == Some(transform_parts(t)),
            None => transform_for(*kind) is None,
        },
{
    match kind {
        ChangeKind::FunctionRenamed { old_name, new_name, .. } => Some(
            Transform::FunctionRename {
                old_name: copy_str(old_name.as_str()),
                new_name: copy_str(new_name.as_str()),
            },
        ),
        ChangeKind::TypeRenamed { old_name, new_name } => Some(
            Transform::TypeRename {
                old_name: copy_str(old_name.as_str()),
                new_name: copy_str(new_name.as_str()),
            },
        ),
        ChangeKind::ImportRenamed { old_path, new_path } => Some(
            Transform::ImportRename {
                old_path: copy_str(old_path.as_str()),
                new_path: copy_str(new_path.as_str()),
            },
        ),
        ChangeKind::MethodMoved { method_name, old_location, new_location } => Some(
            Transform::MethodMove {
                method_name: copy_str(method_name.as_str()),
                old_location: copy_str(old_location.as_str()),
                new_location: copy_str(new_location.as_str()),
            },
        ),
        ChangeKind::ConstantChanged { name, old_value, new_value } => match (old_value, new_value) {
            (Some(o), Some(n)) => Some(
                Transform::ConstantUpdate {
                    name: copy_str(name.as_str()),
                    old_value: copy_str(o.as_str()),
                    new_value: copy_str(n.as_str()),
                },
            ),
            _ => None,
        },
        _ => None,
    }
}

/// `a` and `b` in backquotes with an arrow between.
pub open spec fn arrow(a: Seq<char>, b: Seq<char>) -> Seq<char> {
    "`"@ + a + "` -> `"@ + b + "`"@
}

/// A change's detail for the report.
pub open spec fn change_detail(kind: ChangeKind) -> Seq<char> {
    match kind {
        ChangeKind::FunctionRenamed { old_name, new_name, .. } => arrow(old_name@, new_name@),
        ChangeKind::TypeRenamed { old_name, new_name } => arrow(old_name@, new_name@),
        ChangeKind::ImportRenamed { old_path, new_path } => arrow(old_path@, new_path@),
        ChangeKind::SignatureChanged { name, .. } => "`"@ + name@ + "` signature changed"@,
        ChangeKind::ParameterAdded { function_name, param_name, .. } => "`"@ + function_name@
            + "`: added `"@ + param_name@ + "`"@,
        ChangeKind::ParameterRemoved { function_name, param_name, .. } => "`"@ + function_name@
            + "`: removed `"@ + param_name@ + "`"@,
        ChangeKind::ParameterReordered { function_name, .. } => "`"@ + function_name@
            + "`: parameters reordered"@,
        ChangeKind::ApiRemoved { name, api_type } => api_type_name(api_type) + " `"@ + name@
            + "` removed"@,
        ChangeKind::TypeChanged { name, description } => "`"@ + name@ + "`: "@ + description@,
        ChangeKind::MethodMoved { method_name, old_location, new_location } => "`"@ + method_name@
            + "`: "@ + arrow(old_location@, new_location@),
        ChangeKind::ConstantChanged { name, old_value, new_value } => "`"@ + name@ + "`: "@ + arrow(
            match old_value {
                Some(v) => v@,
                None => "?"@,
            },
            match new_value {
                Some(v) => v@,
                None => "?"@,
            },
        ),
    }
}

/// `a` and `b` in backquotes with an arrow between.
fn arrow_text(out: &mut String, a: &str, b: &str)
    ensures
        final(out)@ == old(out)@ + arrow(a@, b@),
{
    push_str(out, "`");
    push_str(out, a);
    push_str(out, "` -> `");
    push_str(out, b);
    push_str(out, "`");
}

/// The detail of a change for the report.
pub fn format_change_detail(kind: &ChangeKind) -> (r: String)
    ensures
        r@ == change_detail(*kind),
{
    let mut out = String::new();
    match kind {
        ChangeKind::FunctionRenamed { old_name, new_name, .. } => {
            arrow_text(&mut out, old_name.as_str(), new_name.as_str());
        },
        ChangeKind::TypeRenamed { old_name, new_name } => {
            arrow_text(&mut out, old_name.as_str(), new_name.as_str());
        },
        ChangeKind::ImportRenamed { old_path, new_path } => {
            arrow_text(&mut out, old_path.as_str(), new_path.as_str());
        },
        ChangeKind::SignatureChanged { name, .. } => {
            push_str(&mut out, "`");
            push_str(&mut out, name.as_str());
            push_str(&mut out, "` signature changed");
        },
        ChangeKind::ParameterAdded { function_name, param_name, .. } => {
            push_str(&mut out, "`");
            push_str(&mut out, function_name.as_str());
            push_str(&mut out, "`: added `");
            push_str(&mut out, param_name.as_str());
            push_str(&mut out, "`");
        },
        ChangeKind::ParameterRemoved { function_name, param_name, .. } => {
            push_str(&mut out, "`");
            push_str(&mut out, function_name.as_str());
            push_str(&mut out, "`: removed `");
            push_str(&mut out, param_name.as_str());
            push_str(&mut out, "`");
        },
        ChangeKind::ParameterReordered { function_name, .. } => {
            push_str(&mut out, "`");
            push_str(&mut out, function_name.as_str());
            push_str(&mut out, "`: parameters reordered");
        },
        ChangeKind::ApiRemoved { name, api_type } => {
            push_str(&mut out, api_type.name());
            push_str(&mut out, " `");
            push_str(&mut out, name.as_str());
            push_str(&mut out, "` removed");
        },
        ChangeKind::TypeChanged { name, description } => {
            push_str(&mut out, "`");
            push_str(&mut out, name.as_str());
            push_str(&mut out, "`: ");
            push_str(&mut out, description.as_str());
        },
        ChangeKind::MethodMoved { method_name, old_location, new_location } => {
            push_str(&mut out, "`");
            push_str(&mut out, method_name.as_str());
            push_str(&mut out, "`: ");
            arrow_text(&mut out, old_location.as_str(), new_location.as_str());
        },
        ChangeKind::ConstantChanged { name, old_value, new_value } => {
            push_str(&mut out, "`");
            push_str(&mut out, name.as_str());
            push_str(&mut out, "`: ");
            let old = match old_value {
                Some(v) => v.as_str(),
                None => "?",
            };
            let new = match new_value {
                Some(v) => v.as_str(),
                None => "?",
            };
            arrow_text(&mut out, old, new);
        },
    }
    assert(out@ =~= change_detail(*kind));
    out
}

/// The marker of a severity in the report.
pub open spec fn severity_icon(s: Severity) -> Seq<char> {
    match s {
        Severity::Breaking => "!!"@,
        Severity::Warning => "! "@,
        Severity::Info => "  "@,
    }
}

/// A report line's start: `[icon] kind name: detail` (the confidence, when
/// below one, is appended by the caller).
pub fn format_change_head(severity: Severity, kind: &ChangeKind) -> (r: String)
    ensures
        r@ == "["@ + severity_icon(severity) + "] "@ + change_kind_name(*kind) + ": "@
            + change_detail(*kind),
{
    let icon = match severity {
        Severity::Breaking => "!!",
        Severity::Warning => "! ",
        Severity::Info => "  ",
    };
    let mut out = copy_str("[");
    push_str(&mut out, icon);
    push_str(&mut out, "] ");
    push_str(&mut out, kind.name());
    push_str(&mut out, ": ");
    push_str(&mut out, format_change_detail(kind).as_str());
    out
}

/// A detected change as the upgrade report lists it.
#[derive(Debug)]
pub struct ReportEntry {
    pub severity: Severity,
    pub kind: ChangeKind,
    /// The match behind the change is too uncertain to apply unreviewed.
    pub low_confidence: bool,
    /// What follows the change on its line, such as its confidence.
    pub suffix: String,
    /// Suggested migration steps.
    pub migration_notes: Option<String>,
}

/// A change needs manual review when its kind calls for a decision, or when
/// the match behind it is uncertain.
pub open spec fn needs_review(e: ReportEntry) -> bool {
    ||| e.kind is SignatureChanged
    ||| e.kind is ParameterReordered
    ||| e.kind is ApiRemoved
    ||| e.low_confidence
}

/// A change is breaking when its severity says so.
pub open spec fn is_breaking_entry(e: ReportEntry) -> bool {
    e.severity == Severity::Breaking
}

/// A transform can carry the change out.
pub open spec fn is_auto_entry(e: ReportEntry) -> bool {
    is_auto_transformable_spec(e.kind)
}

/// How many entries meet a test.
pub open spec fn count_if(es: Seq<ReportEntry>, p: spec_fn(ReportEntry) -> bool) -> nat
    decreases es.len(),
{
    if es.len() == 0 {
        0
    } else {
        count_if(es.drop_last(), p) + if p(es.last()) {
            1nat
        } else {
            0nat
        }
    }
}

/// A change's line in a list of the report.
pub open spec fn entry_line(e: ReportEntry) -> Seq<char> {
    "- "@ + "["@ + severity_icon(e.severity) + "] "@ + change_kind_name(e.kind) + ": "@ + change_detail(e.kind)
        + e.suffix@ + "\n"@
}

/// The lines of the changes a transform can carry out.
pub open spec fn auto_lines(es: Seq<ReportEntry>) -> Seq<char>
    decreases es.len(),
{
    if es.len() == 0 {
        Seq::empty()
    } else {
        auto_lines(es.drop_last()) + if is_auto_entry(es.last()) {
            entry_line(es.last())
        } else {
            Seq::empty()
        }
    }
}

/// The lines of the changes that need review, each followed by its
/// migration notes when it has them.
pub open spec fn review_lines(es: Seq<ReportEntry>) -> Seq<char>
    decreases es.len(),
{
    if es.len() == 0 {
        Seq::empty()
    } else {
        review_lines(es.drop_last()) + if needs_review(es.last()) {
            entry_line(es.last()) + match es.last().migration_notes {
                Some(n) => "  - "@ + n@ + "\n"@,
                None => Seq::empty(),
            }
        } else {
            Seq::empty()
        }
    }
}

/// The upgrade report: a title, the description, a summary of counts, and
/// the lists of automatic and of reviewed changes when they are not empty.
pub open spec fn report_text(name: Seq<char>, description: Seq<char>, es: Seq<ReportEntry>) -> Seq<char> {
    let auto = count_if(es, |e: ReportEntry| is_auto_entry(e));
    let breaking = count_if(es, |e: ReportEntry| is_breaking_entry(e));
    let manual = count_if(es, |e: ReportEntry| needs_review(e));
    "# Upgrade Report: "@ + name + "\n\n"@ + description + "\n\n"@ + "## Summary\n\n"@ + "- Total changes: "@
        + decimal(es.len()) + "\n"@ + "- Auto-transformable: "@ + decimal(auto) + "\n"@ + "- Breaking changes: "@
        + decimal(breaking) + "\n"@ + "- Requires manual review: "@ + decimal(manual) + "\n\n"@ + (if auto > 0 {
        "## Automatic Transforms\n\n"@ + auto_lines(es) + "\n"@
    } else {
        Seq::empty()
    }) + (if manual > 0 {
        "## Requires Manual Review\n\n"@ + review_lines(es) + "\n"@
    } else {
        Seq::empty()
    })
}

/// The human-readable report of an upgrade's changes.
pub fn upgrade_report(name: &str, description: &str, entries: &Vec<ReportEntry>) -> (r: String)
    ensures
        r@ == report_text(name@, description@, entries@),
{
    let ghost es = entries@;
    let ghost pa = |e: ReportEntry| is_auto_entry(e);
    let ghost pb = |e: ReportEntry| is_breaking_entry(e);
    let ghost pm = |e: ReportEntry| needs_review(e);
    let mut auto_n: usize = 0;
    let mut breaking_n: usize = 0;
    let mut manual_n: usize = 0;
    let mut auto_txt = String::new();
    let mut review_txt = String::new();
    let mut i: usize = 0;
    while i < entries.len()
        invariant
            0 <= i <= entries.len(),
            es == entries@,
            pa == (|e: ReportEntry| is_auto_entry(e)),
            pb == (|e: ReportEntry| is_breaking_entry(e)),
            pm == (|e: ReportEntry| needs_review(e)),
            auto_n == count_if(es.take(i as int), pa),
            breaking_n == count_if(es.take(i as int), pb),
            manual_n == count_if(es.take(i as int), pm),
            auto_n <= i,
            breaking_n <= i,
            manual_n <= i,
            auto_txt@ == auto_lines(es.take(i as int)),
            review_txt@ == review_lines(es.take(i as int)),
        decreases entries.len() - i,
    {
        let e = &entries[i];
        assert(es.take(i + 1).drop_last() =~= es.take(i as int));
        assert(es.take(i + 1).last() == *e);
        let mut line = copy_str("- ");
        push_str(&mut line, format_change_head(e.severity, &e.kind).as_str());
        push_str(&mut line, e.suffix.as_str());
        push_str(&mut line, "\n");
        assert(line@ =~= entry_line(*e));
        if e.kind.is_auto_transformable() {
            auto_n = auto_n + 1;
            push_str(&mut auto_txt, line.as_str());
        }
        let breaking = match e.severity {
            Severity::Breaking => true,
            _ => false,
        };
        if breaking {
            breaking_n = breaking_n + 1;
        }
        let review = match e.kind {
            ChangeKind::SignatureChanged { .. } | ChangeKind::ParameterReordered { .. }
            | ChangeKind::ApiRemoved { .. } => true,
            _ => e.low_confidence,
        };
        if review {
            manual_n = manual_n + 1;
            let ghost before = review_txt@;
            push_str(&mut review_txt, line.as_str());
            match &e.migration_notes {
                Some(n) => {
                    push_str(&mut review_txt, "  - ");
                    push_str(&mut review_txt, n.as_str());
                    push_str(&mut review_txt, "\n");
                    assert(review_txt@ =~= before + (entry_line(*e) + ("  - "@ + n@ + "\n"@)));
                },
                None => {
                    assert(review_txt@ =~= before + (entry_line(*e) + Seq::<char>::empty()));
                },
            }
        }
        i = i + 1;
    }
    assert(es.take(entries.len() as int) =~= es);
    let mut out = copy_str("# Upgrade Report: ");
    push_str(&mut out, name);
    push_str(&mut out, "\n\n");
    push_str(&mut out, description);
    push_str(&mut out, "\n\n");
    push_str(&mut out, "## Summary\n\n");
    push_str(&mut out, "- Total changes: ");
    push_str(&mut out, u64_to_string(entries.len() as u64).as_str());
    push_str(&mut out, "\n");
    push_str(&mut out, "- Auto-transformable: ");
    push_str(&mut out, u64_to_string(auto_n as u64).as_str());
    push_str(&mut out, "\n");
    push_str(&mut out, "- Breaking changes: ");
    push_str(&mut out, u64_to_string(breaking_n as u64).as_str());
    push_str(&mut out, "\n");
    push_str(&mut out, "- Requires manual review: ");
    push_str(&mut out, u64_to_string(manual_n as u64).as_str());
    push_str(&mut out, "\n\n");
    let ghost head = out@;
    if auto_n > 0 {
        push_str(&mut out, "## Automatic Transforms\n\n");
        push_str(&mut out, auto_txt.as_str());
        push_str(&mut out, "\n");
    }
    let ghost mid = out@;
    if manual_n > 0 {
        push_str(&mut out, "## Requires Manual Review\n\n");
        push_str(&mut out, review_txt.as_str());
        push_str(&mut out, "\n");
    }
    assert(out@ =~= report_text(name@, description@, es));
    out
}

} // verus!

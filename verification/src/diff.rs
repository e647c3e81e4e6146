//! Line diffs of texts: summaries and unified diff output.
use vstd::prelude::*;

use crate::text::{copy_str, decimal, occurs_at, push_str, u64_to_string};

verus! {

/// What a line of a diff does.
#[derive(Debug, Clone, Copy, PartialEq, Eq, Structural)]
pub enum LineTag {
    /// The line is in both texts.
    Equal,
    /// The line is only in the original.
    Delete,
    /// The line is only in the modified text.
    Insert,
}

/// The tags of all the line changes of `similar`'s line diff of two texts,
/// in order.
pub uninterp spec fn line_change_tags(old: Seq<char>, new: Seq<char>) -> Seq<LineTag>;

/// The changes of `similar`'s line diff grouped into hunks with `context`
/// unchanged lines around each change: each change's tag and line text
/// (with its line ending).
pub uninterp spec fn grouped_line_changes(old: Seq<char>, new: Seq<char>, context: usize) -> Seq<Seq<(LineTag, Seq<char>)>>;

/// `similar::TextDiff::from_lines(old, new).iter_all_changes()`, each
/// change's `tag()` turned into a `LineTag`. The result is named by
/// `line_change_tags`.
#[verifier::external_body]
fn diff_line_tags(old: &str, new: &str) -> (r: Vec<LineTag>)
    ensures
        r@ == line_change_tags(old@, new@),
{
    similar::TextDiff::from_lines(old, new).iter_all_changes().map(|c| match c.tag() {
        similar::ChangeTag::Equal => LineTag::Equal,
        similar::ChangeTag::Delete => LineTag::Delete,
        similar::ChangeTag::Insert => LineTag::Insert,
    }).collect()
}

/// The text of grouped changes.
pub open spec fn groups_view(g: Seq<Vec<(LineTag, String)>>) -> Seq<Seq<(LineTag, Seq<char>)>> {
    g.map_values(|h: Vec<(LineTag, String)>| h@.map_values(|c: (LineTag, String)| (c.0, c.1@)))
}

/// `text` occurs in `s`.
pub open spec fn is_infix(text: Seq<char>, s: Seq<char>) -> bool {
    exists|i: int| #[trigger] occurs_at(s, text, i)
}

/// Each change's text is a line of the side it belongs to: a deleted line
/// occurs in `old`, an inserted one in `new`, an unchanged one in both.
pub open spec fn changes_from_sides(g: Seq<Seq<(LineTag, Seq<char>)>>, old: Seq<char>, new: Seq<char>) -> bool {
    forall|i: int, j: int|
        0 <= i < g.len() && 0 <= j < g[i].len() ==> {
            &&& (#[trigger] g[i][j]).0 != LineTag::Insert ==> is_infix(g[i][j].1, old)
            &&& g[i][j].0 != LineTag::Delete ==> is_infix(g[i][j].1, new)
        }
}

/// `similar::TextDiff::from_lines(old, new).grouped_ops(context)`, each
/// group's ops expanded by `iter_changes` into `(tag, value)` pairs. The
/// result is named by `grouped_line_changes`. Each value is a line sliced
/// from its side: `iter_changes` takes deleted and unchanged lines from the
/// old text's lines and inserted ones from the new text's, and an unchanged
/// line equals the new text's line it is paired with.
#[verifier::external_body]
fn diff_grouped_changes(old: &str, new: &str, context: usize) -> (r: Vec<Vec<(LineTag, String)>>)
    ensures
        groups_view(r@) == grouped_line_changes(old@, new@, context),
        changes_from_sides(groups_view(r@), old@, new@),
{
    let diff = similar::TextDiff::from_lines(old, new);
    diff.grouped_ops(context).iter().map(|group| group.iter().flat_map(|op| diff.iter_changes(op)).map(|c| (match c.tag() {
        similar::ChangeTag::Equal => LineTag::Equal,
        similar::ChangeTag::Delete => LineTag::Delete,
        similar::ChangeTag::Insert => LineTag::Insert,
    }, c.value().to_string())).collect()).collect()
}

/// The number of tags equal to `t`.
pub open spec fn count_tag(tags: Seq<LineTag>, t: LineTag) -> nat
    decreases tags.len(),
{
    if tags.len() == 0 {
        0
    } else {
        count_tag(tags.drop_last(), t) + if tags.last() == t {
            1nat
        } else {
            0nat
        }
    }
}

/// A count of tags never exceeds the number of tags.
proof fn lemma_count_tag_bound(tags: Seq<LineTag>, t: LineTag)
    ensures
        count_tag(tags, t) <= tags.len(),
    decreases tags.len(),
{
    if tags.len() > 0 {
        lemma_count_tag_bound(tags.drop_last(), t);
    }
}

/// Represents a summary of changes.
#[derive(Debug, Clone, Copy, PartialEq, Eq, Structural)]
pub struct DiffSummary {
    pub files_changed: usize,
    pub insertions: usize,
    pub deletions: usize,
}

/// The summary of a diff's tags: its insertions and deletions, and one
/// changed file when there is either.
pub open spec fn summary_of(tags: Seq<LineTag>) -> DiffSummary {
    let ins = count_tag(tags, LineTag::Insert);
    let del = count_tag(tags, LineTag::Delete);
    DiffSummary {
        files_changed: if ins > 0 || del > 0 {
            1
        } else {
            0
        },
        insertions: ins as usize,
        deletions: del as usize,
    }
}

impl DiffSummary {
    /// An empty summary.
    pub fn new() -> (r: Self)
        ensures
            r == (DiffSummary { files_changed: 0, insertions: 0, deletions: 0 }),
    {
        DiffSummary { files_changed: 0, insertions: 0, deletions: 0 }
    }

    /// Creates a summary from the line tags of a diff.
    pub fn from_tags(tags: &Vec<LineTag>) -> (r: Self)
        ensures
            r == summary_of(tags@),
    {
        let mut insertions: usize = 0;
        let mut deletions: usize = 0;
        let mut i: usize = 0;
        while i < tags.len()
            invariant
                0 <= i <= tags.len(),
                insertions == count_tag(tags@.take(i as int), LineTag::Insert),
                deletions == count_tag(tags@.take(i as int), LineTag::Delete),
            decreases tags.len() - i,
        {
            assert(tags@.take(i + 1).drop_last() =~= tags@.take(i as int));
            proof {
                lemma_count_tag_bound(tags@.take(i as int), LineTag::Insert);
                lemma_count_tag_bound(tags@.take(i as int), LineTag::Delete);
            }
            match tags[i] {
                LineTag::Insert => {
                    insertions = insertions + 1;
                },
                LineTag::Delete => {
                    deletions = deletions + 1;
                },
                LineTag::Equal => {},
            }
            i = i + 1;
        }
        assert(tags@.take(tags.len() as int) =~= tags@);
        DiffSummary {
            files_changed: if insertions > 0 || deletions > 0 {
                1
            } else {
                0
            },
            insertions,
            deletions,
        }
    }

    /// Creates a summary from original and modified content.
    pub fn from_diff(original: &str, modified: &str) -> (r: Self)
        ensures
            r == summary_of(line_change_tags(original@, modified@)),
    {
        let tags = diff_line_tags(original, modified);
        Self::from_tags(&tags)
    }

    /// Combines two summaries.
    pub fn merge(&mut self, other: &DiffSummary)
        requires
            old(self).files_changed + other.files_changed <= usize::MAX,
            old(self).insertions + other.insertions <= usize::MAX,
            old(self).deletions + other.deletions <= usize::MAX,
        ensures
            final(self).files_changed == old(self).files_changed + other.files_changed,
            final(self).insertions == old(self).insertions + other.insertions,
            final(self).deletions == old(self).deletions + other.deletions,
    {
        self.files_changed = self.files_changed + other.files_changed;
        self.insertions = self.insertions + other.insertions;
        self.deletions = self.deletions + other.deletions;
    }
}

/// The sign that starts a diff line.
pub open spec fn sign_of(t: LineTag) -> Seq<char> {
    match t {
        LineTag::Delete => "-"@,
        LineTag::Insert => "+"@,
        LineTag::Equal => " "@,
    }
}

/// The lines of one hunk, each with its sign.
pub open spec fn hunk_text(h: Seq<(LineTag, Seq<char>)>) -> Seq<char>
    decreases h.len(),
{
    if h.len() == 0 {
        Seq::empty()
    } else {
        hunk_text(h.drop_last()) + sign_of(h.last().0) + h.last().1
    }
}

/// The hunks, a line feed between two hunks.
pub open spec fn hunks_text(g: Seq<Seq<(LineTag, Seq<char>)>>) -> Seq<char>
    decreases g.len(),
{
    if g.len() == 0 {
        Seq::empty()
    } else if g.len() == 1 {
        hunk_text(g[0])
    } else {
        hunks_text(g.drop_last()) + "\n"@ + hunk_text(g.last())
    }
}

/// A unified diff: `--- a/<path>` and `+++ b/<path>` headers, then the hunks
/// with three lines of context.
pub open spec fn unified_diff_spec(original: Seq<char>, modified: Seq<char>, path: Seq<char>) -> Seq<char> {
    "--- a/"@ + path + "\n"@ + "+++ b/"@ + path + "\n"@ + hunks_text(
        grouped_line_changes(original, modified, 3),
    )
}

/// The sign that starts a diff line.
fn sign_exec(t: LineTag) -> (r: &'static str)
    ensures
        r@ == sign_of(t),
{
    match t {
        LineTag::Delete => "-",
        LineTag::Insert => "+",
        LineTag::Equal => " ",
    }
}

/// Append the lines of one hunk.
fn push_hunk(out: &mut String, h: &Vec<(LineTag, String)>)
    ensures
        final(out)@ == old(out)@ + hunk_text(h@.map_values(|c: (LineTag, String)| (c.0, c.1@))),
{
    let ghost hv = h@.map_values(|c: (LineTag, String)| (c.0, c.1@));
    let mut i: usize = 0;
    while i < h.len()
        invariant
            0 <= i <= h.len(),
            hv == h@.map_values(|c: (LineTag, String)| (c.0, c.1@)),
            out@ == old(out)@ + hunk_text(hv.take(i as int)),
        decreases h.len() - i,
    {
        assert(hv.take(i + 1).drop_last() =~= hv.take(i as int));
        assert(hv.take(i + 1).last() == hv[i as int]);
        push_str(out, sign_exec(h[i].0));
        push_str(out, h[i].1.as_str());
        i = i + 1;
    }
    assert(hv.take(h.len() as int) =~= hv);
}

/// The output of a unified diff for `path`: its headers, then hunks whose
/// lines marked `-` are lines of `original`, those marked `+` lines of
/// `modified`, and the unmarked ones lines of both.
pub open spec fn diff_runs_from(out: Seq<char>, original: Seq<char>, modified: Seq<char>, path: Seq<char>) -> bool {
    exists|g: Seq<Seq<(LineTag, Seq<char>)>>|
        out == "--- a/"@ + path + "\n"@ + "+++ b/"@ + path + "\n"@ + hunks_text(g) && forall|i: int, j: int|
            0 <= i < g.len() && 0 <= j < g[i].len() ==> {
                &&& sign_of((#[trigger] g[i][j]).0) == "-"@ ==> is_infix(g[i][j].1, original)
                &&& sign_of(g[i][j].0) == "+"@ ==> is_infix(g[i][j].1, modified)
                &&& sign_of(g[i][j].0) == " "@ ==> is_infix(g[i][j].1, original) && is_infix(
                    g[i][j].1,
                    modified,
                )
            }
}

/// Law: a unified diff runs from the original to the modified text: when
/// the changes come from their sides, as `similar` gives them, every line
/// marked `-` is a line of the original and every line marked `+` one of
/// the modified text.
pub proof fn law_unified_diff_runs_from_original(original: Seq<char>, modified: Seq<char>, path: Seq<char>)
    requires
        changes_from_sides(grouped_line_changes(original, modified, 3), original, modified),
    ensures
        diff_runs_from(unified_diff_spec(original, modified, path), original, modified, path),
{
    reveal_strlit("-");
    reveal_strlit("+");
    reveal_strlit(" ");
    let g = grouped_line_changes(original, modified, 3);
    assert(unified_diff_spec(original, modified, path) == "--- a/"@ + path + "\n"@ + "+++ b/"@ + path + "\n"@
        + hunks_text(g));
    assert forall|i: int, j: int| 0 <= i < g.len() && 0 <= j < g[i].len() implies {
        &&& sign_of((#[trigger] g[i][j]).0) == "-"@ ==> is_infix(g[i][j].1, original)
        &&& sign_of(g[i][j].0) == "+"@ ==> is_infix(g[i][j].1, modified)
        &&& sign_of(g[i][j].0) == " "@ ==> is_infix(g[i][j].1, original) && is_infix(g[i][j].1, modified)
    } by {
        assert("-"@ != "+"@ && "-"@ != " "@ && "+"@ != " "@) by {
            assert("-"@[0] != "+"@[0] && "-"@[0] != " "@[0] && "+"@[0] != " "@[0]);
        }
        match g[i][j].0 {
            LineTag::Delete => {},
            LineTag::Insert => {},
            LineTag::Equal => {},
        }
    }
}

/// Generates a unified diff between two strings.
pub fn unified_diff(original: &str, modified: &str, path: &str) -> (r: String)
    ensures
        r@ == unified_diff_spec(original@, modified@, path@),
        diff_runs_from(r@, original@, modified@, path@),
{
    let groups = diff_grouped_changes(original, modified, 3);
    let ghost gv = groups_view(groups@);
    let mut output = copy_str("--- a/");
    push_str(&mut output, path);
    push_str(&mut output, "\n");
    push_str(&mut output, "+++ b/");
    push_str(&mut output, path);
    push_str(&mut output, "\n");
    let ghost header = output@;
    let mut idx: usize = 0;
    while idx < groups.len()
        invariant
            0 <= idx <= groups.len(),
            gv == groups_view(groups@),
            output@ == header + hunks_text(gv.take(idx as int)),
        decreases groups.len() - idx,
    {
        assert(gv.take(idx + 1).drop_last() =~= gv.take(idx as int));
        assert(gv[idx as int] == groups@[idx as int]@.map_values(|c: (LineTag, String)| (c.0, c.1@)));
        if idx > 0 {
            push_str(&mut output, "\n");
        } else {
            assert(gv.take(1)[0] == gv[0]);
        }
        push_hunk(&mut output, &groups[idx]);
        idx = idx + 1;
    }
    assert(gv.take(groups.len() as int) =~= gv);
    proof {
        law_unified_diff_runs_from_original(original@, modified@, path@);
    }
    output
}

/// The color that starts a changed line, none for context.
pub open spec fn color_of(t: LineTag) -> Seq<char> {
    match t {
        LineTag::Delete => "\x1b[31m"@,
        LineTag::Insert => "\x1b[32m"@,
        LineTag::Equal => Seq::empty(),
    }
}

/// One line of a colored diff: context as is, a changed line in its color.
pub open spec fn colored_line(t: LineTag, text: Seq<char>) -> Seq<char> {
    if t == LineTag::Equal {
        sign_of(t) + text
    } else {
        color_of(t) + sign_of(t) + text + "\x1b[0m"@
    }
}

/// The lines of the hunks, colored, one after the other.
pub open spec fn colored_hunks(g: Seq<Seq<(LineTag, Seq<char>)>>) -> Seq<char>
    decreases g.len(),
{
    if g.len() == 0 {
        Seq::empty()
    } else {
        colored_hunks(g.drop_last()) + colored_hunk(g.last())
    }
}

/// The lines of one hunk, colored.
pub open spec fn colored_hunk(h: Seq<(LineTag, Seq<char>)>) -> Seq<char>
    decreases h.len(),
{
    if h.len() == 0 {
        Seq::empty()
    } else {
        colored_hunk(h.drop_last()) + colored_line(h.last().0, h.last().1)
    }
}

/// A colored diff: cyan headers, then removed lines in red and added ones
/// in green, with three lines of context.
pub open spec fn colorized_diff_spec(original: Seq<char>, modified: Seq<char>, path: Seq<char>) -> Seq<char> {
    "\x1b[36m"@ + "--- a/"@ + path + "\x1b[0m"@ + "\n"@ + "\x1b[36m"@ + "+++ b/"@ + path + "\x1b[0m"@
        + "\n"@ + colored_hunks(grouped_line_changes(original, modified, 3))
}

/// The output of a colored diff for `path`: its colored headers, then
/// lines whose `-` lines are lines of `original`, whose `+` lines are lines
/// of `modified`, and whose unmarked lines are lines of both.
pub open spec fn colored_diff_runs_from(out: Seq<char>, original: Seq<char>, modified: Seq<char>, path: Seq<char>) -> bool {
    exists|g: Seq<Seq<(LineTag, Seq<char>)>>|
        out == "\x1b[36m"@ + "--- a/"@ + path + "\x1b[0m"@ + "\n"@ + "\x1b[36m"@ + "+++ b/"@ + path + "\x1b[0m"@
            + "\n"@ + colored_hunks(g) && forall|i: int, j: int|
            0 <= i < g.len() && 0 <= j < g[i].len() ==> {
                &&& sign_of((#[trigger] g[i][j]).0) == "-"@ ==> is_infix(g[i][j].1, original)
                &&& sign_of(g[i][j].0) == "+"@ ==> is_infix(g[i][j].1, modified)
                &&& sign_of(g[i][j].0) == " "@ ==> is_infix(g[i][j].1, original) && is_infix(
                    g[i][j].1,
                    modified,
                )
            }
}

/// Law: a colored diff runs from the original to the modified text: when
/// the changes come from their sides, every line marked `-` is a line of
/// the original and every line marked `+` one of the modified text.
pub proof fn law_colorized_diff_runs_from_original(original: Seq<char>, modified: Seq<char>, path: Seq<char>)
    requires
        changes_from_sides(grouped_line_changes(original, modified, 3), original, modified),
    ensures
        colored_diff_runs_from(colorized_diff_spec(original, modified, path), original, modified, path),
{
    reveal_strlit("-");
    reveal_strlit("+");
    reveal_strlit(" ");
    let g = grouped_line_changes(original, modified, 3);
    assert forall|i: int, j: int| 0 <= i < g.len() && 0 <= j < g[i].len() implies {
        &&& sign_of((#[trigger] g[i][j]).0) == "-"@ ==> is_infix(g[i][j].1, original)
        &&& sign_of(g[i][j].0) == "+"@ ==> is_infix(g[i][j].1, modified)
        &&& sign_of(g[i][j].0) == " "@ ==> is_infix(g[i][j].1, original) && is_infix(g[i][j].1, modified)
    } by {
        assert("-"@ != "+"@ && "-"@ != " "@ && "+"@ != " "@) by {
            assert("-"@[0] != "+"@[0] && "-"@[0] != " "@[0] && "+"@[0] != " "@[0]);
        }
        match g[i][j].0 {
            LineTag::Delete => {},
            LineTag::Insert => {},
            LineTag::Equal => {},
        }
    }
}

/// The color that starts a changed line.
fn color_exec(t: LineTag) -> (r: &'static str)
    ensures
        r@ == color_of(t),
{
    match t {
        LineTag::Delete => "\x1b[31m",
        LineTag::Insert => "\x1b[32m",
        LineTag::Equal => {
            proof {
                reveal_strlit("");
            }
            ""
        },
    }
}

/// Append the colored lines of one hunk.
fn push_colored_hunk(out: &mut String, h: &Vec<(LineTag, String)>)
    ensures
        final(out)@ == old(out)@ + colored_hunk(h@.map_values(|c: (LineTag, String)| (c.0, c.1@))),
{
    let ghost hv = h@.map_values(|c: (LineTag, String)| (c.0, c.1@));
    let mut i: usize = 0;
    while i < h.len()
        invariant
            0 <= i <= h.len(),
            hv == h@.map_values(|c: (LineTag, String)| (c.0, c.1@)),
            out@ == old(out)@ + colored_hunk(hv.take(i as int)),
        decreases h.len() - i,
    {
        assert(hv.take(i + 1).drop_last() =~= hv.take(i as int));
        assert(hv.take(i + 1).last() == hv[i as int]);
        let t = h[i].0;
        if t == LineTag::Equal {
            push_str(out, sign_exec(t));
            push_str(out, h[i].1.as_str());
        } else {
            push_str(out, color_exec(t));
            push_str(out, sign_exec(t));
            push_str(out, h[i].1.as_str());
            push_str(out, "\x1b[0m");
        }
        i = i + 1;
    }
    assert(hv.take(h.len() as int) =~= hv);
}

/// Colorized diff output for terminal display.
pub fn colorized_diff(original: &str, modified: &str, path: &str) -> (r: String)
    ensures
        r@ == colorized_diff_spec(original@, modified@, path@),
        colored_diff_runs_from(r@, original@, modified@, path@),
{
    let groups = diff_grouped_changes(original, modified, 3);
    proof {
        law_colorized_diff_runs_from_original(original@, modified@, path@);
    }
    let ghost gv = groups_view(groups@);
    let mut output = copy_str("\x1b[36m");
    push_str(&mut output, "--- a/");
    push_str(&mut output, path);
    push_str(&mut output, "\x1b[0m");
    push_str(&mut output, "\n");
    push_str(&mut output, "\x1b[36m");
    push_str(&mut output, "+++ b/");
    push_str(&mut output, path);
    push_str(&mut output, "\x1b[0m");
    push_str(&mut output, "\n");
    let ghost header = output@;
    let mut idx: usize = 0;
    while idx < groups.len()
        invariant
            0 <= idx <= groups.len(),
            gv == groups_view(groups@),
            output@ == header + colored_hunks(gv.take(idx as int)),
        decreases groups.len() - idx,
    {
        assert(gv.take(idx + 1).drop_last() =~= gv.take(idx as int));
        assert(gv[idx as int] == groups@[idx as int]@.map_values(|c: (LineTag, String)| (c.0, c.1@)));
        push_colored_hunk(&mut output, &groups[idx]);
        idx = idx + 1;
    }
    assert(gv.take(groups.len() as int) =~= gv);
    output
}

impl DiffSummary {
    /// The summary's text: `N file(s) changed, N insertions(+), N deletions(-)`.
    pub fn display(&self) -> (r: String)
        ensures
            r@ == decimal(self.files_changed as nat) + " file(s) changed, "@ + decimal(self.insertions as nat)
                + " insertions(+), "@ + decimal(self.deletions as nat) + " deletions(-)"@,
    {
        let mut s = u64_to_string(self.files_changed as u64);
        push_str(&mut s, " file(s) changed, ");
        push_str(&mut s, u64_to_string(self.insertions as u64).as_str());
        push_str(&mut s, " insertions(+), ");
        push_str(&mut s, u64_to_string(self.deletions as u64).as_str());
        push_str(&mut s, " deletions(-)");
        s
    }
}

} // verus!

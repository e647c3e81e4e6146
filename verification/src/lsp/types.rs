//! Positions, ranges and text edits in documents, and applying edits to text.
use vstd::prelude::*;

use crate::scan::{concat_chars, lines, lines_chars, strip_cr};
use crate::strmap::StrMap;
use crate::text::{
    byte_len, chars_of, copy_str, lemma_byte_len_prefix_mono, lemma_encode_push, prefix_byte_len,
    prefix_byte_len_wide, split, string_of, str_views, sub_chars, utf8_width, vec_views,
};
use vstd::utf8::encode_utf8;

verus! {

/// A position in a text document (0-indexed line and character).
#[derive(Debug, Clone, Copy, PartialEq, Eq, Hash, Structural)]
pub struct Position {
    pub line: u32,
    pub character: u32,
}

impl Position {
    /// Creates a new position.
    pub fn new(line: u32, character: u32) -> (r: Self)
        ensures
            r.line == line,
            r.character == character,
    {
        Position { line, character }
    }
}

/// A range in a text document.
#[derive(Debug, Clone, Copy, PartialEq, Eq, Hash, Structural)]
pub struct Range {
    pub start: Position,
    pub end: Position,
}

impl Range {
    /// Creates a new range.
    pub fn new(start: Position, end: Position) -> (r: Self)
        ensures
            r.start == start,
            r.end == end,
    {
        Range { start, end }
    }
}

/// A location in a document (file path + range).
#[derive(Debug, Clone, PartialEq, Eq)]
pub struct Location {
    pub path: String,
    pub range: Range,
}

impl Location {
    /// Creates a new location.
    pub fn new(path: &str, range: Range) -> (r: Self)
        ensures
            r.path@ == path@,
            r.range == range,
    {
        Location { path: copy_str(path), range }
    }
}

/// A text edit to apply to a document.
#[derive(Debug, Clone, PartialEq, Eq)]
pub struct TextEdit {
    pub range: Range,
    pub new_text: String,
}

impl TextEdit {
    /// Creates a new text edit.
    pub fn new(range: Range, new_text: &str) -> (r: Self)
        ensures
            r.range == range,
            r.new_text@ == new_text@,
    {
        TextEdit { range, new_text: copy_str(new_text) }
    }
}

/// The total number of edits held in the first `n` files of a workspace edit.
pub open spec fn edits_in_first(changes: StrMap<Vec<TextEdit>>, n: int) -> int
    decreases n,
{
    if n <= 0 {
        0
    } else {
        edits_in_first(changes, n - 1) + changes.value_at_spec(n - 1).len()
    }
}

/// The total number of edits of a workspace edit.
pub open spec fn total_edits(changes: StrMap<Vec<TextEdit>>) -> int {
    edits_in_first(changes, changes.spec_len() as int)
}

/// Counting edits file by file never goes down.
proof fn lemma_edits_in_first_mono(changes: StrMap<Vec<TextEdit>>, i: int, n: int)
    requires
        0 <= i <= n,
    ensures
        edits_in_first(changes, i) <= edits_in_first(changes, n),
    decreases n - i,
{
    if i < n {
        lemma_edits_in_first_mono(changes, i, n - 1);
    }
}

/// A workspace edit containing changes to multiple files: each file path
/// with the edits for that file.
#[derive(Debug)]
pub struct WorkspaceEdit {
    /// Map of file path to text edits.
    pub changes: StrMap<Vec<TextEdit>>,
}

impl WorkspaceEdit {
    /// Creates a new empty workspace edit.
    pub fn new() -> (r: Self)
        ensures
            r.changes@ == Map::<Seq<char>, Seq<TextEdit>>::empty(),
    {
        WorkspaceEdit { changes: StrMap::new() }
    }

    /// Adds edits for a file, after any it already has.
    pub fn add_edits(&mut self, path: &str, edits: Vec<TextEdit>)
        ensures
            final(self).changes@ == old(self).changes@.insert(
                path@,
                (if old(self).changes@.dom().contains(path@) {
                    old(self).changes@[path@]
                } else {
                    Seq::<TextEdit>::empty()
                }) + edits@,
            ),
    {
        self.changes.append_at(copy_str(path), edits);
    }

    /// Returns the number of files affected.
    pub fn file_count(&self) -> (r: usize)
        ensures
            r == self.changes@.dom().len(),
    {
        self.changes.len()
    }

    /// Returns the total number of edits.
    pub fn edit_count(&self) -> (r: usize)
        requires
            total_edits(self.changes) <= usize::MAX,
        ensures
            r == total_edits(self.changes),
    {
        let n = self.changes.len();
        let mut total: usize = 0;
        let mut i: usize = 0;
        while i < n
            invariant
                0 <= i <= n,
                n == self.changes.spec_len(),
                total_edits(self.changes) <= usize::MAX,
                total == edits_in_first(self.changes, i as int),
            decreases n - i,
        {
            proof {
                lemma_edits_in_first_mono(self.changes, i + 1, n as int);
            }
            total = total + self.changes.value_at(i).len();
            i = i + 1;
        }
        total
    }

    /// Checks if the edit is empty.
    pub fn is_empty(&self) -> (r: bool)
        ensures
            r == (self.changes@.dom() == Set::<Seq<char>>::empty()),
    {
        self.changes.is_empty()
    }
}

// ---------------------------------------------------------------------------
// Offsets of positions
// ---------------------------------------------------------------------------
/// The bytes taken by the first `k` lines, each with its line feed.
pub open spec fn bytes_before_line(ls: Seq<Seq<char>>, k: int) -> int
    decreases k,
{
    if k <= 0 || k > ls.len() {
        0
    } else {
        bytes_before_line(ls, k - 1) + byte_len(ls[k - 1]) + 1
    }
}

/// The characters taken by the first `k` lines, each with its line feed.
pub open spec fn chars_before_line(ls: Seq<Seq<char>>, k: int) -> int
    decreases k,
{
    if k <= 0 || k > ls.len() {
        0
    } else {
        chars_before_line(ls, k - 1) + ls[k - 1].len() + 1
    }
}

/// The smaller of two integers.
pub open spec fn min_int(a: int, b: int) -> int {
    if a <= b {
        a
    } else {
        b
    }
}

/// The byte offset of a position in text split into `ls`: the bytes of the
/// lines before it, plus those of its first `character` characters (at most
/// the whole line). The line just past the last one stands for the end of
/// the text, one byte before the lines' total; a later line has no offset.
pub open spec fn byte_offset(ls: Seq<Seq<char>>, pos: Position) -> Option<int> {
    let l = pos.line as int;
    if l > ls.len() {
        None
    } else if l < ls.len() {
        Some(
            bytes_before_line(ls, l) + byte_len(
                ls[l].take(min_int(pos.character as int, ls[l].len() as int)),
            ),
        )
    } else {
        let o = bytes_before_line(ls, ls.len() as int);
        Some(
            if o >= 1 {
                o - 1
            } else {
                0
            },
        )
    }
}

/// The position in `text` of the character boundary `b` bytes into its
/// UTF-8 encoding, looking from character `k` on; none when `b` falls inside
/// a character or past the end.
pub open spec fn char_at_byte_from(text: Seq<char>, b: int, k: int) -> Option<int>
    decreases text.len() - k,
{
    if k < 0 || k > text.len() {
        None
    } else if byte_len(text.take(k)) == b {
        Some(k)
    } else if byte_len(text.take(k)) > b || k == text.len() {
        None
    } else {
        char_at_byte_from(text, b, k + 1)
    }
}

/// A string never takes more than four bytes a character.
proof fn lemma_byte_len_bound(s: Seq<char>)
    ensures
        byte_len(s) <= 4 * s.len(),
    decreases s.len(),
{
    if s.len() > 0 {
        lemma_byte_len_bound(s.drop_last());
        assert(s =~= s.drop_last().push(s.last()));
        lemma_encode_push(s.drop_last(), s.last());
    }
}

/// Lines never take more than four bytes a character, with their line feeds.
proof fn lemma_bytes_before_bound(ls: Seq<Seq<char>>, k: int)
    ensures
        bytes_before_line(ls, k) <= 4 * chars_before_line(ls, k),
    decreases k,
{
    if 0 < k <= ls.len() {
        lemma_bytes_before_bound(ls, k - 1);
        lemma_byte_len_bound(ls[k - 1]);
    }
}

/// Counting bytes line by line never goes down.
proof fn lemma_bytes_before_mono(ls: Seq<Seq<char>>, i: int, n: int)
    requires
        0 <= i <= n <= ls.len(),
    ensures
        bytes_before_line(ls, i) <= bytes_before_line(ls, n),
    decreases n - i,
{
    if i < n {
        lemma_bytes_before_mono(ls, i, n - 1);
    }
}

/// Counting characters line by line never goes down.
proof fn lemma_chars_before_mono(ls: Seq<Seq<char>>, i: int, n: int)
    requires
        0 <= i <= n <= ls.len(),
    ensures
        chars_before_line(ls, i) <= chars_before_line(ls, n),
    decreases n - i,
{
    if i < n {
        lemma_chars_before_mono(ls, i, n - 1);
    }
}

/// Converts a Position to a byte offset in text given by its lines.
pub fn position_to_offset(lines: &[&str], pos: Position) -> (r: Option<usize>)
    requires
        bytes_before_line(str_views(lines@), lines@.len() as int) <= usize::MAX,
    ensures
        match r {
            Some(o) => byte_offset(str_views(lines@), pos) == Some(o as int),
            None => byte_offset(str_views(lines@), pos) is None,
        },
{
    let ghost ls = str_views(lines@);
    let line_idx = pos.line as usize;
    if line_idx > lines.len() {
        return None;
    }
    let mut offset: usize = 0;
    let mut i: usize = 0;
    while i < lines.len()
        invariant
            0 <= i <= lines.len(),
            i <= line_idx,
            line_idx == pos.line as int,
            line_idx <= lines.len(),
            ls == str_views(lines@),
            bytes_before_line(ls, lines@.len() as int) <= usize::MAX,
            offset == bytes_before_line(ls, i as int),
        decreases lines.len() - i,
    {
        assert(ls[i as int] == lines@[i as int]@);
        proof {
            lemma_bytes_before_mono(ls, i + 1, lines@.len() as int);
        }
        if i == line_idx {
            let cv = chars_of(lines[i]);
            let k = if (pos.character as usize) < cv.len() {
                pos.character as usize
            } else {
                cv.len()
            };
            proof {
                lemma_byte_len_prefix_mono(cv@, k as int);
            }
            let b = prefix_byte_len(&cv, k);
            return Some(offset + b);
        }
        offset = offset + lines[i].len() + 1;
        i = i + 1;
    }
    if offset >= 1 {
        Some(offset - 1)
    } else {
        Some(0)
    }
}

/// The byte offset of a position in text given by its lines.
fn byte_position(ls: &Vec<Vec<char>>, pos: Position) -> (r: Option<u128>)
    requires
        chars_before_line(vec_views(ls@), ls@.len() as int) <= usize::MAX + 1,
    ensures
        match r {
            Some(o) => byte_offset(vec_views(ls@), pos) == Some(o as int),
            None => byte_offset(vec_views(ls@), pos) is None,
        },
{
    let ghost lv = vec_views(ls@);
    let line_idx = pos.line as usize;
    if line_idx > ls.len() {
        return None;
    }
    proof {
        lemma_bytes_before_bound(lv, ls@.len() as int);
    }
    let mut offset: u128 = 0;
    let mut i: usize = 0;
    while i < ls.len()
        invariant
            0 <= i <= ls.len(),
            i <= line_idx,
            line_idx == pos.line as int,
            line_idx <= ls.len(),
            lv == vec_views(ls@),
            chars_before_line(lv, ls@.len() as int) <= usize::MAX + 1,
            bytes_before_line(lv, ls@.len() as int) <= 4 * chars_before_line(lv, ls@.len() as int),
            offset == bytes_before_line(lv, i as int),
        decreases ls.len() - i,
    {
        assert(lv[i as int] == ls@[i as int]@);
        proof {
            lemma_bytes_before_mono(lv, i + 1, ls@.len() as int);
        }
        if i == line_idx {
            let k = if (pos.character as usize) < ls[i].len() {
                pos.character as usize
            } else {
                ls[i].len()
            };
            proof {
                lemma_byte_len_prefix_mono(ls@[i as int]@, k as int);
            }
            let b = prefix_byte_len_wide(&ls[i], k);
            return Some(offset + b);
        }
        let w = prefix_byte_len_wide(&ls[i], ls[i].len());
        assert(ls@[i as int]@.take(ls@[i as int]@.len() as int) =~= ls@[i as int]@);
        offset = offset + w + 1;
        i = i + 1;
    }
    if offset >= 1 {
        Some(offset - 1)
    } else {
        Some(0)
    }
}

/// The position in `text` of the character boundary `b` bytes into it.
fn char_at_byte(text: &Vec<char>, b: u128) -> (r: Option<usize>)
    ensures
        match r {
            Some(k) => char_at_byte_from(text@, b as int, 0) == Some(k as int) && k <= text@.len(),
            None => char_at_byte_from(text@, b as int, 0) is None,
        },
{
    let mut acc: u128 = 0;
    let mut k: usize = 0;
    assert(text@.take(0) =~= Seq::<char>::empty());
    assert(encode_utf8(Seq::<char>::empty()) =~= Seq::<u8>::empty());
    loop
        invariant
            0 <= k <= text@.len(),
            acc == byte_len(text@.take(k as int)),
            acc <= 4 * k,
            char_at_byte_from(text@, b as int, 0) == char_at_byte_from(text@, b as int, k as int),
        decreases text@.len() - k,
    {
        if acc == b {
            return Some(k);
        }
        if acc > b || k == text.len() {
            return None;
        }
        proof {
            assert(text@.take(k + 1) =~= text@.take(k as int).push(text@[k as int]));
            lemma_encode_push(text@.take(k as int), text@[k as int]);
        }
        acc = acc + utf8_width(text[k]) as u128;
        k = k + 1;
    }
}


// ---------------------------------------------------------------------------
// Applying edits
// ---------------------------------------------------------------------------
/// Position `a` is at or after position `b`.
pub open spec fn pos_at_or_after(a: Position, b: Position) -> bool {
    a.line > b.line || (a.line == b.line && a.character >= b.character)
}

/// `e` inserted into `sorted` (latest start first) after every edit that
/// starts at or after it: a stable insertion.
pub open spec fn insert_latest_first(sorted: Seq<TextEdit>, e: TextEdit) -> Seq<TextEdit>
    decreases sorted.len(),
{
    if sorted.len() == 0 {
        seq![e]
    } else if pos_at_or_after(sorted[0].range.start, e.range.start) {
        seq![sorted[0]] + insert_latest_first(sorted.drop_first(), e)
    } else {
        seq![e] + sorted
    }
}

/// The edits in stable order of descending start position.
pub open spec fn sort_latest_first(edits: Seq<TextEdit>) -> Seq<TextEdit> {
    edits.fold_left(
        Seq::<TextEdit>::empty(),
        |acc: Seq<TextEdit>, e: TextEdit| insert_latest_first(acc, e),
    )
}

/// One edit applied to the text so far, by byte offsets: the bytes between
/// its start and end offsets (taken in the lines of the unedited text)
/// replaced by its new text. The flag turns false when an offset falls past
/// the end of the text or inside a character, or the start comes after the
/// end.
pub open spec fn apply_step(st: (bool, Seq<char>), ls: Seq<Seq<char>>, e: TextEdit) -> (bool, Seq<char>) {
    match (byte_offset(ls, e.range.start), byte_offset(ls, e.range.end)) {
        (Some(s), Some(t)) => match (char_at_byte_from(st.1, s, 0), char_at_byte_from(st.1, t, 0)) {
            (Some(i), Some(j)) => if i <= j {
                (st.0, st.1.take(i) + e.new_text@ + st.1.skip(j))
            } else {
                (false, st.1)
            },
            _ => (false, st.1),
        },
        _ => st,
    }
}

/// The edits applied to `content`, latest start first; the flag says that
/// every range fit.
pub open spec fn apply_edits_spec(content: Seq<char>, edits: Seq<TextEdit>) -> (bool, Seq<char>) {
    sort_latest_first(edits).fold_left(
        (true, content),
        |st: (bool, Seq<char>), e: TextEdit| apply_step(st, lines(content), e),
    )
}

/// The sorted insertion puts the new edit after the prefix that starts at or
/// after it.
proof fn lemma_insert_at(s: Seq<TextEdit>, e: TextEdit, p: int)
    requires
        0 <= p <= s.len(),
        forall|q: int| 0 <= q < p ==> pos_at_or_after(s[q].range.start, e.range.start),
        p == s.len() || !pos_at_or_after(s[p].range.start, e.range.start),
    ensures
        insert_latest_first(s, e) == s.take(p) + seq![e] + s.skip(p),
    decreases p,
{
    if p == 0 {
        if s.len() == 0 {
            assert(s.take(0) + seq![e] + s.skip(0) =~= seq![e]);
        } else {
            assert(s.take(0) + seq![e] + s.skip(0) =~= seq![e] + s);
        }
    } else {
        let t = s.drop_first();
        assert forall|q: int| 0 <= q < p - 1 implies pos_at_or_after(t[q].range.start, e.range.start) by {
            assert(t[q] == s[q + 1]);
        }
        if p - 1 < t.len() {
            assert(t[p - 1] == s[p]);
        }
        lemma_insert_at(t, e, p - 1);
        assert(seq![s[0]] + (t.take(p - 1) + seq![e] + t.skip(p - 1)) =~= s.take(p) + seq![e]
            + s.skip(p));
    }
}

/// The lines' total length never exceeds the text's length plus one.
proof fn lemma_lines_total(s: Seq<char>)
    ensures
        chars_before_line(lines(s), lines(s).len() as int) <= s.len() + 1,
{
    let parts = split(s, '\n');
    crate::scan::lemma_split_nonempty(s, '\n');
    lemma_split_total(s, '\n');
    let kept = if s.len() == 0 || s.last() == '\n' {
        parts.drop_last()
    } else {
        parts
    };
    if s.len() == 0 || s.last() == '\n' {
        lemma_chars_before_drop_last(parts, parts.len() - 1);
        lemma_chars_before_mono(parts, parts.len() - 1, parts.len() as int);
    }
    lemma_chars_before_strip(kept, kept.len() as int);
}

/// Counting the lines of a list without its last line is counting a prefix.
proof fn lemma_chars_before_drop_last(ls: Seq<Seq<char>>, k: int)
    requires
        0 <= k <= ls.len() - 1,
    ensures
        chars_before_line(ls.drop_last(), k) == chars_before_line(ls, k),
    decreases k,
{
    if k > 0 {
        lemma_chars_before_drop_last(ls, k - 1);
    }
}

/// Removing carriage returns never makes lines longer.
proof fn lemma_chars_before_strip(ls: Seq<Seq<char>>, k: int)
    requires
        0 <= k <= ls.len(),
    ensures
        chars_before_line(ls.map_values(|l: Seq<char>| strip_cr(l)), k) <= chars_before_line(ls, k),
    decreases k,
{
    if k > 0 {
        lemma_chars_before_strip(ls, k - 1);
    }
}

/// A line list that starts with `x` counts `x` first.
proof fn lemma_chars_before_cons(x: Seq<char>, r: Seq<Seq<char>>, n: int)
    requires
        0 <= n <= r.len(),
    ensures
        chars_before_line(seq![x] + r, n + 1) == x.len() + 1 + chars_before_line(r, n),
    decreases n,
{
    let ls = seq![x] + r;
    if n > 0 {
        lemma_chars_before_cons(x, r, n - 1);
        assert(ls[n] == r[n - 1]);
    } else {
        assert(chars_before_line(ls, 0) == 0);
        assert(ls[0] == x);
        assert(chars_before_line(r, 0) == 0);
    }
}

/// The pieces of a split, each with its separator, add up to the text and
/// one more.
proof fn lemma_split_total(s: Seq<char>, sep: char)
    ensures
        chars_before_line(split(s, sep), split(s, sep).len() as int) == s.len() + 1,
    decreases s.len(),
{
    match crate::text::find_char(s, sep) {
        Some(i) => {
            if 0 <= i < s.len() {
                let rest = s.skip(i + 1);
                lemma_split_total(rest, sep);
                crate::scan::lemma_split_nonempty(rest, sep);
                lemma_chars_before_cons(s.take(i), split(rest, sep), split(rest, sep).len() as int);
            } else {
                assert(chars_before_line(seq![s], 0) == 0);
                assert(chars_before_line(seq![s], 1) == s.len() + 1);
            }
        },
        None => {
            assert(chars_before_line(seq![s], 0) == 0);
            assert(chars_before_line(seq![s], 1) == s.len() + 1);
        },
    }
}

/// Applies text edits to a string, returning the modified string. Edits are
/// applied from the latest start position to the earliest.
pub fn apply_edits_to_string(content: &str, edits: &[TextEdit]) -> (r: String)
    requires
        content@.len() < usize::MAX,
        apply_edits_spec(content@, edits@).0,
    ensures
        r@ == apply_edits_spec(content@, edits@).1,
{
    match try_apply_edits(content, edits) {
        Some(r) => r,
        None => String::new(),
    }
}

/// Applies text edits to a string as `apply_edits_to_string` does, or gives
/// `None` when a range does not fit the text (where that function has no
/// result).
pub fn try_apply_edits(content: &str, edits: &[TextEdit]) -> (r: Option<String>)
    requires
        content@.len() < usize::MAX,
    ensures
        match r {
            Some(s) => apply_edits_spec(content@, edits@).0 && s@ == apply_edits_spec(content@, edits@).1,
            None => !apply_edits_spec(content@, edits@).0,
        },
{
    let cv = chars_of(content);
    let ls = lines_chars(&cv);
    let ghost lv = vec_views(ls@);
    proof {
        lemma_lines_total(content@);
    }
    // Sort the edits' indices, latest start first, keeping equal ones in order.
    let mut order: Vec<usize> = Vec::new();
    let mut k: usize = 0;
    while k < edits.len()
        invariant
            0 <= k <= edits.len(),
            forall|q: int| 0 <= q < order@.len() ==> order@[q] < edits@.len(),
            order@.map_values(|q: usize| edits@[q as int]) == sort_latest_first(edits@.take(k as int)),
        decreases edits.len() - k,
    {
        let ghost s = order@.map_values(|q: usize| edits@[q as int]);
        let e_start = edits[k].range.start;
        let mut p: usize = 0;
        while p < order.len() && pos_at_or_after_exec(edits[order[p]].range.start, e_start)
            invariant
                0 <= p <= order.len(),
                k < edits.len(),
                e_start == edits@[k as int].range.start,
                forall|q: int| 0 <= q < order@.len() ==> order@[q] < edits@.len(),
                s == order@.map_values(|q: usize| edits@[q as int]),
                forall|q: int| 0 <= q < p ==> pos_at_or_after(s[q].range.start, e_start),
            decreases order.len() - p,
        {
            p = p + 1;
        }
        proof {
            lemma_insert_at(s, edits@[k as int], p as int);
            assert(edits@.take(k + 1).drop_last() =~= edits@.take(k as int));
            assert(edits@.take(k + 1).last() == edits@[k as int]);
        }
        order.insert(p, k);
        assert(order@.map_values(|q: usize| edits@[q as int]) =~= s.take(p as int) + seq![
            edits@[k as int],
        ] + s.skip(p as int));
        k = k + 1;
    }
    assert(edits@.take(edits.len() as int) =~= edits@);
    let ghost sorted = sort_latest_first(edits@);
    // Apply them in that order.
    let mut result = sub_chars(&cv, 0, cv.len());
    assert(cv@.subrange(0, cv@.len() as int) =~= cv@);
    let mut j: usize = 0;
    while j < order.len()
        invariant
            0 <= j <= order.len(),
            lv == vec_views(ls@),
            lv == lines(content@),
            chars_before_line(lv, lv.len() as int) <= content@.len() + 1,
            content@.len() < usize::MAX,
            forall|q: int| 0 <= q < order@.len() ==> order@[q] < edits@.len(),
            order@.map_values(|q: usize| edits@[q as int]) == sorted,
            sorted == sort_latest_first(edits@),
            (true, result@) == sorted.take(j as int).fold_left(
                (true, content@),
                |st: (bool, Seq<char>), e: TextEdit| apply_step(st, lines(content@), e),
            ),
        decreases order.len() - j,
    {
        let e = &edits[order[j]];
        assert(sorted[j as int] == *e);
        assert(sorted.take(j + 1).drop_last() =~= sorted.take(j as int));
        match (byte_position(&ls, e.range.start), byte_position(&ls, e.range.end)) {
            (Some(sb), Some(tb)) => {
                let (s, t) = match (char_at_byte(&result, sb), char_at_byte(&result, tb)) {
                    (Some(s), Some(t)) => (s, t),
                    _ => {
                        proof {
                            if sorted.fold_left(
                                (true, content@),
                                |st: (bool, Seq<char>), e: TextEdit| apply_step(st, lines(content@), e),
                            ).0 {
                                lemma_fold_ok_prefix(sorted, content@, j as int + 1);
                            }
                        }
                        return None;
                    },
                };
                if s > t {
                    proof {
                        if sorted.fold_left(
                            (true, content@),
                            |st: (bool, Seq<char>), e: TextEdit| apply_step(st, lines(content@), e),
                        ).0 {
                            lemma_fold_ok_prefix(sorted, content@, j as int + 1);
                        }
                    }
                    return None;
                }
                let head = sub_chars(&result, 0, s);
                let tail = sub_chars(&result, t, result.len());
                let replaced = concat_chars(&concat_chars(&head, &chars_of(e.new_text.as_str())), &tail);
                assert(head@ =~= result@.take(s as int));
                assert(tail@ =~= result@.skip(t as int));
                result = replaced;
            },
            _ => {},
        }
        j = j + 1;
    }
    assert(sorted.take(order.len() as int) =~= sorted);
    Some(string_of(&result))
}

/// Whether position `a` is at or after position `b`.
fn pos_at_or_after_exec(a: Position, b: Position) -> (r: bool)
    ensures
        r == pos_at_or_after(a, b),
{
    a.line > b.line || (a.line == b.line && a.character >= b.character)
}

/// When every edit fits, every prefix of the edits fits.
proof fn lemma_fold_ok_prefix(sorted: Seq<TextEdit>, content: Seq<char>, n: int)
    requires
        0 <= n <= sorted.len(),
        sorted.fold_left(
            (true, content),
            |st: (bool, Seq<char>), e: TextEdit| apply_step(st, lines(content), e),
        ).0,
    ensures
        sorted.take(n).fold_left(
            (true, content),
            |st: (bool, Seq<char>), e: TextEdit| apply_step(st, lines(content), e),
        ).0,
    decreases sorted.len() - n,
{
    let f = |st: (bool, Seq<char>), e: TextEdit| apply_step(st, lines(content), e);
    if n < sorted.len() {
        lemma_fold_ok_prefix(sorted, content, n + 1);
        assert(sorted.take(n + 1).drop_last() =~= sorted.take(n));
        lemma_ok_stays_false(sorted.take(n), content, sorted[n]);
    } else {
        assert(sorted.take(n) =~= sorted);
    }
}

/// Once a range does not fit, the flag stays false.
proof fn lemma_ok_stays_false(s: Seq<TextEdit>, content: Seq<char>, e: TextEdit)
    ensures
        !s.fold_left(
            (true, content),
            |st: (bool, Seq<char>), e: TextEdit| apply_step(st, lines(content), e),
        ).0 ==> !apply_step(
            s.fold_left(
                (true, content),
                |st: (bool, Seq<char>), e: TextEdit| apply_step(st, lines(content), e),
            ),
            lines(content),
            e,
        ).0,
{
}

/// Law: applying no edits leaves the content as it is.
pub proof fn law_no_edits_unchanged(content: Seq<char>)
    ensures
        apply_edits_spec(content, Seq::empty()) == (true, content),
{
    assert(sort_latest_first(Seq::<TextEdit>::empty()) =~= Seq::<TextEdit>::empty());
}

} // verus!

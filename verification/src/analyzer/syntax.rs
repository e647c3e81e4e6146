//! Syntax trees as the API extractor reads them: nodes with their kind,
//! text, start position, field name and children, and the captures of a
//! query match.
use vstd::prelude::*;

use crate::text::{str_eq, views};

verus! {

/// A node of a syntax tree.
#[derive(Debug)]
pub struct SyntaxNode {
    /// The grammar's name for the node.
    pub kind: String,
    /// The node's source text, when it is valid UTF-8.
    pub text: Option<String>,
    /// Zero-based row of the node's start.
    pub row: usize,
    /// Zero-based column of the node's start.
    pub column: usize,
    /// The field name under which the parent holds this node.
    pub field: Option<String>,
    /// The node's children, named and anonymous, in order.
    pub children: Vec<SyntaxNode>,
}

/// A node captured by a query under a capture name.
#[derive(Debug)]
pub struct Capture {
    /// The capture's name, without the `@`.
    pub name: String,
    /// The captured node.
    pub node: SyntaxNode,
}

/// The text of a node, when it has one.
pub open spec fn text_of(n: SyntaxNode) -> Option<Seq<char>> {
    match n.text {
        Some(t) => Some(t@),
        None => None,
    }
}

/// The text of a node that may be absent.
pub open spec fn opt_text(n: Option<SyntaxNode>) -> Option<Seq<char>> {
    match n {
        Some(x) => text_of(x),
        None => None,
    }
}

/// The text of a node, or the empty text.
pub open spec fn text_or_empty(n: SyntaxNode) -> Seq<char> {
    match text_of(n) {
        Some(t) => t,
        None => Seq::empty(),
    }
}

/// The node of the last capture named `name`.
pub open spec fn last_capture(m: Seq<Capture>, name: Seq<char>) -> Option<SyntaxNode>
    decreases m.len(),
{
    if m.len() == 0 {
        None
    } else if m.last().name@ == name {
        Some(m.last().node)
    } else {
        last_capture(m.drop_last(), name)
    }
}

/// The last node of the sequence whose kind is `kind`.
pub open spec fn last_of_kind(cs: Seq<SyntaxNode>, kind: Seq<char>) -> Option<SyntaxNode>
    decreases cs.len(),
{
    if cs.len() == 0 {
        None
    } else if cs.last().kind@ == kind {
        Some(cs.last())
    } else {
        last_of_kind(cs.drop_last(), kind)
    }
}

/// The last node of the sequence whose kind contains `pat`.
pub open spec fn last_kind_containing(cs: Seq<SyntaxNode>, pat: Seq<char>) -> Option<SyntaxNode>
    decreases cs.len(),
{
    if cs.len() == 0 {
        None
    } else if crate::text::contains(cs.last().kind@, pat) {
        Some(cs.last())
    } else {
        last_kind_containing(cs.drop_last(), pat)
    }
}

/// The first node of the sequence held under the field `field`.
pub open spec fn first_with_field(cs: Seq<SyntaxNode>, field: Seq<char>) -> Option<SyntaxNode>
    decreases cs.len(),
{
    if cs.len() == 0 {
        None
    } else if cs[0].field matches Some(f) && f@ == field {
        Some(cs[0])
    } else {
        first_with_field(cs.drop_first(), field)
    }
}

/// A capture of the match has this name and a node with exactly this text.
pub open spec fn some_capture_text(m: Seq<Capture>, name: Seq<char>, text: Seq<char>) -> bool {
    exists|i: int| 0 <= i < m.len() && #[trigger] m[i].name@ == name && text_or_empty(m[i].node) == text
}

/// Every captured node starts at a row and column that can be counted one
/// further.
pub open spec fn positions_fit(ms: Seq<Vec<Capture>>) -> bool {
    forall|i: int, j: int|
        0 <= i < ms.len() && 0 <= j < ms[i]@.len() ==> #[trigger] ms[i]@[j].node.row < usize::MAX
            && ms[i]@[j].node.column < usize::MAX
}

/// The node of the last capture named `name`.
pub fn last_capture_exec<'a>(m: &'a Vec<Capture>, name: &str) -> (r: Option<&'a SyntaxNode>)
    ensures
        match r {
            Some(n) => last_capture(m@, name@) == Some(*n),
            None => last_capture(m@, name@) is None,
        },
{
    let mut r: Option<&SyntaxNode> = None;
    let mut i: usize = 0;
    while i < m.len()
        invariant
            0 <= i <= m.len(),
            match r {
                Some(n) => last_capture(m@.take(i as int), name@) == Some(*n),
                None => last_capture(m@.take(i as int), name@) is None,
            },
        decreases m.len() - i,
    {
        assert(m@.take(i + 1).drop_last() =~= m@.take(i as int));
        if str_eq(m[i].name.as_str(), name) {
            r = Some(&m[i].node);
        }
        i = i + 1;
    }
    assert(m@.take(m.len() as int) =~= m@);
    r
}

/// The text of a node, copied.
pub fn node_text(n: &SyntaxNode) -> (r: Option<String>)
    ensures
        match r {
            Some(t) => text_of(*n) == Some(t@),
            None => text_of(*n) is None,
        },
{
    match &n.text {
        Some(t) => Some(t.clone()),
        None => None,
    }
}

/// The text of a node, or the empty text.
pub fn node_text_or_empty(n: &SyntaxNode) -> (r: &str)
    ensures
        r@ == text_or_empty(*n),
{
    match &n.text {
        Some(t) => t.as_str(),
        None => {
            proof {
                reveal_strlit("");
            }
            ""
        },
    }
}

/// The last child of a node whose kind is `kind`.
pub fn last_child_of_kind<'a>(n: &'a SyntaxNode, kind: &str) -> (r: Option<&'a SyntaxNode>)
    ensures
        match r {
            Some(c) => last_of_kind(n.children@, kind@) == Some(*c),
            None => last_of_kind(n.children@, kind@) is None,
        },
{
    let cs = &n.children;
    let mut r: Option<&SyntaxNode> = None;
    let mut i: usize = 0;
    while i < cs.len()
        invariant
            0 <= i <= cs.len(),
            match r {
                Some(c) => last_of_kind(cs@.take(i as int), kind@) == Some(*c),
                None => last_of_kind(cs@.take(i as int), kind@) is None,
            },
        decreases cs.len() - i,
    {
        assert(cs@.take(i + 1).drop_last() =~= cs@.take(i as int));
        if str_eq(cs[i].kind.as_str(), kind) {
            r = Some(&cs[i]);
        }
        i = i + 1;
    }
    assert(cs@.take(cs.len() as int) =~= cs@);
    r
}

/// The last child of a node whose kind contains `pat`.
pub fn last_child_containing<'a>(n: &'a SyntaxNode, pat: &str) -> (r: Option<&'a SyntaxNode>)
    ensures
        match r {
            Some(c) => last_kind_containing(n.children@, pat@) == Some(*c),
            None => last_kind_containing(n.children@, pat@) is None,
        },
{
    let cs = &n.children;
    let mut r: Option<&SyntaxNode> = None;
    let mut i: usize = 0;
    while i < cs.len()
        invariant
            0 <= i <= cs.len(),
            match r {
                Some(c) => last_kind_containing(cs@.take(i as int), pat@) == Some(*c),
                None => last_kind_containing(cs@.take(i as int), pat@) is None,
            },
        decreases cs.len() - i,
    {
        assert(cs@.take(i + 1).drop_last() =~= cs@.take(i as int));
        if crate::text::str_contains(cs[i].kind.as_str(), pat) {
            r = Some(&cs[i]);
        }
        i = i + 1;
    }
    assert(cs@.take(cs.len() as int) =~= cs@);
    r
}

/// The first child of a node held under the field `field`.
pub fn first_child_with_field<'a>(n: &'a SyntaxNode, field: &str) -> (r: Option<&'a SyntaxNode>)
    ensures
        match r {
            Some(c) => first_with_field(n.children@, field@) == Some(*c),
            None => first_with_field(n.children@, field@) is None,
        },
{
    let cs = &n.children;
    let mut i: usize = 0;
    assert(cs@.skip(0) =~= cs@);
    while i < cs.len()
        invariant
            0 <= i <= cs.len(),
            first_with_field(n.children@, field@) == first_with_field(cs@.skip(i as int), field@),
        decreases cs.len() - i,
    {
        assert(cs@.skip(i as int)[0] == cs@[i as int]);
        assert(cs@.skip(i as int).drop_first() =~= cs@.skip(i + 1));
        match &cs[i].field {
            Some(f) => {
                if str_eq(f.as_str(), field) {
                    return Some(&cs[i]);
                }
            },
            None => {},
        }
        i = i + 1;
    }
    assert(cs@.skip(i as int).len() == 0);
    None
}

/// Whether some capture of the match has this name and a node with exactly
/// this text.
pub fn has_capture_text(m: &Vec<Capture>, name: &str, text: &str) -> (r: bool)
    ensures
        r == some_capture_text(m@, name@, text@),
{
    let mut i: usize = 0;
    while i < m.len()
        invariant
            0 <= i <= m.len(),
            forall|j: int|
                0 <= j < i ==> !(#[trigger] m@[j].name@ == name@ && text_or_empty(m@[j].node) == text@),
        decreases m.len() - i,
    {
        if str_eq(m[i].name.as_str(), name) && str_eq(node_text_or_empty(&m[i].node), text) {
            return true;
        }
        i = i + 1;
    }
    false
}

/// Whether every captured node starts at a row and column that can be
/// counted one further.
pub fn positions_fit_exec(ms: &Vec<Vec<Capture>>) -> (r: bool)
    ensures
        r == positions_fit(ms@),
{
    let mut i: usize = 0;
    while i < ms.len()
        invariant
            0 <= i <= ms.len(),
            forall|a: int, b: int|
                0 <= a < i && 0 <= b < ms@[a]@.len() ==> #[trigger] ms@[a]@[b].node.row < usize::MAX
                    && ms@[a]@[b].node.column < usize::MAX,
        decreases ms.len() - i,
    {
        let m = &ms[i];
        let mut j: usize = 0;
        while j < m.len()
            invariant
                0 <= i < ms.len(),
                0 <= j <= m@.len(),
                *m == ms@[i as int],
                forall|a: int, b: int|
                    0 <= a < i && 0 <= b < ms@[a]@.len() ==> #[trigger] ms@[a]@[b].node.row < usize::MAX
                        && ms@[a]@[b].node.column < usize::MAX,
                forall|b: int|
                    0 <= b < j ==> #[trigger] m@[b].node.row < usize::MAX && m@[b].node.column < usize::MAX,
            decreases m.len() - j,
        {
            if m[j].node.row == usize::MAX || m[j].node.column == usize::MAX {
                assert(ms@[i as int]@[j as int] == m@[j as int]);
                return false;
            }
            j = j + 1;
        }
        i = i + 1;
    }
    true
}

/// The node of the last capture of a name is the node of one of the
/// match's captures.
pub proof fn lemma_last_capture_in(m: Seq<Capture>, name: Seq<char>)
    ensures
        last_capture(m, name) matches Some(n) ==> exists|k: int| 0 <= k < m.len() && #[trigger] m[k].node == n,
    decreases m.len(),
{
    if m.len() > 0 && m.last().name@ != name {
        lemma_last_capture_in(m.drop_last(), name);
        if last_capture(m, name) is Some {
            let n = last_capture(m, name)->0;
            let k = choose|k: int| 0 <= k < m.drop_last().len() && #[trigger] m.drop_last()[k].node == n;
            assert(m[k].node == n);
        }
    } else if m.len() > 0 {
        assert(m[m.len() - 1].node == m.last().node);
    }
}

} // verus!

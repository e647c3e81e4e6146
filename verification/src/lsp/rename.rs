//! LSP-based rename refactoring: locating a symbol and describing the rename.
use vstd::prelude::*;

use super::config::LspServerConfig;
use super::types::{total_edits, Position, WorkspaceEdit};
use crate::scan::{lines, lines_chars, rfind_char, rfind_char_exec, trim_end_set};
use crate::text::{
    byte_len, chars_of, copy_str, find_from, find_from_exec, prefix_byte_len_wide, str_eq, vec_views,
};

verus! {

/// A character that can continue an identifier: ASCII letter, digit or `_`.
pub open spec fn is_word_char(c: char) -> bool {
    ('a' <= c <= 'z') || ('A' <= c <= 'Z') || ('0' <= c <= '9') || c == '_'
}

/// The occurrence of `sym` at `i` in `line` is a whole word: no identifier
/// character right before or right after it.
pub open spec fn whole_word_at(line: Seq<char>, sym: Seq<char>, i: int) -> bool {
    (i == 0 || !is_word_char(line[i - 1])) && (i + sym.len() >= line.len() || !is_word_char(
        line[i + sym.len()],
    ))
}

/// The first whole-word occurrence of `sym` in `line` at or after `k`.
pub open spec fn first_whole_word_from(line: Seq<char>, sym: Seq<char>, k: int) -> Option<int>
    decreases line.len() + 1 - k,
{
    if k < 0 || k > line.len() {
        None
    } else {
        match find_from(line, sym, k) {
            Some(i) => if whole_word_at(line, sym, i) {
                Some(i)
            } else {
                proof {
                    crate::text::lemma_find_from_props(line, sym, k);
                }
                first_whole_word_from(line, sym, i + 1)
            },
            None => None,
        }
    }
}

/// The position of the first whole-word occurrence of `sym` in the text: the
/// first line that has one, and the byte column of the occurrence in it.
pub open spec fn symbol_position_from(ls: Seq<Seq<char>>, sym: Seq<char>, k: int) -> Option<Position>
    decreases ls.len() - k,
{
    if k < 0 || k >= ls.len() {
        None
    } else {
        match first_whole_word_from(ls[k], sym, 0) {
            Some(c) => Some(Position { line: k as u32, character: byte_len(ls[k].take(c)) as u32 }),
            None => symbol_position_from(ls, sym, k + 1),
        }
    }
}

/// Finds the position of a symbol in the content.
pub open spec fn symbol_position(content: Seq<char>, sym: Seq<char>) -> Option<Position> {
    symbol_position_from(lines(content), sym, 0)
}

/// Whether a character can continue an identifier.
fn is_word_char_exec(c: char) -> (r: bool)
    ensures
        r == is_word_char(c),
{
    ('a' <= c && c <= 'z') || ('A' <= c && c <= 'Z') || ('0' <= c && c <= '9') || c == '_'
}

/// The first whole-word occurrence of `sym` in `line`.
fn first_whole_word(line: &Vec<char>, sym: &Vec<char>) -> (r: Option<usize>)
    ensures
        match r {
            Some(c) => first_whole_word_from(line@, sym@, 0) == Some(c as int) && c <= line.len(),
            None => first_whole_word_from(line@, sym@, 0) is None,
        },
{
    let mut start: usize = 0;
    while start <= line.len()
        invariant
            start <= line.len() + 1,
            first_whole_word_from(line@, sym@, 0) == first_whole_word_from(line@, sym@, start as int),
        decreases line.len() + 1 - start,
    {
        match find_from_exec(line, sym, start) {
            Some(i) => {
                proof {
                    crate::text::lemma_find_from_props(line@, sym@, start as int);
                }
                let end = i + sym.len();
                let before_ok = i == 0 || !is_word_char_exec(line[i - 1]);
                let after_ok = end >= line.len() || !is_word_char_exec(line[end]);
                if before_ok && after_ok {
                    return Some(i);
                }
                if i >= line.len() {
                    assert(first_whole_word_from(line@, sym@, i + 1) is None);
                    return None;
                }
                start = i + 1;
            },
            None => {
                return None;
            },
        }
    }
    None
}

/// Finds the position of the first whole-word occurrence of a symbol.
pub fn find_symbol_position(content: &str, symbol: &str) -> (r: Option<Position>)
    ensures
        r == symbol_position(content@, symbol@),
{
    let ls = lines_chars(&chars_of(content));
    let sym = chars_of(symbol);
    let ghost lv = vec_views(ls@);
    let mut k: usize = 0;
    while k < ls.len()
        invariant
            0 <= k <= ls.len(),
            lv == vec_views(ls@),
            lv == lines(content@),
            sym@ == symbol@,
            symbol_position_from(lv, sym@, 0) == symbol_position_from(lv, sym@, k as int),
        decreases ls.len() - k,
    {
        assert(lv[k as int] == ls@[k as int]@);
        match first_whole_word(&ls[k], &sym) {
            Some(c) => {
                let b = prefix_byte_len_wide(&ls[k], c);
                return Some(Position::new(k as u32, b as u32));
            },
            None => {},
        }
        k = k + 1;
    }
    None
}

/// The directory part of a path, as `Path::parent` gives it for paths
/// without `.` segments: the text before the last `/` (trailing `/`s
/// ignored, `/` itself for a top-level entry, empty for a bare name); none
/// for the empty path and the root.
pub open spec fn parent_path(p: Seq<char>) -> Option<Seq<char>> {
    let t = trim_end_set(p, seq!['/']);
    if t.len() == 0 {
        None
    } else {
        match rfind_char(t, '/') {
            Some(i) => {
                let d = trim_end_set(t.take(i), seq!['/']);
                if d.len() == 0 {
                    Some("/"@)
                } else {
                    Some(d)
                }
            },
            None => Some(Seq::empty()),
        }
    }
}

/// The directory part of a path.
pub(crate) fn parent_path_exec(p: &str) -> (r: Option<Vec<char>>)
    ensures
        match r {
            Some(d) => parent_path(p@) == Some(d@),
            None => parent_path(p@) is None,
        },
{
    let slash = vec!['/'];
    assert(slash@ =~= seq!['/']);
    let t = crate::scan::trim_end_set_exec(&chars_of(p), &slash);
    if t.len() == 0 {
        return None;
    }
    match rfind_char_exec(&t, '/') {
        Some(i) => {
            let head = crate::text::sub_chars(&t, 0, i);
            assert(head@ =~= t@.take(i as int));
            let d = crate::scan::trim_end_set_exec(&head, &slash);
            if d.len() == 0 {
                proof {
                    reveal_strlit("/");
                }
                Some(vec!['/'])
            } else {
                Some(d)
            }
        },
        None => {
            let e: Vec<char> = Vec::new();
            assert(e@ =~= Seq::<char>::empty());
            Some(e)
        },
    }
}

/// Builder for LSP-based rename operations.
#[derive(Debug)]
pub struct LspRename {
    pub root_path: String,
    pub file_path: String,
    pub position: Position,
    pub new_name: String,
    pub server_config: Option<LspServerConfig>,
    pub dry_run: bool,
    pub auto_install: bool,
}

impl LspRename {
    /// Creates a new rename operation of the symbol at a 0-indexed line and
    /// column of a file. The project root starts as the file's directory, or
    /// `.` when the path has none.
    pub fn new(file_path: &str, line: u32, column: u32, new_name: &str) -> (r: Self)
        ensures
            r.root_path@ == match parent_path(file_path@) {
                Some(d) => d,
                None => "."@,
            },
            r.file_path@ == file_path@,
            r.position == (Position { line, character: column }),
            r.new_name@ == new_name@,
            r.server_config is None,
            !r.dry_run,
            !r.auto_install,
    {
        let root_path = match parent_path_exec(file_path) {
            Some(d) => crate::text::string_of(&d),
            None => copy_str("."),
        };
        LspRename {
            root_path,
            file_path: copy_str(file_path),
            position: Position::new(line, column),
            new_name: copy_str(new_name),
            server_config: None,
            dry_run: false,
            auto_install: false,
        }
    }

    /// Creates a rename of the first whole-word occurrence of a symbol in a
    /// file's contents; the error names the symbol and the file when there is
    /// none.
    pub fn from_content(file_path: &str, content: &str, symbol_name: &str, new_name: &str) -> (r: Result<Self, crate::error::RefactorError>)
        ensures
            match symbol_position(content@, symbol_name@) {
                Some(p) => r matches Ok(x) && x.file_path@ == file_path@ && x.position == p
                    && x.new_name@ == new_name@,
                None => r matches Err(crate::error::RefactorError::TransformFailed { message })
                    && message@ == "Symbol '"@ + symbol_name@ + "' not found in "@ + file_path@,
            },
    {
        match find_symbol_position(content, symbol_name) {
            Some(p) => Ok(Self::new(file_path, p.line, p.character, new_name)),
            None => {
                let mut message = copy_str("Symbol '");
                crate::text::push_str(&mut message, symbol_name);
                crate::text::push_str(&mut message, "' not found in ");
                crate::text::push_str(&mut message, file_path);
                Err(crate::error::RefactorError::TransformFailed { message })
            },
        }
    }

    /// Sets the project root path.
    pub fn root(self, path: &str) -> (r: Self)
        ensures
            r.root_path@ == path@,
            r.file_path == self.file_path,
            r.position == self.position,
            r.new_name == self.new_name,
            r.server_config == self.server_config,
            r.dry_run == self.dry_run,
            r.auto_install == self.auto_install,
    {
        LspRename { root_path: copy_str(path), ..self }
    }

    /// Uses a custom LSP server configuration.
    pub fn server(self, config: LspServerConfig) -> (r: Self)
        ensures
            r.server_config == Some(config),
            r.root_path == self.root_path,
            r.file_path == self.file_path,
            r.position == self.position,
            r.new_name == self.new_name,
            r.dry_run == self.dry_run,
            r.auto_install == self.auto_install,
    {
        LspRename { server_config: Some(config), ..self }
    }

    /// Enables dry-run mode (preview without applying).
    pub fn dry_run(self) -> (r: Self)
        ensures
            r.dry_run,
            r.root_path == self.root_path,
            r.file_path == self.file_path,
            r.position == self.position,
            r.new_name == self.new_name,
            r.server_config == self.server_config,
            r.auto_install == self.auto_install,
    {
        LspRename { dry_run: true, ..self }
    }

    /// Enables auto-installation of LSP servers from the Mason registry.
    pub fn auto_install(self) -> (r: Self)
        ensures
            r.auto_install,
            r.root_path == self.root_path,
            r.file_path == self.file_path,
            r.position == self.position,
            r.new_name == self.new_name,
            r.server_config == self.server_config,
            r.dry_run == self.dry_run,
    {
        LspRename { auto_install: true, ..self }
    }

    /// Maps server configuration names to Mason package names; every known
    /// server has a package of its own name.
    pub fn map_server_to_package(server_name: &str) -> (r: &str)
        ensures
            r@ == server_name@,
    {
        server_name
    }
}

/// Result of a rename operation.
#[derive(Debug)]
pub struct RenameResult {
    /// The workspace edit containing all changes.
    pub workspace_edit: WorkspaceEdit,
    /// Whether this was a dry run.
    pub dry_run: bool,
}

impl RenameResult {
    /// Returns the number of files affected.
    pub fn file_count(&self) -> (r: usize)
        ensures
            r == self.workspace_edit.changes@.dom().len(),
    {
        self.workspace_edit.file_count()
    }

    /// Returns the total number of edits.
    pub fn edit_count(&self) -> (r: usize)
        requires
            total_edits(self.workspace_edit.changes) <= usize::MAX,
        ensures
            r == total_edits(self.workspace_edit.changes),
    {
        self.workspace_edit.edit_count()
    }

    /// Returns true if no changes were made.
    pub fn is_empty(&self) -> (r: bool)
        ensures
            r == (self.workspace_edit.changes@.dom() == Set::<Seq<char>>::empty()),
    {
        self.workspace_edit.is_empty()
    }
}

} // verus!

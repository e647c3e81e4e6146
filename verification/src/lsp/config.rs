//! LSP server configuration.
use vstd::prelude::*;

use crate::codemod::discovery::snapshot::list_has;
use crate::lsp::rename::{parent_path, parent_path_exec};
use crate::pathname::{join_path, path_join};
use crate::scan::{rfind_char, trim_end_set};
use crate::text::{copy_str, eq_ignore_ascii_case, str_eq_ignore_ascii_case, str_views, string_of, views};

verus! {

/// Trimming characters from the end never lengthens a text, and leaves
/// none of them last.
pub proof fn lemma_trim_end_set(s: Seq<char>, cs: Seq<char>)
    ensures
        trim_end_set(s, cs).len() <= s.len(),
        trim_end_set(s, cs).len() > 0 ==> !cs.contains(trim_end_set(s, cs).last()),
        trim_end_set(s, cs) == s.take(trim_end_set(s, cs).len() as int),
    decreases s.len(),
{
    if s.len() > 0 && cs.contains(s.last()) {
        lemma_trim_end_set(s.drop_last(), cs);
        assert(s.drop_last().take(trim_end_set(s, cs).len() as int) =~= s.take(trim_end_set(s, cs).len() as int));
    } else {
        assert(s.take(s.len() as int) =~= s);
    }
}

/// The last occurrence of a character is an index holding it.
pub proof fn lemma_rfind_char(s: Seq<char>, c: char)
    ensures
        rfind_char(s, c) matches Some(i) ==> 0 <= i < s.len() && s[i] == c,
    decreases s.len(),
{
    if s.len() > 0 && s.last() != c {
        lemma_rfind_char(s.drop_last(), c);
    }
}

/// A parent is shorter than its path.
pub proof fn lemma_parent_shorter(p: Seq<char>)
    ensures
        parent_path(p) matches Some(d) ==> d.len() < p.len(),
{
    let t = trim_end_set(p, seq!['/']);
    lemma_trim_end_set(p, seq!['/']);
    if t.len() > 0 {
        lemma_rfind_char(t, '/');
        if let Some(i) = rfind_char(t, '/') {
            lemma_trim_end_set(t.take(i), seq!['/']);
            assert(seq!['/'][0] == '/');
            assert(seq!['/'].contains('/'));
            if i == t.len() - 1 {
                assert(t.last() == '/');
            }
            reveal_strlit("/");
        }
    }
}

/// The directories above a path, nearest first (`Path::ancestors` without
/// the path itself).
pub open spec fn ancestors(p: Seq<char>) -> Seq<Seq<char>>
    decreases p.len(),
{
    match parent_path(p) {
        Some(d) => {
            proof {
                lemma_parent_shorter(p);
            }
            seq![d] + ancestors(d)
        },
        None => Seq::empty(),
    }
}

/// Some marker of the server stands in the directory, among the paths
/// known to exist.
pub open spec fn has_marker(dir: Seq<char>, markers: Seq<Seq<char>>, existing: Seq<Seq<char>>) -> bool {
    exists|k: int| 0 <= k < markers.len() && existing.contains(path_join(dir, #[trigger] markers[k]))
}

/// The first directory of a sequence that holds a marker.
pub open spec fn first_with_marker(dirs: Seq<Seq<char>>, markers: Seq<Seq<char>>, existing: Seq<Seq<char>>) -> Option<Seq<char>>
    decreases dirs.len(),
{
    if dirs.len() == 0 {
        None
    } else if has_marker(dirs[0], markers, existing) {
        Some(dirs[0])
    } else {
        first_with_marker(dirs.drop_first(), markers, existing)
    }
}

/// The directories above a path, nearest first.
pub fn ancestor_dirs(path: &str) -> (r: Vec<String>)
    ensures
        views(r@) == ancestors(path@),
{
    let mut r: Vec<String> = Vec::new();
    let mut cur = copy_str(path);
    loop
        invariant
            views(r@) + ancestors(cur@) == ancestors(path@),
        decreases cur@.len(),
    {
        match parent_path_exec(cur.as_str()) {
            Some(d) => {
                proof {
                    lemma_parent_shorter(cur@);
                }
                let ds = string_of(&d);
                let ghost before = views(r@);
                r.push(ds.clone());
                assert(views(r@) =~= before.push(ds@));
                assert(ancestors(cur@) == seq![ds@] + ancestors(ds@));
                assert(views(r@) + ancestors(ds@) =~= before + ancestors(cur@));
                cur = ds;
            },
            None => {
                assert(ancestors(cur@) =~= Seq::<Seq<char>>::empty());
                assert(views(r@) + ancestors(cur@) =~= views(r@));
                return r;
            },
        }
    }
}

/// The view of an optional string.
pub open spec fn opt_view(s: Option<String>) -> Option<Seq<char>> {
    match s {
        Some(x) => Some(x@),
        None => None,
    }
}

/// Configuration for the LSP subsystem.
#[derive(Debug)]
pub struct LspConfig {
    /// Timeout for LSP operations in milliseconds.
    pub timeout_ms: u64,
    /// Whether to show LSP server logs.
    pub verbose: bool,
    /// Custom server configurations.
    pub servers: Vec<LspServerConfig>,
}

impl LspConfig {
    /// Creates a new LSP configuration with default settings: a timeout of
    /// 30 seconds, quiet, no custom servers.
    pub fn new() -> (r: Self)
        ensures
            r.timeout_ms == 30000,
            !r.verbose,
            r.servers@.len() == 0,
    {
        LspConfig { timeout_ms: 30000, verbose: false, servers: Vec::new() }
    }

    /// Sets the operation timeout.
    pub fn timeout(self, ms: u64) -> (r: Self)
        ensures
            r.timeout_ms == ms,
            r.verbose == self.verbose,
            r.servers@ == self.servers@,
    {
        LspConfig { timeout_ms: ms, ..self }
    }

    /// Enables verbose logging.
    pub fn verbose(self) -> (r: Self)
        ensures
            r.timeout_ms == self.timeout_ms,
            r.verbose,
            r.servers@ == self.servers@,
    {
        LspConfig { verbose: true, ..self }
    }

    /// Adds a custom server configuration.
    pub fn server(self, config: LspServerConfig) -> (r: Self)
        ensures
            r.timeout_ms == self.timeout_ms,
            r.verbose == self.verbose,
            r.servers@ == self.servers@.push(config),
    {
        let mut s = self;
        s.servers.push(config);
        s
    }
}

/// Configuration for a specific LSP server.
#[derive(Debug, Clone)]
pub struct LspServerConfig {
    /// Name of the language server.
    pub name: String,
    /// Command to start the server.
    pub command: String,
    /// Arguments to pass to the server.
    pub args: Vec<String>,
    /// File extensions this server handles.
    pub extensions: Vec<String>,
    /// Files that indicate the project root.
    pub root_markers: Vec<String>,
}

/// The server lists `ext` among its extensions, ignoring ASCII case.
pub open spec fn handles_ext(c: LspServerConfig, ext: Seq<char>) -> bool {
    exists|i: int|
        0 <= i < c.extensions@.len() && eq_ignore_ascii_case(#[trigger] c.extensions@[i]@, ext)
}

/// Owned copies of string slices.
pub fn owned_strings(items: &[&str]) -> (r: Vec<String>)
    ensures
        views(r@) == str_views(items@),
{
    let mut r: Vec<String> = Vec::new();
    let mut i: usize = 0;
    while i < items.len()
        invariant
            0 <= i <= items.len(),
            views(r@) == str_views(items@).take(i as int),
        decreases items.len() - i,
    {
        let ghost before = r@;
        r.push(copy_str(items[i]));
        assert(views(r@) =~= views(before).push(items@[i as int]@));
        assert(str_views(items@).take(i + 1) =~= str_views(items@).take(i as int).push(
            items@[i as int]@,
        ));
        i = i + 1;
    }
    assert(str_views(items@).take(items@.len() as int) =~= str_views(items@));
    r
}

impl LspServerConfig {
    /// Creates a new server configuration.
    pub fn new(name: &str, command: &str) -> (r: Self)
        ensures
            r.name@ == name@,
            r.command@ == command@,
            r.args@.len() == 0,
            r.extensions@.len() == 0,
            r.root_markers@.len() == 0,
    {
        LspServerConfig {
            name: copy_str(name),
            command: copy_str(command),
            args: Vec::new(),
            extensions: Vec::new(),
            root_markers: Vec::new(),
        }
    }

    /// Sets the command-line arguments.
    pub fn args(self, args: &[&str]) -> (r: Self)
        ensures
            r.name == self.name,
            r.command == self.command,
            views(r.args@) == str_views(args@),
            r.extensions == self.extensions,
            r.root_markers == self.root_markers,
    {
        LspServerConfig { args: owned_strings(args), ..self }
    }

    /// Adds an argument.
    pub fn arg(self, arg: &str) -> (r: Self)
        ensures
            r.name == self.name,
            r.command == self.command,
            views(r.args@) == views(self.args@).push(arg@),
            r.extensions == self.extensions,
            r.root_markers == self.root_markers,
    {
        let mut s = self;
        let ghost before = s.args@;
        s.args.push(copy_str(arg));
        assert(views(s.args@) =~= views(before).push(arg@));
        s
    }

    /// Sets file extensions this server handles.
    pub fn extensions(self, exts: &[&str]) -> (r: Self)
        ensures
            r.name == self.name,
            r.command == self.command,
            r.args == self.args,
            views(r.extensions@) == str_views(exts@),
            r.root_markers == self.root_markers,
    {
        LspServerConfig { extensions: owned_strings(exts), ..self }
    }

    /// Sets root marker files.
    pub fn root_markers(self, markers: &[&str]) -> (r: Self)
        ensures
            r.name == self.name,
            r.command == self.command,
            r.args == self.args,
            r.extensions == self.extensions,
            views(r.root_markers@) == str_views(markers@),
    {
        LspServerConfig { root_markers: owned_strings(markers), ..self }
    }

    /// Checks if this server handles the given file extension, ignoring
    /// ASCII case.
    pub fn handles_extension(&self, ext: &str) -> (r: bool)
        ensures
            r == handles_ext(*self, ext@),
    {
        let mut i: usize = 0;
        while i < self.extensions.len()
            invariant
                0 <= i <= self.extensions.len(),
                forall|j: int|
                    0 <= j < i ==> !eq_ignore_ascii_case(#[trigger] self.extensions@[j]@, ext@),
            decreases self.extensions.len() - i,
        {
            if str_eq_ignore_ascii_case(self.extensions[i].as_str(), ext) {
                return true;
            }
            i = i + 1;
        }
        false
    }

    /// Whether some root marker stands in a directory, among the paths
    /// known to exist.
    fn marker_in(&self, dir: &str, existing: &Vec<String>) -> (r: bool)
        ensures
            r == has_marker(dir@, views(self.root_markers@), views(existing@)),
    {
        let mut i: usize = 0;
        while i < self.root_markers.len()
            invariant
                0 <= i <= self.root_markers.len(),
                forall|k: int|
                    0 <= k < i ==> !views(existing@).contains(path_join(dir@, #[trigger] views(self.root_markers@)[k])),
            decreases self.root_markers.len() - i,
        {
            let candidate = join_path(dir, self.root_markers[i].as_str());
            assert(views(self.root_markers@)[i as int] == self.root_markers@[i as int]@);
            if list_has(existing, candidate.as_str()) {
                return true;
            }
            i = i + 1;
        }
        false
    }

    /// Finds the project root for a file: the nearest directory above it
    /// that holds one of the root markers, given the paths that exist.
    pub fn find_root(&self, file_path: &str, existing: &Vec<String>) -> (r: Option<String>)
        ensures
            opt_view(r) == first_with_marker(ancestors(file_path@), views(self.root_markers@), views(existing@)),
    {
        let dirs = ancestor_dirs(file_path);
        let ghost ds = views(dirs@);
        let mut i: usize = 0;
        assert(ds.skip(0) =~= ds);
        while i < dirs.len()
            invariant
                0 <= i <= dirs.len(),
                ds == views(dirs@),
                ds == ancestors(file_path@),
                first_with_marker(ds, views(self.root_markers@), views(existing@)) == first_with_marker(
                    ds.skip(i as int),
                    views(self.root_markers@),
                    views(existing@),
                ),
            decreases dirs.len() - i,
        {
            assert(ds.skip(i as int)[0] == dirs@[i as int]@);
            assert(ds.skip(i as int).drop_first() =~= ds.skip(i + 1));
            if self.marker_in(dirs[i].as_str(), existing) {
                return Some(dirs[i].clone());
            }
            i = i + 1;
        }
        None
    }
}

} // verus!

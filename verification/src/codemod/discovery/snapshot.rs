//! What discovery reads of a repository: which paths exist and what the
//! readable manifest files hold.
use vstd::prelude::*;

use crate::strmap::StrMap;
use crate::text::{str_eq, views};

verus! {

/// The part of a repository checkout that discovery looks at.
///
/// `entries` are the names in the repository's root directory, in the order
/// in which the directory listing gave them; `nested` are further relative
/// paths below the root that exist; `files` maps relative paths of readable
/// text files to their contents.
#[derive(Debug)]
pub struct RepoSnapshot {
    pub entries: Vec<String>,
    pub nested: Vec<String>,
    pub files: StrMap<String>,
}

impl RepoSnapshot {
    /// The path `p` exists in the repository.
    pub open spec fn has_path(&self, p: Seq<char>) -> bool {
        views(self.entries@).contains(p) || views(self.nested@).contains(p)
            || self.files@.dom().contains(p)
    }

    /// The contents of the readable file at `p`.
    pub open spec fn content_at(&self, p: Seq<char>) -> Option<Seq<char>> {
        if self.files@.dom().contains(p) {
            Some(self.files@[p])
        } else {
            None
        }
    }

    /// An empty snapshot.
    pub fn new() -> (r: Self)
        ensures
            r.entries@.len() == 0,
            r.nested@.len() == 0,
            r.files@ == Map::<Seq<char>, Seq<char>>::empty(),
    {
        RepoSnapshot { entries: Vec::new(), nested: Vec::new(), files: StrMap::new() }
    }

    /// Record a name of the root directory.
    pub fn add_entry(&mut self, name: String)
        ensures
            final(self).entries@ == old(self).entries@.push(name),
            final(self).nested@ == old(self).nested@,
            final(self).files@ == old(self).files@,
    {
        self.entries.push(name);
    }

    /// Record a relative path below the root that exists.
    pub fn add_nested(&mut self, path: String)
        ensures
            final(self).entries@ == old(self).entries@,
            final(self).nested@ == old(self).nested@.push(path),
            final(self).files@ == old(self).files@,
    {
        self.nested.push(path);
    }

    /// Record the contents of a readable file.
    pub fn add_file(&mut self, path: String, content: String)
        ensures
            final(self).entries@ == old(self).entries@,
            final(self).nested@ == old(self).nested@,
            final(self).files@ == old(self).files@.insert(path@, content@),
    {
        self.files.insert(path, content);
    }

    /// Whether the path `p` exists in the repository.
    pub fn path_exists(&self, p: &str) -> (r: bool)
        ensures
            r == self.has_path(p@),
    {
        if list_has(&self.entries, p) || list_has(&self.nested, p) {
            return true;
        }
        self.files.contains_key(p)
    }

    /// The contents of the readable file at `p`.
    pub fn content(&self, p: &str) -> (r: Option<&String>)
        ensures
            match r {
                Some(c) => self.content_at(p@) == Some(c@),
                None => self.content_at(p@) is None,
            },
    {
        self.files.get(p)
    }
}

/// Whether the list holds a string equal to `p`.
pub fn list_has(v: &Vec<String>, p: &str) -> (r: bool)
    ensures
        r == views(v@).contains(p@),
{
    let mut i: usize = 0;
    while i < v.len()
        invariant
            0 <= i <= v.len(),
            forall|j: int| 0 <= j < i ==> v@[j]@ != p@,
        decreases v.len() - i,
    {
        if str_eq(v[i].as_str(), p) {
            assert(views(v@)[i as int] == p@);
            return true;
        }
        i = i + 1;
    }
    assert forall|j: int| 0 <= j < views(v@).len() implies views(v@)[j] != p@ by {
        assert(views(v@)[j] == v@[j]@);
    }
    false
}

} // verus!

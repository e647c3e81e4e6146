//! Repository filtering for codemod operations.
use vstd::prelude::*;

use super::RepoInfo;
use crate::error::RefactorError;
use crate::text::{copy_str, eq_ignore_ascii_case, str_eq, str_eq_ignore_ascii_case, views};

verus! {

/// What the regex crate says of a pattern and a text: none when the pattern
/// does not compile, else whether the compiled pattern matches somewhere in
/// the text.
pub uninterp spec fn regex_outcome(pattern: Seq<char>, text: Seq<char>) -> Option<bool>;

/// `regex::Regex::new(pattern)` and then `Regex::is_match(text)`: an error
/// message when the pattern does not compile, else whether it matches. The
/// outcome is named by `regex_outcome`; the message text is left unsaid.
#[verifier::external_body]
fn regex_is_match(pattern: &str, text: &str) -> (r: Result<bool, String>)
    ensures
        match r {
            Ok(b) => regex_outcome(pattern@, text@) == Some(b),
            Err(_) => regex_outcome(pattern@, text@) is None,
        },
{
    match regex::Regex::new(pattern) {
        Ok(re) => Ok(re.is_match(text)),
        Err(e) => Err(e.to_string()),
    }
}

/// The custom predicates of a filter: boxed closures over repositories.
/// Verus cannot hold boxed closures, so the list is kept behind trusted
/// operations that say how many there are; what a predicate answers is not
/// stated.
#[verifier::external_body]
pub struct PredicateList {
    list: Vec<Box<dyn Fn(&RepoInfo) -> bool + Send + Sync>>,
}

/// The number of predicates in the list.
pub uninterp spec fn predicate_count(p: PredicateList) -> nat;

impl PredicateList {
    /// An empty list (`Vec::new`).
    #[verifier::external_body]
    pub(crate) fn new() -> (r: Self)
        ensures
            predicate_count(r) == 0,
    {
        PredicateList { list: Vec::new() }
    }

    /// Add a predicate at the end (`Vec::push` of the boxed closure).
    #[verifier::external_body]
    pub(crate) fn push<F>(&mut self, f: F)
        where F: Fn(&RepoInfo) -> bool + Send + Sync + 'static,
        ensures
            predicate_count(*final(self)) == predicate_count(*old(self)) + 1,
    {
        self.list.push(Box::new(f));
    }

    /// The number of predicates (`Vec::len`).
    #[verifier::external_body]
    pub(crate) fn len(&self) -> (r: usize)
        ensures
            r == predicate_count(*self),
    {
        self.list.len()
    }

    /// Run the `i`-th predicate on a repository; its answer is the closure's.
    #[verifier::external_body]
    pub(crate) fn call(&self, i: usize, repo: &RepoInfo) -> (r: bool)
        requires
            i < predicate_count(*self),
    {
        (self.list[i])(repo)
    }
}

/// Filter for selecting which repositories to process: required files and
/// topics, excluded topics, archive and fork exclusion, name patterns, and
/// custom predicates.
pub struct RepoFilter {
    pub has_files: Vec<String>,
    pub has_topics: Vec<String>,
    pub exclude_topics: Vec<String>,
    pub exclude_archived: bool,
    pub exclude_forks: bool,
    pub name_patterns: Vec<String>,
    pub custom_predicates: PredicateList,
}

/// The repository has a topic equal to `topic`, ignoring ASCII case.
pub open spec fn has_topic(repo: RepoInfo, topic: Seq<char>) -> bool {
    exists|i: int| 0 <= i < repo.topics@.len() && eq_ignore_ascii_case(#[trigger] repo.topics@[i]@, topic)
}

/// The name patterns from `i` on, in order: none when one does not compile,
/// false at the first that does not match, else true.
pub open spec fn names_outcome(patterns: Seq<Seq<char>>, name: Seq<char>, i: int) -> Option<bool>
    decreases patterns.len() - i,
{
    if i < 0 || i >= patterns.len() {
        Some(true)
    } else {
        match regex_outcome(patterns[i], name) {
            None => None,
            Some(false) => Some(false),
            Some(true) => names_outcome(patterns, name, i + 1),
        }
    }
}

/// What the filter decides of a repository before its custom predicates,
/// given which of its required files exist: false when a required file is
/// missing, a required topic absent or an excluded topic present; then the
/// name patterns decide (none when one does not compile).
pub open spec fn filter_outcome(f: RepoFilter, repo: RepoInfo, present: Seq<Seq<char>>) -> Option<bool> {
    if exists|i: int| 0 <= i < f.has_files@.len() && !present.contains(#[trigger] f.has_files@[i]@) {
        Some(false)
    } else if exists|i: int| 0 <= i < f.has_topics@.len() && !has_topic(repo, #[trigger] f.has_topics@[i]@) {
        Some(false)
    } else if exists|i: int|
        0 <= i < f.exclude_topics@.len() && has_topic(repo, #[trigger] f.exclude_topics@[i]@) {
        Some(false)
    } else {
        names_outcome(views(f.name_patterns@), repo.name@, 0)
    }
}

/// Law: a filter that requires no file or topic, excludes no topic and
/// names no pattern accepts every repository.
pub proof fn law_empty_filter_accepts(f: RepoFilter, repo: RepoInfo, present: Seq<Seq<char>>)
    requires
        f.has_files@.len() == 0,
        f.has_topics@.len() == 0,
        f.exclude_topics@.len() == 0,
        f.name_patterns@.len() == 0,
    ensures
        filter_outcome(f, repo, present) == Some(true),
{
}

/// Whether the repository has the topic, ignoring ASCII case.
fn has_topic_exec(repo: &RepoInfo, topic: &str) -> (r: bool)
    ensures
        r == has_topic(*repo, topic@),
{
    let mut i: usize = 0;
    while i < repo.topics.len()
        invariant
            0 <= i <= repo.topics.len(),
            forall|j: int| 0 <= j < i ==> !eq_ignore_ascii_case(#[trigger] repo.topics@[j]@, topic@),
        decreases repo.topics.len() - i,
    {
        if str_eq_ignore_ascii_case(repo.topics[i].as_str(), topic) {
            return true;
        }
        i = i + 1;
    }
    false
}

/// `v` with a copy of `s` at the end.
fn push_copy(v: &mut Vec<String>, s: &str)
    ensures
        views(final(v)@) == views(old(v)@).push(s@),
{
    let ghost before = v@;
    v.push(copy_str(s));
    assert(views(v@) =~= views(before).push(s@));
}

impl RepoFilter {
    /// Create a new empty filter (matches all repositories).
    pub fn new() -> (r: Self)
        ensures
            r.has_files@.len() == 0,
            r.has_topics@.len() == 0,
            r.exclude_topics@.len() == 0,
            !r.exclude_archived,
            !r.exclude_forks,
            r.name_patterns@.len() == 0,
            predicate_count(r.custom_predicates) == 0,
    {
        RepoFilter {
            has_files: Vec::new(),
            has_topics: Vec::new(),
            exclude_topics: Vec::new(),
            exclude_archived: false,
            exclude_forks: false,
            name_patterns: Vec::new(),
            custom_predicates: PredicateList::new(),
        }
    }

    /// Require the repository to contain a specific file.
    pub fn has_file(self, path: &str) -> (r: Self)
        ensures
            views(r.has_files@) == views(self.has_files@).push(path@),
            r.has_topics == self.has_topics,
            r.exclude_topics == self.exclude_topics,
            r.exclude_archived == self.exclude_archived,
            r.exclude_forks == self.exclude_forks,
            r.name_patterns == self.name_patterns,
            r.custom_predicates == self.custom_predicates,
    {
        let mut s = self;
        push_copy(&mut s.has_files, path);
        s
    }

    /// Require the repository to have a specific topic (case-insensitive).
    pub fn topic(self, topic: &str) -> (r: Self)
        ensures
            r.has_files == self.has_files,
            views(r.has_topics@) == views(self.has_topics@).push(topic@),
            r.exclude_topics == self.exclude_topics,
            r.exclude_archived == self.exclude_archived,
            r.exclude_forks == self.exclude_forks,
            r.name_patterns == self.name_patterns,
            r.custom_predicates == self.custom_predicates,
    {
        let mut s = self;
        push_copy(&mut s.has_topics, topic);
        s
    }

    /// Exclude repositories with a specific topic.
    pub fn exclude_topic(self, topic: &str) -> (r: Self)
        ensures
            r.has_files == self.has_files,
            r.has_topics == self.has_topics,
            views(r.exclude_topics@) == views(self.exclude_topics@).push(topic@),
            r.exclude_archived == self.exclude_archived,
            r.exclude_forks == self.exclude_forks,
            r.name_patterns == self.name_patterns,
            r.custom_predicates == self.custom_predicates,
    {
        let mut s = self;
        push_copy(&mut s.exclude_topics, topic);
        s
    }

    /// Exclude archived repositories.
    pub fn not_archived(self) -> (r: Self)
        ensures
            r.has_files == self.has_files,
            r.has_topics == self.has_topics,
            r.exclude_topics == self.exclude_topics,
            r.exclude_archived,
            r.exclude_forks == self.exclude_forks,
            r.name_patterns == self.name_patterns,
            r.custom_predicates == self.custom_predicates,
    {
        RepoFilter { exclude_archived: true, ..self }
    }

    /// Exclude forked repositories.
    pub fn not_fork(self) -> (r: Self)
        ensures
            r.has_files == self.has_files,
            r.has_topics == self.has_topics,
            r.exclude_topics == self.exclude_topics,
            r.exclude_archived == self.exclude_archived,
            r.exclude_forks,
            r.name_patterns == self.name_patterns,
            r.custom_predicates == self.custom_predicates,
    {
        RepoFilter { exclude_forks: true, ..self }
    }

    /// Require the repository name to match a regex pattern.
    pub fn name_matches(self, pattern: &str) -> (r: Self)
        ensures
            r.has_files == self.has_files,
            r.has_topics == self.has_topics,
            r.exclude_topics == self.exclude_topics,
            r.exclude_archived == self.exclude_archived,
            r.exclude_forks == self.exclude_forks,
            views(r.name_patterns@) == views(self.name_patterns@).push(pattern@),
            r.custom_predicates == self.custom_predicates,
    {
        let mut s = self;
        push_copy(&mut s.name_patterns, pattern);
        s
    }

    /// Add a custom predicate function.
    pub fn filter<F>(self, f: F) -> (r: Self)
        where F: Fn(&RepoInfo) -> bool + Send + Sync + 'static,
        ensures
            r.has_files == self.has_files,
            r.has_topics == self.has_topics,
            r.exclude_topics == self.exclude_topics,
            r.exclude_archived == self.exclude_archived,
            r.exclude_forks == self.exclude_forks,
            r.name_patterns == self.name_patterns,
            predicate_count(r.custom_predicates) == predicate_count(self.custom_predicates) + 1,
    {
        let mut s = self;
        s.custom_predicates.push(f);
        s
    }

    /// Filter for Angular projects (has angular.json).
    pub fn has_angular(self) -> (r: Self)
        ensures
            views(r.has_files@) == views(self.has_files@).push("angular.json"@),
            r.has_topics == self.has_topics,
            r.name_patterns == self.name_patterns,
    {
        self.has_file("angular.json")
    }

    /// Filter for React projects (has package.json; the file's contents are
    /// not read).
    pub fn has_react(self) -> (r: Self)
        ensures
            views(r.has_files@) == views(self.has_files@).push("package.json"@),
            r.has_topics == self.has_topics,
            r.name_patterns == self.name_patterns,
    {
        self.has_file("package.json")
    }

    /// Filter for Rust projects (has Cargo.toml).
    pub fn has_rust(self) -> (r: Self)
        ensures
            views(r.has_files@) == views(self.has_files@).push("Cargo.toml"@),
            r.has_topics == self.has_topics,
            r.name_patterns == self.name_patterns,
    {
        self.has_file("Cargo.toml")
    }

    /// Filter for Python projects (has pyproject.toml).
    pub fn has_python(self) -> (r: Self)
        ensures
            views(r.has_files@) == views(self.has_files@).push("pyproject.toml"@),
            r.has_topics == self.has_topics,
            r.name_patterns == self.name_patterns,
    {
        self.has_file("pyproject.toml")
    }

    /// Filter for Node.js projects (has package.json).
    pub fn has_node(self) -> (r: Self)
        ensures
            views(r.has_files@) == views(self.has_files@).push("package.json"@),
            r.has_topics == self.has_topics,
            r.name_patterns == self.name_patterns,
    {
        self.has_file("package.json")
    }

    /// Filter for TypeScript projects (has tsconfig.json).
    pub fn has_typescript(self) -> (r: Self)
        ensures
            views(r.has_files@) == views(self.has_files@).push("tsconfig.json"@),
            r.has_topics == self.has_topics,
            r.name_patterns == self.name_patterns,
    {
        self.has_file("tsconfig.json")
    }

    /// What the filter decides before its custom predicates, given the
    /// required files that exist in the repository's checkout.
    pub fn check(&self, repo: &RepoInfo, present: &Vec<String>) -> (r: Result<bool, RefactorError>)
        ensures
            match filter_outcome(*self, *repo, views(present@)) {
                Some(b) => r == Ok::<bool, RefactorError>(b),
                None => r matches Err(RefactorError::Regex(_)),
            },
    {
        let mut i: usize = 0;
        while i < self.has_files.len()
            invariant
                0 <= i <= self.has_files.len(),
                forall|j: int| 0 <= j < i ==> views(present@).contains(#[trigger] self.has_files@[j]@),
            decreases self.has_files.len() - i,
        {
            if !crate::codemod::discovery::snapshot::list_has(present, self.has_files[i].as_str()) {
                return Ok(false);
            }
            i = i + 1;
        }
        let mut i: usize = 0;
        while i < self.has_topics.len()
            invariant
                0 <= i <= self.has_topics.len(),
                forall|j: int| 0 <= j < self.has_files@.len() ==> views(present@).contains(#[trigger] self.has_files@[j]@),
                forall|j: int| 0 <= j < i ==> has_topic(*repo, #[trigger] self.has_topics@[j]@),
            decreases self.has_topics.len() - i,
        {
            if !has_topic_exec(repo, self.has_topics[i].as_str()) {
                return Ok(false);
            }
            i = i + 1;
        }
        let mut i: usize = 0;
        while i < self.exclude_topics.len()
            invariant
                0 <= i <= self.exclude_topics.len(),
                forall|j: int| 0 <= j < self.has_files@.len() ==> views(present@).contains(#[trigger] self.has_files@[j]@),
                forall|j: int| 0 <= j < self.has_topics@.len() ==> has_topic(*repo, #[trigger] self.has_topics@[j]@),
                forall|j: int| 0 <= j < i ==> !has_topic(*repo, #[trigger] self.exclude_topics@[j]@),
            decreases self.exclude_topics.len() - i,
        {
            if has_topic_exec(repo, self.exclude_topics[i].as_str()) {
                return Ok(false);
            }
            i = i + 1;
        }
        let ghost pats = views(self.name_patterns@);
        let mut i: usize = 0;
        while i < self.name_patterns.len()
            invariant
                0 <= i <= self.name_patterns.len(),
                pats == views(self.name_patterns@),
                filter_outcome(*self, *repo, views(present@)) == names_outcome(pats, repo.name@, i as int),
            decreases self.name_patterns.len() - i,
        {
            assert(pats[i as int] == self.name_patterns@[i as int]@);
            match regex_is_match(self.name_patterns[i].as_str(), repo.name.as_str()) {
                Ok(true) => {},
                Ok(false) => {
                    return Ok(false);
                },
                Err(message) => {
                    return Err(RefactorError::Regex(message));
                },
            }
            i = i + 1;
        }
        Ok(true)
    }

    /// Test if a repository matches this filter, given the required files
    /// that exist in its checkout: the checks of `check`, then the custom
    /// predicates in order.
    pub fn matches(&self, repo: &RepoInfo, present: &Vec<String>) -> (r: Result<bool, RefactorError>)
        ensures
            match filter_outcome(*self, *repo, views(present@)) {
                Some(true) => (r matches Ok(_)) && (predicate_count(self.custom_predicates) == 0
                    ==> r == Ok::<bool, RefactorError>(true)),
                Some(false) => r == Ok::<bool, RefactorError>(false),
                None => r matches Err(RefactorError::Regex(_)),
            },
    {
        match self.check(repo, present) {
            Ok(true) => {},
            other => {
                return other;
            },
        }
        let n = self.custom_predicates.len();
        let mut i: usize = 0;
        while i < n
            invariant
                0 <= i <= n,
                n == predicate_count(self.custom_predicates),
                filter_outcome(*self, *repo, views(present@)) == Some(true),
            decreases n - i,
        {
            if !self.custom_predicates.call(i, repo) {
                return Ok(false);
            }
            i = i + 1;
        }
        Ok(true)
    }

    /// Check if archived repos should be excluded.
    pub fn excludes_archived(&self) -> (r: bool)
        ensures
            r == self.exclude_archived,
    {
        self.exclude_archived
    }

    /// Check if fork repos should be excluded.
    pub fn excludes_forks(&self) -> (r: bool)
        ensures
            r == self.exclude_forks,
    {
        self.exclude_forks
    }
}

} // verus!

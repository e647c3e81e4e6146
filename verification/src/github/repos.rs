//! GitHub repositories and filters over lists of them.
use vstd::prelude::*;

use crate::error::RefactorError;
use crate::text::{contains, eq_ignore_ascii_case, lowercase, str_contains, str_eq_ignore_ascii_case, to_lowercase};

verus! {

/// Repository information from the GitHub API.
#[derive(Debug, Clone)]
pub struct GitHubRepo {
    pub id: u64,
    pub name: String,
    pub full_name: String,
    pub clone_url: String,
    pub ssh_url: String,
    pub default_branch: String,
    pub archived: bool,
    pub fork: bool,
    pub topics: Vec<String>,
    pub language: Option<String>,
    pub pushed_at: Option<String>,
    pub description: Option<String>,
    pub is_private: bool,
}

/// Repository listing and search operations.
pub trait RepoOps {
    /// List all repositories in an organization.
    fn list_org_repos(&self, org: &str) -> Result<Vec<GitHubRepo>, RefactorError>;

    /// List all repositories for a user.
    fn list_user_repos(&self, user: &str) -> Result<Vec<GitHubRepo>, RefactorError>;

    /// Search for repositories.
    fn search_repos(&self, query: &str) -> Result<Vec<GitHubRepo>, RefactorError>;

    /// Get a specific repository.
    fn get_repo(&self, owner: &str, name: &str) -> Result<GitHubRepo, RefactorError>;

    /// List repositories in an organization filtered by topic.
    fn list_org_repos_with_topic(&self, org: &str, topic: &str) -> Result<Vec<GitHubRepo>, RefactorError>;
}

/// The repository's language is `lang`, ignoring ASCII case.
pub open spec fn has_language(r: GitHubRepo, lang: Seq<char>) -> bool {
    match r.language {
        Some(l) => eq_ignore_ascii_case(l@, lang),
        None => false,
    }
}

/// The repository has the topic, ignoring ASCII case.
pub open spec fn repo_has_topic(r: GitHubRepo, topic: Seq<char>) -> bool {
    exists|i: int| 0 <= i < r.topics@.len() && eq_ignore_ascii_case(#[trigger] r.topics@[i]@, topic)
}

/// The lower-cased name contains the lower-cased pattern.
pub open spec fn name_has(r: GitHubRepo, pattern: Seq<char>) -> bool {
    contains(lowercase(r.name@), lowercase(pattern))
}

/// Filters over lists of repositories.
pub trait RepoFilterExt: Sized {
    /// Filter to non-archived repositories.
    fn active(self) -> Self;

    /// Filter to non-fork repositories.
    fn source_only(self) -> Self;

    /// Filter by language.
    fn with_language(self, lang: &str) -> Self;

    /// Filter by topic.
    fn with_topic(self, topic: &str) -> Self;

    /// Filter by name pattern (case-insensitive contains).
    fn name_contains(self, pattern: &str) -> Self;
}

/// Whether a repository has the topic, ignoring ASCII case.
fn repo_has_topic_exec(r: &GitHubRepo, topic: &str) -> (b: bool)
    ensures
        b == repo_has_topic(*r, topic@),
{
    let mut i: usize = 0;
    while i < r.topics.len()
        invariant
            0 <= i <= r.topics.len(),
            forall|j: int| 0 <= j < i ==> !eq_ignore_ascii_case(#[trigger] r.topics@[j]@, topic@),
        decreases r.topics.len() - i,
    {
        if str_eq_ignore_ascii_case(r.topics[i].as_str(), topic) {
            return true;
        }
        i = i + 1;
    }
    false
}

/// The items of `s` whose flag in `keep` is set, in order.
pub open spec fn select_spec<A>(s: Seq<A>, keep: Seq<bool>) -> Seq<A>
    decreases s.len(),
{
    if s.len() == 0 || keep.len() == 0 {
        Seq::empty()
    } else {
        let rest = select_spec(s.drop_last(), keep.drop_last());
        if keep.last() {
            rest.push(s.last())
        } else {
            rest
        }
    }
}

/// Selecting by the flags of a predicate is filtering by it.
proof fn lemma_select_filter<A>(s: Seq<A>, keep: Seq<bool>, pred: spec_fn(A) -> bool)
    requires
        s.len() == keep.len(),
        forall|i: int| 0 <= i < s.len() ==> keep[i] == pred(s[i]),
    ensures
        select_spec(s, keep) == s.filter(pred),
    decreases s.len(),
{
    reveal(Seq::filter);
    if s.len() > 0 {
        lemma_select_filter(s.drop_last(), keep.drop_last(), pred);
    }
}

/// The items whose flag is set, moved out of `v` in order.
fn select<A>(v: Vec<A>, keep: &Vec<bool>) -> (r: Vec<A>)
    requires
        keep@.len() == v@.len(),
    ensures
        r@ == select_spec(v@, keep@),
{
    let ghost orig = v@;
    let mut rest = v;
    let mut out: Vec<A> = Vec::new();
    let n = keep.len();
    let mut i: usize = 0;
    assert(orig.skip(0) =~= orig);
    while i < n
        invariant
            0 <= i <= n,
            n == orig.len(),
            n == keep@.len(),
            rest@ == orig.skip(i as int),
            out@ == select_spec(orig.take(i as int), keep@.take(i as int)),
        decreases n - i,
    {
        assert(orig.take(i + 1).drop_last() =~= orig.take(i as int));
        assert(keep@.take(i + 1).drop_last() =~= keep@.take(i as int));
        let x = rest.remove(0);
        assert(x == orig[i as int]);
        assert(rest@ =~= orig.skip(i + 1));
        if keep[i] {
            out.push(x);
        }
        i = i + 1;
    }
    assert(orig.take(n as int) =~= orig);
    assert(keep@.take(n as int) =~= keep@);
    out
}

impl RepoFilterExt for Vec<GitHubRepo> {
    fn active(self) -> (r: Self)
        ensures
            r@ == self@.filter(|x: GitHubRepo| !x.archived),
    {
        let mut keep: Vec<bool> = Vec::new();
        let mut i: usize = 0;
        while i < self.len()
            invariant
                0 <= i <= self.len(),
                keep@.len() == i,
                forall|j: int| 0 <= j < i ==> keep@[j] == !self@[j].archived,
            decreases self.len() - i,
        {
            keep.push(!self[i].archived);
            i = i + 1;
        }
        proof {
            lemma_select_filter(self@, keep@, |x: GitHubRepo| !x.archived);
        }
        select(self, &keep)
    }

    fn source_only(self) -> (r: Self)
        ensures
            r@ == self@.filter(|x: GitHubRepo| !x.fork),
    {
        let mut keep: Vec<bool> = Vec::new();
        let mut i: usize = 0;
        while i < self.len()
            invariant
                0 <= i <= self.len(),
                keep@.len() == i,
                forall|j: int| 0 <= j < i ==> keep@[j] == !self@[j].fork,
            decreases self.len() - i,
        {
            keep.push(!self[i].fork);
            i = i + 1;
        }
        proof {
            lemma_select_filter(self@, keep@, |x: GitHubRepo| !x.fork);
        }
        select(self, &keep)
    }

    fn with_language(self, lang: &str) -> (r: Self)
        ensures
            r@ == self@.filter(|x: GitHubRepo| has_language(x, lang@)),
    {
        let mut keep: Vec<bool> = Vec::new();
        let mut i: usize = 0;
        while i < self.len()
            invariant
                0 <= i <= self.len(),
                keep@.len() == i,
                forall|j: int| 0 <= j < i ==> keep@[j] == has_language(self@[j], lang@),
            decreases self.len() - i,
        {
            let k = match &self[i].language {
                Some(l) => str_eq_ignore_ascii_case(l.as_str(), lang),
                None => false,
            };
            keep.push(k);
            i = i + 1;
        }
        proof {
            lemma_select_filter(self@, keep@, |x: GitHubRepo| has_language(x, lang@));
        }
        select(self, &keep)
    }

    fn with_topic(self, topic: &str) -> (r: Self)
        ensures
            r@ == self@.filter(|x: GitHubRepo| repo_has_topic(x, topic@)),
    {
        let mut keep: Vec<bool> = Vec::new();
        let mut i: usize = 0;
        while i < self.len()
            invariant
                0 <= i <= self.len(),
                keep@.len() == i,
                forall|j: int| 0 <= j < i ==> keep@[j] == repo_has_topic(self@[j], topic@),
            decreases self.len() - i,
        {
            keep.push(repo_has_topic_exec(&self[i], topic));
            i = i + 1;
        }
        proof {
            lemma_select_filter(self@, keep@, |x: GitHubRepo| repo_has_topic(x, topic@));
        }
        select(self, &keep)
    }

    fn name_contains(self, pattern: &str) -> (r: Self)
        ensures
            r@ == self@.filter(|x: GitHubRepo| name_has(x, pattern@)),
    {
        let pattern_lower = to_lowercase(pattern);
        let mut keep: Vec<bool> = Vec::new();
        let mut i: usize = 0;
        while i < self.len()
            invariant
                0 <= i <= self.len(),
                pattern_lower@ == lowercase(pattern@),
                keep@.len() == i,
                forall|j: int| 0 <= j < i ==> keep@[j] == name_has(self@[j], pattern@),
            decreases self.len() - i,
        {
            let name_lower = to_lowercase(self[i].name.as_str());
            keep.push(str_contains(name_lower.as_str(), pattern_lower.as_str()));
            i = i + 1;
        }
        proof {
            lemma_select_filter(self@, keep@, |x: GitHubRepo| name_has(x, pattern@));
        }
        select(self, &keep)
    }
}

/// The most pages of a repository listing that are asked for.
pub const MAX_LISTING_PAGES: u32 = 100;

/// Paging through a repository listing: the page to ask for next, until a
/// page comes back empty or the page limit is reached.
#[derive(Debug, Clone, Copy, PartialEq, Eq, Structural)]
pub struct RepoPager {
    pub page: u32,
    pub done: bool,
}

impl RepoPager {
    /// The pager's states: pages are counted from 1, and one past the limit
    /// only once the listing is over.
    pub open spec fn well_formed(self) -> bool {
        &&& 1 <= self.page <= MAX_LISTING_PAGES + 1
        &&& (self.page > MAX_LISTING_PAGES ==> self.done)
    }

    /// A pager at the first page.
    pub fn new() -> (r: Self)
        ensures
            r.well_formed(),
            r.page == 1,
            !r.done,
    {
        RepoPager { page: 1, done: false }
    }

    /// The page to ask for next: none once the listing is over, and never
    /// one past the limit.
    pub fn next_page(&self) -> (r: Option<u32>)
        requires
            self.well_formed(),
        ensures
            r == (if self.done {
                None
            } else {
                Some(self.page)
            }),
            r matches Some(p) ==> 1 <= p <= MAX_LISTING_PAGES,
    {
        if self.done {
            None
        } else {
            Some(self.page)
        }
    }

    /// Take in how many repositories the page just asked for held: an empty
    /// page ends the listing; otherwise the next page is due, unless that
    /// would pass the limit.
    pub fn received(&mut self, count: usize)
        requires
            old(self).well_formed(),
            !old(self).done,
        ensures
            final(self).well_formed(),
            count == 0 ==> *final(self) == (RepoPager { page: old(self).page, done: true }),
            count > 0 ==> *final(self) == (RepoPager {
                page: (old(self).page + 1) as u32,
                done: old(self).page + 1 > MAX_LISTING_PAGES,
            }),
    {
        if count == 0 {
            self.done = true;
        } else {
            self.page = self.page + 1;
            self.done = self.page > MAX_LISTING_PAGES;
        }
    }
}

} // verus!

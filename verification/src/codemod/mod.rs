//! Codemods across repositories: discovery of what a repository holds,
//! repository filters and source upgrades.
pub mod discovery;
pub mod executor;
pub mod filter;
pub mod run;
pub mod upgrade;

use vstd::prelude::*;

use crate::github::repos::GitHubRepo;
use crate::text::{copy_str, views};

verus! {

/// Information about a repository being processed.
#[derive(Debug, Clone)]
pub struct RepoInfo {
    pub name: String,
    pub full_name: String,
    pub local_path: String,
    pub remote_url: Option<String>,
    pub default_branch: String,
    pub topics: Vec<String>,
}

/// Copies of a list of strings.
pub fn copy_strings(v: &Vec<String>) -> (r: Vec<String>)
    ensures
        views(r@) == views(v@),
{
    let mut r: Vec<String> = Vec::new();
    let mut i: usize = 0;
    while i < v.len()
        invariant
            0 <= i <= v.len(),
            views(r@) == views(v@).take(i as int),
        decreases v.len() - i,
    {
        let ghost before = r@;
        r.push(copy_str(v[i].as_str()));
        assert(views(r@) =~= views(before).push(v@[i as int]@));
        assert(views(v@).take(i + 1) =~= views(v@).take(i as int).push(v@[i as int]@));
        i = i + 1;
    }
    assert(views(v@).take(v.len() as int) =~= views(v@));
    r
}

impl RepoInfo {
    /// The information of a GitHub repository, before it has a checkout
    /// (the local path is empty until it is cloned).
    pub fn from_github(repo: &GitHubRepo) -> (r: Self)
        ensures
            r.name@ == repo.name@,
            r.full_name@ == repo.full_name@,
            r.local_path@ == Seq::<char>::empty(),
            r.remote_url matches Some(u) && u@ == repo.clone_url@,
            r.default_branch@ == repo.default_branch@,
            views(r.topics@) == views(repo.topics@),
    {
        let local_path = String::new();
        RepoInfo {
            name: copy_str(repo.name.as_str()),
            full_name: copy_str(repo.full_name.as_str()),
            local_path,
            remote_url: Some(copy_str(repo.clone_url.as_str())),
            default_branch: copy_str(repo.default_branch.as_str()),
            topics: copy_strings(&repo.topics),
        }
    }
}

} // verus!

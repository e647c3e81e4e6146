//! GitHub: repositories, their filters, and pull requests.
pub mod pr;
pub mod repos;

use vstd::prelude::*;

use crate::error::RefactorError;
use crate::text::{chars_of, copy_str, push_str, str_starts_with, string_of_range};
use repos::GitHubRepo;

verus! {

/// Cloning repositories into a directory.
pub trait CloneOps {
    /// Clone a repository into `target`, giving the checkout's path.
    fn clone_repo(&self, repo: &GitHubRepo, target: &str) -> Result<String, RefactorError>;

    /// Clone a repository, or update it when it is already there.
    fn clone_or_update(&self, repo: &GitHubRepo, target: &str) -> Result<String, RefactorError>;

    /// Clone a repository named by its owner and name.
    fn clone_by_name(&self, owner: &str, name: &str, target: &str) -> Result<String, RefactorError>;
}

/// A clone URL carrying a token: `https://` URLs get the token as their
/// user, others stay as they are.
pub open spec fn authenticated_url_spec(token: Seq<char>, url: Seq<char>) -> Seq<char> {
    if "https://"@.is_prefix_of(url) {
        "https://"@ + token + "@"@ + url.skip(8)
    } else {
        url
    }
}

/// A clone URL carrying a token (the first `https://` becomes
/// `https://<token>@`).
pub fn authenticated_url(token: &str, url: &str) -> (r: String)
    ensures
        r@ == authenticated_url_spec(token@, url@),
{
    proof {
        reveal_strlit("https://");
    }
    if str_starts_with(url, "https://") {
        let v = chars_of(url);
        let mut s = copy_str("https://");
        push_str(&mut s, token);
        push_str(&mut s, "@");
        let rest = string_of_range(&v, 8, v.len());
        push_str(&mut s, rest.as_str());
        assert(v@.subrange(8, v@.len() as int) =~= url@.skip(8));
        s
    } else {
        copy_str(url)
    }
}

/// The API base URL of a GitHub Enterprise server, without one trailing `/`.
pub open spec fn api_base_url_spec(url: Seq<char>) -> Seq<char> {
    if url.len() > 0 && url.last() == '/' {
        url.drop_last()
    } else {
        url
    }
}

/// The API base URL of a GitHub Enterprise server, without one trailing `/`.
pub fn api_base_url(url: &str) -> (r: String)
    ensures
        r@ == api_base_url_spec(url@),
{
    let v = chars_of(url);
    if v.len() > 0 && v[v.len() - 1] == '/' {
        let r = string_of_range(&v, 0, v.len() - 1);
        assert(v@.subrange(0, v.len() - 1) =~= url@.drop_last());
        r
    } else {
        copy_str(url)
    }
}

} // verus!

//! Pull requests.
use vstd::prelude::*;

use crate::error::RefactorError;
use crate::text::{chars_of, copy_str};

verus! {

/// A pull request on GitHub.
#[derive(Debug, Clone)]
pub struct PullRequest {
    pub id: u64,
    pub number: u64,
    pub html_url: String,
    pub state: String,
    pub title: String,
    pub body: Option<String>,
    pub head: PullRequestRef,
    pub base: PullRequestRef,
    pub draft: bool,
    pub merged: bool,
}

/// A reference (branch) in a pull request.
#[derive(Debug, Clone)]
pub struct PullRequestRef {
    pub ref_name: String,
    pub sha: String,
}

/// Request body for creating a pull request.
#[derive(Debug, Clone)]
pub struct CreatePullRequest {
    pub title: String,
    pub body: String,
    pub head: String,
    pub base: String,
    pub draft: Option<bool>,
    pub maintainer_can_modify: Option<bool>,
}

impl CreatePullRequest {
    /// Create a new pull request.
    pub fn new(title: &str, body: &str, head: &str, base: &str) -> (r: Self)
        ensures
            r.title@ == title@,
            r.body@ == body@,
            r.head@ == head@,
            r.base@ == base@,
            r.draft is None,
            r.maintainer_can_modify is None,
    {
        CreatePullRequest {
            title: copy_str(title),
            body: copy_str(body),
            head: copy_str(head),
            base: copy_str(base),
            draft: None,
            maintainer_can_modify: None,
        }
    }

    /// Set the pull request as a draft.
    pub fn draft(self) -> (r: Self)
        ensures
            r.title == self.title,
            r.body == self.body,
            r.head == self.head,
            r.base == self.base,
            r.draft == Some(true),
            r.maintainer_can_modify == self.maintainer_can_modify,
    {
        CreatePullRequest { draft: Some(true), ..self }
    }

    /// Allow maintainers to modify the pull request.
    pub fn maintainer_can_modify(self) -> (r: Self)
        ensures
            r.title == self.title,
            r.body == self.body,
            r.head == self.head,
            r.base == self.base,
            r.draft == self.draft,
            r.maintainer_can_modify == Some(true),
    {
        CreatePullRequest { maintainer_can_modify: Some(true), ..self }
    }
}

/// Pull request operations.
pub trait PullRequestOps {
    /// Create a new pull request.
    fn create_pull_request(&self, owner: &str, repo: &str, pr: CreatePullRequest) -> Result<PullRequest, RefactorError>;

    /// List open pull requests for a repository.
    fn list_pull_requests(&self, owner: &str, repo: &str) -> Result<Vec<PullRequest>, RefactorError>;

    /// Get a specific pull request.
    fn get_pull_request(&self, owner: &str, repo: &str, number: u64) -> Result<PullRequest, RefactorError>;

    /// Check if a pull request exists for a branch.
    fn pull_request_exists(&self, owner: &str, repo: &str, head_branch: &str) -> Result<bool, RefactorError>;
}

/// Builder of a pull request for one repository.
#[derive(Debug, Clone)]
pub struct PullRequestBuilder {
    pub owner: String,
    pub repo: String,
    pub title: String,
    pub body: String,
    pub head: String,
    pub base: String,
    pub draft: bool,
}

/// The request a builder stands for: its title, body, head and base, marked
/// as a draft when the builder is one.
pub open spec fn built_request(b: PullRequestBuilder, r: CreatePullRequest) -> bool {
    &&& r.title@ == b.title@
    &&& r.body@ == b.body@
    &&& r.head@ == b.head@
    &&& r.base@ == b.base@
    &&& r.draft == (if b.draft {
        Some(true)
    } else {
        None
    })
    &&& r.maintainer_can_modify is None
}

impl PullRequestBuilder {
    /// A builder for a repository: no title, body or head yet, based on
    /// `main`, not a draft.
    pub fn new(owner: &str, repo: &str) -> (r: Self)
        ensures
            r.owner@ == owner@,
            r.repo@ == repo@,
            r.title@ == Seq::<char>::empty(),
            r.body@ == Seq::<char>::empty(),
            r.head@ == Seq::<char>::empty(),
            r.base@ == "main"@,
            !r.draft,
    {
        PullRequestBuilder {
            owner: copy_str(owner),
            repo: copy_str(repo),
            title: String::new(),
            body: String::new(),
            head: String::new(),
            base: copy_str("main"),
            draft: false,
        }
    }

    /// Set the pull request title.
    pub fn title(self, title: &str) -> (r: Self)
        ensures
            r == (PullRequestBuilder { title: r.title, ..self }),
            r.title@ == title@,
    {
        PullRequestBuilder { title: copy_str(title), ..self }
    }

    /// Set the pull request body.
    pub fn body(self, body: &str) -> (r: Self)
        ensures
            r == (PullRequestBuilder { body: r.body, ..self }),
            r.body@ == body@,
    {
        PullRequestBuilder { body: copy_str(body), ..self }
    }

    /// Set the head branch (the branch with changes).
    pub fn head(self, head: &str) -> (r: Self)
        ensures
            r == (PullRequestBuilder { head: r.head, ..self }),
            r.head@ == head@,
    {
        PullRequestBuilder { head: copy_str(head), ..self }
    }

    /// Set the base branch (the branch to merge into).
    pub fn base(self, base: &str) -> (r: Self)
        ensures
            r == (PullRequestBuilder { base: r.base, ..self }),
            r.base@ == base@,
    {
        PullRequestBuilder { base: copy_str(base), ..self }
    }

    /// Mark the pull request as a draft.
    pub fn draft(self) -> (r: Self)
        ensures
            r == (PullRequestBuilder { draft: true, ..self }),
    {
        PullRequestBuilder { draft: true, ..self }
    }

    /// The request to send: refused without a title, then without a head
    /// branch.
    pub fn request(&self) -> (r: Result<CreatePullRequest, RefactorError>)
        ensures
            self.title@.len() == 0 ==> (r matches Err(RefactorError::InvalidConfig(m)) && m@
                == "Pull request title is required"@),
            self.title@.len() > 0 && self.head@.len() == 0 ==> (r matches Err(
                RefactorError::InvalidConfig(m),
            ) && m@ == "Pull request head branch is required"@),
            self.title@.len() > 0 && self.head@.len() > 0 ==> (r matches Ok(req) && built_request(*self, req)),
    {
        if chars_of(self.title.as_str()).len() == 0 {
            return Err(RefactorError::InvalidConfig(copy_str("Pull request title is required")));
        }
        if chars_of(self.head.as_str()).len() == 0 {
            return Err(RefactorError::InvalidConfig(copy_str("Pull request head branch is required")));
        }
        let pr = CreatePullRequest::new(self.title.as_str(), self.body.as_str(), self.head.as_str(), self.base.as_str());
        if self.draft {
            Ok(pr.draft())
        } else {
            Ok(pr)
        }
    }

    /// Create the pull request through a client. The builder's own checks
    /// come first; what the service answers is the client's.
    pub fn create<C: PullRequestOps>(self, client: &C) -> (r: Result<PullRequest, RefactorError>)
        ensures
            self.title@.len() == 0 ==> (r matches Err(RefactorError::InvalidConfig(m)) && m@
                == "Pull request title is required"@),
            self.title@.len() > 0 && self.head@.len() == 0 ==> (r matches Err(
                RefactorError::InvalidConfig(m),
            ) && m@ == "Pull request head branch is required"@),
    {
        match self.request() {
            Ok(pr) => client.create_pull_request(self.owner.as_str(), self.repo.as_str(), pr),
            Err(e) => Err(e),
        }
    }
}

} // verus!

//! Git operations: authentication settings and the branch and remote
//! operations a repository offers.
pub mod auth;

use vstd::prelude::*;

use crate::error::RefactorError;

verus! {

/// Branch operations on a repository.
pub trait BranchOps {
    /// Create a new branch from HEAD.
    fn create_branch(&self, name: &str) -> Result<(), RefactorError>;

    /// Checkout an existing branch.
    fn checkout_branch(&self, name: &str) -> Result<(), RefactorError>;

    /// Create and checkout a new branch.
    fn create_and_checkout(&self, name: &str) -> Result<(), RefactorError>;

    /// Check if a branch exists.
    fn branch_exists(&self, name: &str) -> bool;

    /// Get the current branch name.
    fn current_branch(&self) -> Result<String, RefactorError>;

    /// Delete a branch.
    fn delete_branch(&self, name: &str, force: bool) -> Result<(), RefactorError>;

    /// List all local branches.
    fn list_branches(&self) -> Result<Vec<String>, RefactorError>;
}

/// Remote operations on a repository.
pub trait PushOps {
    /// Push a branch to a remote.
    fn push(&self, remote_name: &str, branch: &str) -> Result<(), RefactorError>;

    /// Push a branch and set it as the upstream.
    fn push_with_upstream(&self, remote_name: &str, branch: &str) -> Result<(), RefactorError>;

    /// Fetch branches from a remote.
    fn fetch(&self, remote_name: &str, branches: &[&str]) -> Result<(), RefactorError>;

    /// The URL of a remote.
    fn remote_url(&self, remote_name: &str) -> Result<String, RefactorError>;

    /// Check if a remote exists.
    fn remote_exists(&self, remote_name: &str) -> bool;

    /// List remote names.
    fn list_remotes(&self) -> Result<Vec<String>, RefactorError>;
}

} // verus!

//! Errors that the library's operations report.
use vstd::prelude::*;

use crate::text::{copy_str, push_str};

verus! {

/// The main error type for refactoring operations.
#[derive(Debug, Clone, PartialEq, Eq)]
pub enum RefactorError {
    /// A source file could not be parsed.
    Parse { path: String, message: String },
    /// Language not supported.
    UnsupportedLanguage(String),
    /// No files matched the specified criteria.
    NoFilesMatched,
    /// Repository not found at a path.
    RepoNotFound(String),
    /// A transform could not be applied.
    TransformFailed { message: String },
    /// File not found.
    FileNotFound(String),
    /// Invalid configuration.
    InvalidConfig(String),
    /// A glob pattern did not compile; the glob crate's message.
    Glob(String),
    /// A tree-sitter query did not compile; tree-sitter's message.
    Query(String),
    /// A regular expression did not compile; the regex crate's message.
    Regex(String),
    /// A git operation failed; git's message.
    Git(String),
    /// An I/O operation failed; the system's message.
    Io(String),
    /// Git authentication could not be set up.
    GitAuth { message: String },
    /// A branch operation failed.
    BranchError { message: String },
    /// A push or fetch failed.
    PushError { message: String },
    /// Cloning a repository failed.
    CloneError { repo: String, message: String },
    /// A GitHub API call failed.
    GitHub { message: String },
    /// A pull request operation failed.
    PullRequestError { message: String },
}

/// The text an error is shown with.
pub open spec fn error_message(e: RefactorError) -> Seq<char> {
    match e {
        RefactorError::Parse { path, message } => "Tree-sitter parse error for "@ + path@ + ": "@ + message@,
        RefactorError::UnsupportedLanguage(l) => "Language not supported: "@ + l@,
        RefactorError::NoFilesMatched => "No files matched the specified criteria"@,
        RefactorError::RepoNotFound(p) => "Repository not found at path: "@ + p@,
        RefactorError::TransformFailed { message } => "Transform failed: "@ + message@,
        RefactorError::FileNotFound(p) => "File not found: "@ + p@,
        RefactorError::InvalidConfig(m) => "Invalid configuration: "@ + m@,
        RefactorError::Glob(m) => "Glob pattern error: "@ + m@,
        RefactorError::Query(m) => "Tree-sitter query error: "@ + m@,
        RefactorError::Regex(m) => "Regex error: "@ + m@,
        RefactorError::Git(m) => "Git error: "@ + m@,
        RefactorError::Io(m) => "IO error: "@ + m@,
        RefactorError::GitAuth { message } => "Git authentication error: "@ + message@,
        RefactorError::BranchError { message } => "Branch error: "@ + message@,
        RefactorError::PushError { message } => "Push error: "@ + message@,
        RefactorError::CloneError { repo, message } => "Clone error for "@ + repo@ + ": "@ + message@,
        RefactorError::GitHub { message } => "GitHub API error: "@ + message@,
        RefactorError::PullRequestError { message } => "Pull request error: "@ + message@,
    }
}

impl RefactorError {
    /// The text the error is shown with.
    pub fn message(&self) -> (r: String)
        ensures
            r@ == error_message(*self),
    {
        match self {
            RefactorError::Parse { path, message } => {
                let mut out = copy_str("Tree-sitter parse error for ");
                push_str(&mut out, path.as_str());
                push_str(&mut out, ": ");
                push_str(&mut out, message.as_str());
                out
            },
            RefactorError::UnsupportedLanguage(l) => {
                let mut out = copy_str("Language not supported: ");
                push_str(&mut out, l.as_str());
                out
            },
            RefactorError::NoFilesMatched => {
                let mut out = copy_str("No files matched the specified criteria");
                out
            },
            RefactorError::RepoNotFound(p) => {
                let mut out = copy_str("Repository not found at path: ");
                push_str(&mut out, p.as_str());
                out
            },
            RefactorError::TransformFailed { message } => {
                let mut out = copy_str("Transform failed: ");
                push_str(&mut out, message.as_str());
                out
            },
            RefactorError::FileNotFound(p) => {
                let mut out = copy_str("File not found: ");
                push_str(&mut out, p.as_str());
                out
            },
            RefactorError::InvalidConfig(m) => {
                let mut out = copy_str("Invalid configuration: ");
                push_str(&mut out, m.as_str());
                out
            },
            RefactorError::Glob(m) => {
                let mut out = copy_str("Glob pattern error: ");
                push_str(&mut out, m.as_str());
                out
            },
            RefactorError::Query(m) => {
                let mut out = copy_str("Tree-sitter query error: ");
                push_str(&mut out, m.as_str());
                out
            },
            RefactorError::Regex(m) => {
                let mut out = copy_str("Regex error: ");
                push_str(&mut out, m.as_str());
                out
            },
            RefactorError::Git(m) => {
                let mut out = copy_str("Git error: ");
                push_str(&mut out, m.as_str());
                out
            },
            RefactorError::Io(m) => {
                let mut out = copy_str("IO error: ");
                push_str(&mut out, m.as_str());
                out
            },
            RefactorError::GitAuth { message } => {
                let mut out = copy_str("Git authentication error: ");
                push_str(&mut out, message.as_str());
                out
            },
            RefactorError::BranchError { message } => {
                let mut out = copy_str("Branch error: ");
                push_str(&mut out, message.as_str());
                out
            },
            RefactorError::PushError { message } => {
                let mut out = copy_str("Push error: ");
                push_str(&mut out, message.as_str());
                out
            },
            RefactorError::CloneError { repo, message } => {
                let mut out = copy_str("Clone error for ");
                push_str(&mut out, repo.as_str());
                push_str(&mut out, ": ");
                push_str(&mut out, message.as_str());
                out
            },
            RefactorError::GitHub { message } => {
                let mut out = copy_str("GitHub API error: ");
                push_str(&mut out, message.as_str());
                out
            },
            RefactorError::PullRequestError { message } => {
                let mut out = copy_str("Pull request error: ");
                push_str(&mut out, message.as_str());
                out
            },
        }
    }
}

} // verus!

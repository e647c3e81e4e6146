//! Multi-language code refactoring: API analysis, dependency and framework
//! discovery, repository filtering and LSP-based editing.
pub mod analyzer;
pub mod codemod;
pub mod diff;
pub mod error;
pub mod git;
pub mod github;
pub mod lang;
pub mod lsp;
pub mod pathname;
pub mod scan;
pub mod strmap;
pub mod text;

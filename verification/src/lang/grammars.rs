//! The built-in languages and their tree-sitter grammars.
use vstd::prelude::*;

use super::{Grammar, SourceLanguage};
use crate::text::str_views;

verus! {

/// `tree_sitter_rust::LANGUAGE` as a grammar.
#[verifier::external_body]
fn rust_grammar() -> tree_sitter::Language {
    tree_sitter_rust::LANGUAGE.into()
}

/// `tree_sitter_typescript::LANGUAGE_TYPESCRIPT` as a grammar.
#[verifier::external_body]
fn typescript_grammar() -> tree_sitter::Language {
    tree_sitter_typescript::LANGUAGE_TYPESCRIPT.into()
}

/// `tree_sitter_python::LANGUAGE` as a grammar.
#[verifier::external_body]
fn python_grammar() -> tree_sitter::Language {
    tree_sitter_python::LANGUAGE.into()
}

/// `tree_sitter_go::LANGUAGE` as a grammar.
#[verifier::external_body]
fn go_grammar() -> tree_sitter::Language {
    tree_sitter_go::LANGUAGE.into()
}

/// `tree_sitter_java::LANGUAGE` as a grammar.
#[verifier::external_body]
fn java_grammar() -> tree_sitter::Language {
    tree_sitter_java::LANGUAGE.into()
}

/// `tree_sitter_c_sharp::LANGUAGE` as a grammar.
#[verifier::external_body]
fn csharp_grammar() -> tree_sitter::Language {
    tree_sitter_c_sharp::LANGUAGE.into()
}

/// `tree_sitter_ruby::LANGUAGE` as a grammar.
#[verifier::external_body]
fn ruby_grammar() -> tree_sitter::Language {
    tree_sitter_ruby::LANGUAGE.into()
}

/// Rust programming language.
pub struct Rust;

impl SourceLanguage for Rust {
    open spec fn lang_name(&self) -> Seq<char> {
        "rust"@
    }

    open spec fn lang_grammar(&self) -> Seq<char> {
        "rust"@
    }

    open spec fn lang_extensions(&self) -> Seq<Seq<char>> {
        seq!["rs"@]
    }

    fn name(&self) -> (r: &'static str) {
        "rust"
    }

    fn extensions(&self) -> (r: &'static [&'static str]) {
        let r: &'static [&'static str] = &["rs"];
        assert(str_views(r@) =~= seq!["rs"@]);
        r
    }

    fn grammar(&self) -> (r: Grammar) {
        Grammar { language: rust_grammar(), name: "rust" }
    }
}

/// TypeScript and JavaScript.
pub struct TypeScript;

impl SourceLanguage for TypeScript {
    open spec fn lang_name(&self) -> Seq<char> {
        "typescript"@
    }

    open spec fn lang_grammar(&self) -> Seq<char> {
        "typescript"@
    }

    open spec fn lang_extensions(&self) -> Seq<Seq<char>> {
        seq!["ts"@, "tsx"@, "js"@, "jsx"@, "mjs"@, "cjs"@]
    }

    fn name(&self) -> (r: &'static str) {
        "typescript"
    }

    fn extensions(&self) -> (r: &'static [&'static str]) {
        let r: &'static [&'static str] = &["ts", "tsx", "js", "jsx", "mjs", "cjs"];
        assert(str_views(r@) =~= seq!["ts"@, "tsx"@, "js"@, "jsx"@, "mjs"@, "cjs"@]);
        r
    }

    fn grammar(&self) -> (r: Grammar) {
        Grammar { language: typescript_grammar(), name: "typescript" }
    }
}

/// Python programming language.
pub struct Python;

impl SourceLanguage for Python {
    open spec fn lang_name(&self) -> Seq<char> {
        "python"@
    }

    open spec fn lang_grammar(&self) -> Seq<char> {
        "python"@
    }

    open spec fn lang_extensions(&self) -> Seq<Seq<char>> {
        seq!["py"@, "pyi"@]
    }

    fn name(&self) -> (r: &'static str) {
        "python"
    }

    fn extensions(&self) -> (r: &'static [&'static str]) {
        let r: &'static [&'static str] = &["py", "pyi"];
        assert(str_views(r@) =~= seq!["py"@, "pyi"@]);
        r
    }

    fn grammar(&self) -> (r: Grammar) {
        Grammar { language: python_grammar(), name: "python" }
    }
}

/// Go programming language.
pub struct Go;

impl SourceLanguage for Go {
    open spec fn lang_name(&self) -> Seq<char> {
        "go"@
    }

    open spec fn lang_grammar(&self) -> Seq<char> {
        "go"@
    }

    open spec fn lang_extensions(&self) -> Seq<Seq<char>> {
        seq!["go"@]
    }

    fn name(&self) -> (r: &'static str) {
        "go"
    }

    fn extensions(&self) -> (r: &'static [&'static str]) {
        let r: &'static [&'static str] = &["go"];
        assert(str_views(r@) =~= seq!["go"@]);
        r
    }

    fn grammar(&self) -> (r: Grammar) {
        Grammar { language: go_grammar(), name: "go" }
    }
}

/// Java programming language.
pub struct Java;

impl SourceLanguage for Java {
    open spec fn lang_name(&self) -> Seq<char> {
        "java"@
    }

    open spec fn lang_grammar(&self) -> Seq<char> {
        "java"@
    }

    open spec fn lang_extensions(&self) -> Seq<Seq<char>> {
        seq!["java"@]
    }

    fn name(&self) -> (r: &'static str) {
        "java"
    }

    fn extensions(&self) -> (r: &'static [&'static str]) {
        let r: &'static [&'static str] = &["java"];
        assert(str_views(r@) =~= seq!["java"@]);
        r
    }

    fn grammar(&self) -> (r: Grammar) {
        Grammar { language: java_grammar(), name: "java" }
    }
}

/// C# programming language.
pub struct CSharp;

impl SourceLanguage for CSharp {
    open spec fn lang_name(&self) -> Seq<char> {
        "csharp"@
    }

    open spec fn lang_grammar(&self) -> Seq<char> {
        "csharp"@
    }

    open spec fn lang_extensions(&self) -> Seq<Seq<char>> {
        seq!["cs"@, "csx"@]
    }

    fn name(&self) -> (r: &'static str) {
        "csharp"
    }

    fn extensions(&self) -> (r: &'static [&'static str]) {
        let r: &'static [&'static str] = &["cs", "csx"];
        assert(str_views(r@) =~= seq!["cs"@, "csx"@]);
        r
    }

    fn grammar(&self) -> (r: Grammar) {
        Grammar { language: csharp_grammar(), name: "csharp" }
    }
}

/// Ruby programming language.
pub struct Ruby;

impl SourceLanguage for Ruby {
    open spec fn lang_name(&self) -> Seq<char> {
        "ruby"@
    }

    open spec fn lang_grammar(&self) -> Seq<char> {
        "ruby"@
    }

    open spec fn lang_extensions(&self) -> Seq<Seq<char>> {
        seq!["rb"@, "rake"@, "gemspec"@]
    }

    fn name(&self) -> (r: &'static str) {
        "ruby"
    }

    fn extensions(&self) -> (r: &'static [&'static str]) {
        let r: &'static [&'static str] = &["rb", "rake", "gemspec"];
        assert(str_views(r@) =~= seq!["rb"@, "rake"@, "gemspec"@]);
        r
    }

    fn grammar(&self) -> (r: Grammar) {
        Grammar { language: ruby_grammar(), name: "ruby" }
    }
}

} // verus!

//! SourceLanguage abstraction for multi-language parsing and refactoring.
use vstd::prelude::*;

use crate::error::RefactorError;
use crate::pathname::{path_extension, path_extension_exec};
use crate::text::{copy_str, string_of, eq_ignore_ascii_case, push_str,
    str_eq_ignore_ascii_case, str_views};

pub mod grammars;

pub use grammars::{CSharp, Go, Java, Python, Ruby, Rust, TypeScript};

verus! {

/// A tree-sitter grammar.
#[verifier::external_type_specification]
#[verifier::external_body]
pub struct ExTsLanguage(tree_sitter::Language);

/// A tree-sitter syntax tree.
#[verifier::external_type_specification]
#[verifier::external_body]
pub struct ExTree(tree_sitter::Tree);

/// A tree-sitter parser.
#[verifier::external_type_specification]
#[verifier::external_body]
pub struct ExParser(tree_sitter::Parser);

/// A compiled tree-sitter query.
#[verifier::external_type_specification]
#[verifier::external_body]
pub struct ExQuery(tree_sitter::Query);

/// `tree_sitter::Parser::new`: a parser with no language set.
#[verifier::external_body]
fn new_parser() -> tree_sitter::Parser {
    tree_sitter::Parser::new()
}

/// Whether tree-sitter's parser takes the named grammar: its ABI version is
/// one this tree-sitter reads.
pub uninterp spec fn grammar_loads(grammar: Seq<char>) -> bool;

/// `tree_sitter::Parser::set_language`: fails, with the error's text,
/// exactly when the grammar's ABI version is one this tree-sitter cannot
/// read, which depends on the grammar alone (named `grammar_loads`).
#[verifier::external_body]
fn parser_set_language(parser: &mut tree_sitter::Parser, grammar: &Grammar) -> (r: Result<(), String>)
    ensures
        r is Ok <==> grammar_loads(grammar@),
{
    parser.set_language(&grammar.language).map_err(|e| e.to_string())
}

/// A tree-sitter parser whose grammar has been set, with no timeout and no
/// cancellation flag. Only `parse_source` makes one, right after setting
/// the grammar.
struct ReadyParser {
    parser: tree_sitter::Parser,
}

/// `tree_sitter::Parser::parse` of a whole text with no earlier tree.
/// tree-sitter documents that it gives no tree only when no grammar is set,
/// a timeout expired or a cancellation flag was flipped; a ready parser has
/// none of these, so it gives a tree. Nothing is said of the tree.
#[verifier::external_body]
fn parser_parse(parser: &mut ReadyParser, source: &str) -> (r: Option<tree_sitter::Tree>)
    ensures
        r is Some,
{
    parser.parser.parse(source, None)
}

/// Whether tree-sitter compiles a query pattern for the named grammar.
pub uninterp spec fn query_compiles(grammar: Seq<char>, pattern: Seq<char>) -> bool;

/// `tree_sitter::Query::new`: compiles a query pattern for a grammar, or
/// gives the text of the query error. Which patterns compile depends on the
/// grammar and the pattern alone (named `query_compiles`).
#[verifier::external_body]
fn compile_query(grammar: &Grammar, pattern: &str) -> (r: Result<tree_sitter::Query, String>)
    ensures
        r is Ok <==> query_compiles(grammar@, pattern@),
{
    tree_sitter::Query::new(&grammar.language, pattern).map_err(|e| e.to_string())
}

/// `tree_sitter::Language::clone`: another handle on the same grammar.
#[verifier::external_body]
fn clone_grammar(grammar: &tree_sitter::Language) -> tree_sitter::Language {
    grammar.clone()
}

/// A tree-sitter grammar with the name it is known by. Only the built-in
/// grammars make one, each under its own name, so a name stands for one
/// grammar.
pub struct Grammar {
    language: tree_sitter::Language,
    name: &'static str,
}

impl View for Grammar {
    type V = Seq<char>;

    closed spec fn view(&self) -> Seq<char> {
        self.name@
    }
}

impl Grammar {
    /// The grammar's name.
    pub fn name(&self) -> (r: &'static str)
        ensures
            r@ == self@,
    {
        self.name
    }

    /// The tree-sitter grammar itself.
    pub fn language(&self) -> &tree_sitter::Language {
        &self.language
    }

    /// Another handle on the same grammar.
    pub fn duplicate(&self) -> (r: Grammar)
        ensures
            r@ == self@,
    {
        Grammar { language: clone_grammar(&self.language), name: self.name }
    }
}

/// A source text with the syntax tree that a grammar parsed from it.
pub struct ParsedSource {
    tree: tree_sitter::Tree,
    source: String,
    grammar: &'static str,
}

impl View for ParsedSource {
    /// The grammar's name and the source text.
    type V = (Seq<char>, Seq<char>);

    closed spec fn view(&self) -> (Seq<char>, Seq<char>) {
        (self.grammar@, self.source@)
    }
}

impl ParsedSource {
    /// The syntax tree.
    pub fn tree(&self) -> &tree_sitter::Tree {
        &self.tree
    }

    /// The source text the tree was parsed from.
    pub fn source(&self) -> (r: &str)
        ensures
            r@ == self@.1,
    {
        self.source.as_str()
    }
}

/// A query pattern compiled for a grammar.
pub struct CompiledQuery {
    query: tree_sitter::Query,
    pattern: String,
    grammar: &'static str,
}

impl View for CompiledQuery {
    /// The grammar's name and the pattern.
    type V = (Seq<char>, Seq<char>);

    closed spec fn view(&self) -> (Seq<char>, Seq<char>) {
        (self.grammar@, self.pattern@)
    }
}

impl CompiledQuery {
    /// The compiled tree-sitter query.
    pub fn query(&self) -> &tree_sitter::Query {
        &self.query
    }
}

/// The error of a parse that could not run: the path is `<source>`.
pub open spec fn is_source_parse_error(e: RefactorError) -> bool {
    e matches RefactorError::Parse { path, message } && path@ == "<source>"@
}

/// A programming language supported by the refactoring DSL.
pub trait SourceLanguage {
    /// The language's name.
    spec fn lang_name(&self) -> Seq<char>;

    /// The file extensions the language claims.
    spec fn lang_extensions(&self) -> Seq<Seq<char>>;

    /// Returns the name of the language.
    fn name(&self) -> (r: &'static str)
        ensures
            r@ == self.lang_name(),
    ;

    /// Returns the file extensions associated with this language.
    fn extensions(&self) -> (r: &'static [&'static str])
        ensures
            str_views(r@) == self.lang_extensions(),
    ;

    /// The name of the grammar the language parses with.
    spec fn lang_grammar(&self) -> Seq<char>;

    /// Returns the tree-sitter language grammar.
    fn grammar(&self) -> (r: Grammar)
        ensures
            r@ == self.lang_grammar(),
    ;

    /// Parses source code, keeping the text with its tree. It fails exactly
    /// when tree-sitter cannot load the grammar, with a parse error for the
    /// path `<source>` that gives tree-sitter's reason.
    fn parse_source(&self, source: &str) -> (r: Result<ParsedSource, RefactorError>)
        ensures
            r is Ok <==> grammar_loads(self.lang_grammar()),
            r matches Ok(p) ==> p@ == (self.lang_grammar(), source@),
            r matches Err(e) ==> is_source_parse_error(e) && (e matches RefactorError::Parse { message, .. }
                && "Failed to set language: "@.is_prefix_of(message@)),
    {
        let mut parser = new_parser();
        let grammar = self.grammar();
        match parser_set_language(&mut parser, &grammar) {
            Ok(()) => {},
            Err(e) => {
                let mut message = copy_str("Failed to set language: ");
                push_str(&mut message, e.as_str());
                assert("Failed to set language: "@.is_prefix_of(message@)) by {
                    assert(message@.subrange(0, "Failed to set language: "@.len() as int) =~= "Failed to set language: "@);
                }
                return Err(RefactorError::Parse { path: copy_str("<source>"), message });
            },
        }
        let mut ready = ReadyParser { parser };
        match parser_parse(&mut ready, source) {
            Some(tree) => Ok(ParsedSource { tree, source: copy_str(source), grammar: grammar.name }),
            None => Err(
                RefactorError::Parse {
                    path: copy_str("<source>"),
                    message: copy_str("Failed to parse source"),
                },
            ),
        }
    }

    /// Parses source code into a tree-sitter AST. It fails exactly when
    /// tree-sitter cannot load the grammar, with a parse error for the path
    /// `<source>` that gives tree-sitter's reason.
    fn parse(&self, source: &str) -> (r: Result<tree_sitter::Tree, RefactorError>)
        ensures
            r is Ok <==> grammar_loads(self.lang_grammar()),
            r matches Err(e) ==> is_source_parse_error(e) && (e matches RefactorError::Parse { message, .. }
                && "Failed to set language: "@.is_prefix_of(message@)),
    {
        match self.parse_source(source) {
            Ok(p) => Ok(p.tree),
            Err(e) => Err(e),
        }
    }

    /// Compiles a query pattern for this language, keeping the pattern. A
    /// failure is a query error, and comes exactly when tree-sitter does not
    /// compile the pattern.
    fn compile(&self, pattern: &str) -> (r: Result<CompiledQuery, RefactorError>)
        ensures
            r is Ok <==> query_compiles(self.lang_grammar(), pattern@),
            r matches Ok(q) ==> q@ == (self.lang_grammar(), pattern@),
            r matches Err(e) ==> e is Query,
    {
        let grammar = self.grammar();
        match compile_query(&grammar, pattern) {
            Ok(q) => Ok(CompiledQuery { query: q, pattern: copy_str(pattern), grammar: grammar.name }),
            Err(e) => Err(RefactorError::Query(e)),
        }
    }

    /// Creates a tree-sitter query for this language. A failure is a query
    /// error, and comes exactly when tree-sitter does not compile the
    /// pattern.
    fn query(&self, pattern: &str) -> (r: Result<tree_sitter::Query, RefactorError>)
        ensures
            r is Ok <==> query_compiles(self.lang_grammar(), pattern@),
            r matches Err(e) ==> e is Query,
    {
        match self.compile(pattern) {
            Ok(q) => Ok(q.query),
            Err(e) => Err(e),
        }
    }

    /// Checks if this language handles the given file extension.
    fn matches_extension(&self, ext: &str) -> (r: bool)
        ensures
            r == claims_extension(self.lang_extensions(), ext@),
    {
        let exts = self.extensions();
        let mut i: usize = 0;
        while i < exts.len()
            invariant
                0 <= i <= exts@.len(),
                str_views(exts@) == self.lang_extensions(),
                forall|k: int|
                    0 <= k < i ==> !eq_ignore_ascii_case(#[trigger] self.lang_extensions()[k], ext@),
            decreases exts.len() - i,
        {
            if str_eq_ignore_ascii_case(exts[i], ext) {
                assert(self.lang_extensions()[i as int] == exts@[i as int]@);
                return true;
            }
            i = i + 1;
        }
        false
    }
}

/// One of the extensions equals `ext`, ignoring ASCII case.
pub open spec fn claims_extension(exts: Seq<Seq<char>>, ext: Seq<char>) -> bool {
    exists|i: int| 0 <= i < exts.len() && eq_ignore_ascii_case(#[trigger] exts[i], ext)
}

/// A language as the registry holds it: its name, extensions and grammar.
pub struct LanguageEntry {
    name: &'static str,
    extensions: &'static [&'static str],
    grammar: Grammar,
}

impl SourceLanguage for LanguageEntry {
    closed spec fn lang_name(&self) -> Seq<char> {
        self.name@
    }

    closed spec fn lang_extensions(&self) -> Seq<Seq<char>> {
        str_views(self.extensions@)
    }

    closed spec fn lang_grammar(&self) -> Seq<char> {
        self.grammar@
    }

    fn name(&self) -> (r: &'static str) {
        self.name
    }

    fn extensions(&self) -> (r: &'static [&'static str]) {
        self.extensions
    }

    fn grammar(&self) -> (r: Grammar) {
        self.grammar.duplicate()
    }
}

/// What the registry knows of a language: its name, its extensions and the
/// name of its grammar.
pub type LangInfo = (Seq<char>, Seq<Seq<char>>, Seq<char>);

/// What the registry knows of a language.
pub open spec fn lang_info<L: SourceLanguage>(l: L) -> LangInfo {
    (l.lang_name(), l.lang_extensions(), l.lang_grammar())
}

/// The languages built in: Rust, TypeScript and Python, in that order.
pub open spec fn builtin_infos() -> Seq<LangInfo> {
    seq![lang_info(Rust), lang_info(TypeScript), lang_info(Python)]
}

/// The index of the first language that claims `ext`.
pub open spec fn first_by_extension(langs: Seq<LangInfo>, ext: Seq<char>) -> Option<
    int,
> {
    if exists|i: int| 0 <= i < langs.len() && claims_extension(#[trigger] langs[i].1, ext) {
        Some(
            choose|i: int|
                0 <= i < langs.len() && claims_extension(#[trigger] langs[i].1, ext) && forall|
                    k: int,
                | 0 <= k < i ==> !claims_extension(#[trigger] langs[k].1, ext),
        )
    } else {
        None
    }
}

/// Registry of supported languages.
pub struct LanguageRegistry {
    languages: Vec<LanguageEntry>,
}

impl View for LanguageRegistry {
    type V = Seq<LangInfo>;

    closed spec fn view(&self) -> Self::V {
        self.languages@.map_values(|l: LanguageEntry| lang_info(l))
    }
}

impl LanguageRegistry {
    /// The registry holds no language.
    pub fn empty() -> (r: Self)
        ensures
            r@ == Seq::<LangInfo>::empty(),
    {
        let r = LanguageRegistry { languages: Vec::new() };
        assert(r@ =~= Seq::<LangInfo>::empty());
        r
    }

    /// Creates a new registry with all built-in languages.
    pub fn new() -> (r: Self)
        ensures
            r@ == builtin_infos(),
    {
        let mut registry = Self::empty();
        registry.register(Rust);
        registry.register(TypeScript);
        registry.register(Python);
        assert(registry@ =~= builtin_infos());
        registry
    }

    /// Registers a new language.
    pub fn register<L: SourceLanguage>(&mut self, lang: L)
        ensures
            final(self)@ == old(self)@.push(lang_info(lang)),
    {
        let entry = LanguageEntry {
            name: lang.name(),
            extensions: lang.extensions(),
            grammar: lang.grammar(),
        };
        self.languages.push(entry);
        assert(self@ =~= old(self)@.push(lang_info(lang)));
    }

    /// Finds the first language that claims an extension, ignoring ASCII case.
    pub fn by_extension(&self, ext: &str) -> (r: Option<&LanguageEntry>)
        ensures
            match first_by_extension(self@, ext@) {
                Some(i) => r matches Some(l) && lang_info(*l) == self@[i],
                None => r is None,
            },
    {
        let mut i: usize = 0;
        while i < self.languages.len()
            invariant
                0 <= i <= self.languages@.len(),
                forall|k: int| 0 <= k < i ==> !claims_extension(#[trigger] self@[k].1, ext@),
            decreases self.languages.len() - i,
        {
            let l = &self.languages[i];
            if l.matches_extension(ext) {
                assert(lang_info(*l) == self@[i as int]);
                assert(claims_extension(self@[i as int].1, ext@));
                let ghost w = choose|j: int|
                    0 <= j < self@.len() && claims_extension(#[trigger] self@[j].1, ext@) && forall|
                        k: int,
                    | 0 <= k < j ==> !claims_extension(#[trigger] self@[k].1, ext@);
                assert(w == i) by {
                    if w < i {
                    } else if w > i {
                        assert(!claims_extension(self@[i as int].1, ext@));
                    }
                }
                return Some(l);
            }
            assert(!claims_extension(self@[i as int].1, ext@));
            i = i + 1;
        }
        None
    }

    /// Finds the first language whose name equals `name`, ignoring ASCII case.
    pub fn by_name(&self, name: &str) -> (r: Option<&LanguageEntry>)
        ensures
            match r {
                Some(l) => exists|i: int|
                    0 <= i < self@.len() && self@[i] == lang_info(*l) && eq_ignore_ascii_case(
                        #[trigger] self@[i].0,
                        name@,
                    ) && forall|k: int|
                        0 <= k < i ==> !eq_ignore_ascii_case(#[trigger] self@[k].0, name@),
                None => forall|k: int|
                    0 <= k < self@.len() ==> !eq_ignore_ascii_case(#[trigger] self@[k].0, name@),
            },
    {
        let mut i: usize = 0;
        while i < self.languages.len()
            invariant
                0 <= i <= self.languages@.len(),
                forall|k: int| 0 <= k < i ==> !eq_ignore_ascii_case(#[trigger] self@[k].0, name@),
            decreases self.languages.len() - i,
        {
            let l = &self.languages[i];
            assert(lang_info(*l) == self@[i as int]);
            let n = l.name();
            if str_eq_ignore_ascii_case(n, name) {
                assert(eq_ignore_ascii_case(self@[i as int].0, name@));
                return Some(l);
            }
            i = i + 1;
        }
        None
    }

    /// Detects the language for a path by its extension; none for a path
    /// without one.
    pub fn detect(&self, path: &str) -> (r: Option<&LanguageEntry>)
        ensures
            match path_extension(path@) {
                Some(ext) => match first_by_extension(self@, ext) {
                    Some(i) => r matches Some(l) && lang_info(*l) == self@[i],
                    None => r is None,
                },
                None => r is None,
            },
    {
        match path_extension_exec(path) {
            Some(ext) => {
                let s = string_of(&ext);
                self.by_extension(s.as_str())
            },
            None => None,
        }
    }

    /// Returns all registered languages.
    pub fn all(&self) -> (r: &[LanguageEntry])
        ensures
            r@.map_values(|l: LanguageEntry| lang_info(l)) == self@,
    {
        self.languages.as_slice()
    }
}

} // verus!

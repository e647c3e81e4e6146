//! Files that changed between two versions of a repository, and the API
//! signatures that source files declare.
use vstd::prelude::*;

use streaming_iterator::StreamingIterator;

use super::change::ApiType;
use super::params::ParamStyle;
use super::rules::{
    apply_rule, apply_rule_exec, match_view, sigs_are, MatchRule, ReturnStyle, SigView, VisRule,
};
use super::signature::Visibility;
use super::signature::ApiSignature;
use super::syntax::{last_capture, positions_fit, positions_fit_exec, text_or_empty, Capture, SyntaxNode};
use crate::error::RefactorError;
use crate::lang::{
    is_source_parse_error, first_by_extension, grammar_loads, lang_info, query_compiles, CSharp, CompiledQuery, Go,
    Java, LangInfo, LanguageRegistry, ParsedSource, Ruby, SourceLanguage,
};
use crate::pathname::{path_extension, path_extension_exec};
use crate::strmap::StrMap;
use crate::text::{chars_eq_ignore_ascii_case, chars_of, copy_str, eq_ignore_ascii_case, str_eq, string_of, views};

verus! {

/// The content of a file at a specific git ref.
#[derive(Debug, Clone)]
pub struct FileContent {
    /// Path relative to repository root.
    pub path: String,
    /// File content as string.
    pub content: String,
}

/// Change type for a file between two refs.
#[derive(Debug, Clone, Copy, PartialEq, Eq, Structural)]
pub enum FileChangeType {
    Added,
    Deleted,
    Modified,
    Renamed,
}

/// A file change between two git refs.
#[derive(Debug, Clone)]
pub struct FileChange {
    /// Type of change.
    pub change_type: FileChangeType,
    /// Old path (if applicable).
    pub old_path: Option<String>,
    /// New path (if applicable).
    pub new_path: Option<String>,
    /// Old content (if applicable).
    pub old_content: Option<String>,
    /// New content (if applicable).
    pub new_content: Option<String>,
}

impl FileChange {
    /// The primary path of the change: the new path, else the old one, else
    /// the empty path.
    pub fn path(&self) -> (r: &str)
        ensures
            r@ == match self.new_path {
                Some(p) => p@,
                None => match self.old_path {
                    Some(p) => p@,
                    None => ""@,
                },
            },
    {
        match &self.new_path {
            Some(p) => p.as_str(),
            None => match &self.old_path {
                Some(p) => p.as_str(),
                None => "",
            },
        }
    }
}

/// Whether an extension filter keeps a path: the path's file name has an
/// extension, and it equals one of the filter's, ignoring ASCII case.
pub open spec fn extension_selected(path: Seq<char>, extensions: Seq<Seq<char>>) -> bool {
    match path_extension(path) {
        Some(e) => exists|i: int| 0 <= i < extensions.len() && eq_ignore_ascii_case(#[trigger] extensions[i], e),
        None => false,
    }
}

/// Whether a file of a diff or tree walk passes the extension filter.
pub fn passes_extension_filter(path: &str, extensions: &Vec<String>) -> (r: bool)
    ensures
        r == extension_selected(path@, views(extensions@)),
{
    let ext = match path_extension_exec(path) {
        Some(e) => e,
        None => return false,
    };
    let mut i: usize = 0;
    while i < extensions.len()
        invariant
            0 <= i <= extensions.len(),
            path_extension(path@) == Some(ext@),
            forall|k: int| 0 <= k < i ==> !eq_ignore_ascii_case(#[trigger] views(extensions@)[k], ext@),
        decreases extensions.len() - i,
    {
        let candidate = chars_of(extensions[i].as_str());
        if chars_eq_ignore_ascii_case(&candidate, &ext) {
            assert(views(extensions@)[i as int] == extensions@[i as int]@);
            return true;
        }
        assert(views(extensions@)[i as int] == extensions@[i as int]@);
        i = i + 1;
    }
    false
}

/// A node of a tree-sitter syntax tree.
#[verifier::external_type_specification]
#[verifier::external_body]
pub struct ExTsNode<'tree>(tree_sitter::Node<'tree>);

/// `tree_sitter::Node::kind`, as a string. The node is opaque here, so
/// nothing is stated of the result.
#[verifier::external_body]
fn ts_node_kind(node: &tree_sitter::Node) -> String {
    node.kind().to_string()
}

/// `tree_sitter::Node::byte_range`, read out of the source: the text of the
/// node's byte range, none when that range does not lie within the source on
/// character boundaries. The node is opaque here, so nothing is stated of
/// the result.
#[verifier::external_body]
fn ts_node_text(node: &tree_sitter::Node, source: &str) -> Option<String> {
    source.get(node.byte_range()).map(String::from)
}

/// `tree_sitter::Node::start_position`, as row and column. The node is
/// opaque here, so nothing is stated of the result.
#[verifier::external_body]
fn ts_node_start(node: &tree_sitter::Node) -> (usize, usize) {
    let p = node.start_position();
    (p.row, p.column)
}

/// `tree_sitter::Node::child_count`. The node is opaque here, so nothing is
/// stated of the result.
#[verifier::external_body]
fn ts_child_count(node: &tree_sitter::Node) -> usize {
    node.child_count()
}

/// `tree_sitter::Node::child`: the child at an index. The node is opaque
/// here, so nothing is stated of the result.
#[verifier::external_body]
fn ts_child<'tree>(node: &tree_sitter::Node<'tree>, i: usize) -> Option<tree_sitter::Node<'tree>> {
    node.child(i)
}

/// `tree_sitter::Node::field_name_for_child`: the field under which the
/// node holds its child at an index, as a string. The index is one below the
/// child count, which tree-sitter keeps as a `u32`. The node is opaque here,
/// so nothing is stated of the result.
#[verifier::external_body]
fn ts_field_name_for_child(node: &tree_sitter::Node, i: usize) -> Option<String> {
    node.field_name_for_child(i as u32).map(String::from)
}

/// The levels below a captured node that extraction reads: a parameter
/// list's children and theirs.
pub const COPIED_LEVELS: usize = 2;

/// A copy of a node and `depth` levels below it.
fn syntax_node_of(node: &tree_sitter::Node, source: &str, field: Option<String>, depth: usize) -> (r: SyntaxNode)
    ensures
        r.field == field,
    decreases depth,
{
    let kind = ts_node_kind(node);
    let text = ts_node_text(node, source);
    let (row, column) = ts_node_start(node);
    let mut children: Vec<SyntaxNode> = Vec::new();
    if depth > 0 {
        let n = ts_child_count(node);
        let mut i: usize = 0;
        while i < n
            invariant
                depth > 0,
            decreases n - i,
        {
            match ts_child(node, i) {
                Some(c) => {
                    let f = ts_field_name_for_child(node, i);
                    children.push(syntax_node_of(&c, source, f, depth - 1));
                },
                None => {},
            }
            i = i + 1;
        }
    }
    SyntaxNode { kind, text, row, column, field, children }
}

/// The matches that tree-sitter finds for a query pattern in a source text
/// parsed with a grammar: match by match, its captures in order, each with
/// its capture name and a copy of its node. It depends on the grammar, the
/// pattern and the text alone.
pub uninterp spec fn query_matches(grammar: Seq<char>, pattern: Seq<char>, source: Seq<char>) -> Seq<Vec<Capture>>;

/// `tree_sitter::QueryCursor::matches` of a compiled query over the whole
/// tree of a parsed source, with the text it was parsed from: for each
/// match, its captures in order, each with its capture name and its node
/// copied by `syntax_node_of`. The copy keeps a node and its children
/// `COPIED_LEVELS` levels down, the depth the extraction rules read; what
/// lies deeper is not kept. The result is named `query_matches`: what
/// tree-sitter's query semantics find is not stated.
#[verifier::external_body]
fn ts_query_matches(parsed: &ParsedSource, query: &CompiledQuery) -> (r: Vec<Vec<Capture>>)
    requires
        parsed@.0 == query@.0,
    ensures
        r@ == query_matches(parsed@.0, query@.1, parsed@.1),
{
    let source = parsed.source();
    let names = query.query().capture_names();
    let mut cursor = tree_sitter::QueryCursor::new();
    let mut matches = cursor.matches(query.query(), parsed.tree().root_node(), source.as_bytes());
    let mut out = Vec::new();
    while let Some(m) = matches.next() {
        out.push(m.captures.iter().map(|c| Capture { name: names[c.index as usize].to_string(), node: syntax_node_of(&c.node, source, None, COPIED_LEVELS) }).collect());
    }
    out
}

/// The signatures after reading the matches of each query in turn.
pub open spec fn apply_rules(rules: Seq<MatchRule>, caps: Seq<Seq<Vec<Capture>>>, path: Seq<char>) -> Seq<SigView>
    decreases rules.len(),
{
    if rules.len() == 0 || caps.len() != rules.len() {
        Seq::empty()
    } else {
        apply_rule(apply_rules(rules.drop_last(), caps.drop_last(), path), caps.last(), rules.last(), path)
    }
}

/// The rules of a query table.
pub open spec fn rules_of(queries: Seq<(&'static str, MatchRule)>) -> Seq<MatchRule> {
    queries.map_values(|q: (&'static str, MatchRule)| q.1)
}

/// A rule with no parameters, return type or skipping.
pub open spec fn decl_rule(name: &'static str, anchor: &'static str, kind: ApiType, vis: VisRule) -> MatchRule {
    MatchRule { name_capture: name, anchor_capture: anchor, kind, visibility: vis, params: None, ret: None, skip_known: false }
}

/// A rule for a callable with parameters and possibly a return type.
pub open spec fn callable_rule(
    name: &'static str,
    anchor: &'static str,
    kind: ApiType,
    vis: VisRule,
    params: ParamStyle,
    ret: Option<ReturnStyle>,
    skip_known: bool,
) -> MatchRule {
    MatchRule { name_capture: name, anchor_capture: anchor, kind, visibility: vis, params: Some(params), ret, skip_known }
}

/// Rust: public functions, structs and enums by their `pub` modifier.
pub open spec fn rust_rules() -> Seq<MatchRule> {
    seq![
        callable_rule("fn_name", "function", ApiType::Function, VisRule::PubPrefix, ParamStyle::Rust, Some(ReturnStyle::Trimmed), false),
        decl_rule("struct_name", "struct", ApiType::Struct, VisRule::PubPrefix),
        decl_rule("enum_name", "enum", ApiType::Enum, VisRule::PubPrefix),
    ]
}

/// Law: a Rust function, struct or enum is public and exported exactly when
/// its match has a visibility modifier whose text starts with `pub`; an
/// item without one is private and not exported.
pub proof fn law_rust_items_public_by_pub(i: int, path: Seq<char>, m: Seq<Capture>)
    requires
        0 <= i < rust_rules().len(),
    ensures
        match_view(rust_rules()[i], path, m) matches Some(v) ==> {
            &&& v.exported <==> (last_capture(m, "vis"@) matches Some(n) && "pub"@.is_prefix_of(text_or_empty(n)))
            &&& v.visibility == (if v.exported {
                Visibility::Public
            } else {
                Visibility::Private
            })
        },
{
    assert(rust_rules()[i].visibility == VisRule::PubPrefix);
}

/// TypeScript: exported functions, then the other functions not yet seen,
/// then exported interfaces and classes.
pub open spec fn typescript_rules() -> Seq<MatchRule> {
    seq![
        callable_rule("fn_name", "export_fn", ApiType::Function, VisRule::Public, ParamStyle::TypeScript, Some(ReturnStyle::Annotation), false),
        callable_rule("fn_name", "function", ApiType::Function, VisRule::Private, ParamStyle::TypeScript, Some(ReturnStyle::Annotation), true),
        decl_rule("iface_name", "export_iface", ApiType::Interface, VisRule::Public),
        decl_rule("class_name", "export_class", ApiType::Class, VisRule::Public),
    ]
}

/// Python: functions and classes, private when the name starts with `_`.
pub open spec fn python_rules() -> Seq<MatchRule> {
    seq![
        callable_rule("fn_name", "function", ApiType::Function, VisRule::NoLeadingUnderscore, ParamStyle::Python, Some(ReturnStyle::Trimmed), false),
        decl_rule("class_name", "class", ApiType::Class, VisRule::NoLeadingUnderscore),
    ]
}

/// Go: functions, methods, structs and interfaces, exported when the name
/// starts with an uppercase character.
pub open spec fn go_rules() -> Seq<MatchRule> {
    seq![
        callable_rule("fn_name", "function", ApiType::Function, VisRule::Capitalized, ParamStyle::Go, Some(ReturnStyle::Trimmed), false),
        callable_rule("method_name", "method", ApiType::Method, VisRule::Capitalized, ParamStyle::Go, Some(ReturnStyle::Trimmed), false),
        decl_rule("struct_name", "struct", ApiType::Struct, VisRule::Capitalized),
        decl_rule("iface_name", "interface", ApiType::Interface, VisRule::Capitalized),
    ]
}

/// Java: classes, methods and interfaces, public when the modifiers
/// contain `public`.
pub open spec fn java_rules() -> Seq<MatchRule> {
    seq![
        decl_rule("class_name", "class", ApiType::Class, VisRule::ModifiersContainPublic),
        callable_rule("method_name", "method", ApiType::Method, VisRule::ModifiersContainPublic, ParamStyle::Java, Some(ReturnStyle::Trimmed), false),
        decl_rule("iface_name", "interface", ApiType::Interface, VisRule::ModifiersContainPublic),
    ]
}

/// C#: classes, methods and interfaces, public when a modifier is `public`.
pub open spec fn csharp_rules() -> Seq<MatchRule> {
    seq![
        decl_rule("class_name", "class", ApiType::Class, VisRule::AnyModifierPublic),
        callable_rule("method_name", "method", ApiType::Method, VisRule::AnyModifierPublic, ParamStyle::CSharp, Some(ReturnStyle::Trimmed), false),
        decl_rule("iface_name", "interface", ApiType::Interface, VisRule::AnyModifierPublic),
    ]
}

/// Ruby: methods, private when the name starts with `_`, then classes and
/// modules, always public.
pub open spec fn ruby_rules() -> Seq<MatchRule> {
    seq![
        MatchRule { name_capture: "method_name", anchor_capture: "method", kind: ApiType::Method, visibility: VisRule::NoLeadingUnderscore, params: Some(ParamStyle::Ruby), ret: None, skip_known: false },
        decl_rule("class_name", "class", ApiType::Class, VisRule::Public),
        decl_rule("module_name", "module", ApiType::Module, VisRule::Public),
    ]
}

/// The rules for a language, by its name; none for other names.
pub open spec fn rules_for(name: Seq<char>) -> Seq<MatchRule> {
    if name == "rust"@ {
        rust_rules()
    } else if name == "typescript"@ {
        typescript_rules()
    } else if name == "python"@ {
        python_rules()
    } else if name == "go"@ {
        go_rules()
    } else if name == "java"@ {
        java_rules()
    } else if name == "csharp"@ {
        csharp_rules()
    } else if name == "ruby"@ {
        ruby_rules()
    } else {
        Seq::empty()
    }
}

/// The query patterns of each language, in the order of its rules.
pub open spec fn rust_patterns() -> Seq<Seq<char>> {
    seq![RUST_FN_QUERY@, RUST_STRUCT_QUERY@, RUST_ENUM_QUERY@]
}

/// TypeScript's query patterns.
pub open spec fn typescript_patterns() -> Seq<Seq<char>> {
    seq![TS_FN_QUERY@, TS_LOCAL_FN_QUERY@, TS_INTERFACE_QUERY@, TS_CLASS_QUERY@]
}

/// Python's query patterns.
pub open spec fn python_patterns() -> Seq<Seq<char>> {
    seq![PYTHON_FN_QUERY@, PYTHON_CLASS_QUERY@]
}

/// Go's query patterns.
pub open spec fn go_patterns() -> Seq<Seq<char>> {
    seq![GO_FN_QUERY@, GO_METHOD_QUERY@, GO_STRUCT_QUERY@, GO_INTERFACE_QUERY@]
}

/// Java's query patterns.
pub open spec fn java_patterns() -> Seq<Seq<char>> {
    seq![JAVA_CLASS_QUERY@, JAVA_METHOD_QUERY@, JAVA_INTERFACE_QUERY@]
}

/// C#'s query patterns.
pub open spec fn csharp_patterns() -> Seq<Seq<char>> {
    seq![CSHARP_CLASS_QUERY@, CSHARP_METHOD_QUERY@, CSHARP_INTERFACE_QUERY@]
}

/// Ruby's query patterns.
pub open spec fn ruby_patterns() -> Seq<Seq<char>> {
    seq![RUBY_METHOD_QUERY@, RUBY_CLASS_QUERY@, RUBY_MODULE_QUERY@]
}

/// The query patterns for a language, by its name; none for other names.
pub open spec fn patterns_for(name: Seq<char>) -> Seq<Seq<char>> {
    if name == "rust"@ {
        rust_patterns()
    } else if name == "typescript"@ {
        typescript_patterns()
    } else if name == "python"@ {
        python_patterns()
    } else if name == "go"@ {
        go_patterns()
    } else if name == "java"@ {
        java_patterns()
    } else if name == "csharp"@ {
        csharp_patterns()
    } else if name == "ruby"@ {
        ruby_patterns()
    } else {
        Seq::empty()
    }
}

/// The errors extraction can give: the language could not parse, a query
/// did not compile, or a position in the file cannot be counted.
pub open spec fn extraction_error(e: RefactorError, path: Seq<char>) -> bool {
    ||| is_source_parse_error(e)
    ||| e is Query
    ||| e matches RefactorError::Parse { path: p, .. } && p@ == path
}

/// The patterns of a query table.
pub open spec fn patterns_of(queries: Seq<(&'static str, MatchRule)>) -> Seq<Seq<char>> {
    queries.map_values(|q: (&'static str, MatchRule)| q.0@)
}

/// The matches of each pattern in turn.
pub open spec fn matches_for(grammar: Seq<char>, patterns: Seq<Seq<char>>, source: Seq<char>) -> Seq<Seq<Vec<Capture>>> {
    patterns.map_values(|p: Seq<char>| query_matches(grammar, p, source))
}

/// Why an extraction can fail: tree-sitter cannot load the grammar, does
/// not compile a pattern, or matches a pattern at a position that cannot be
/// counted.
pub open spec fn failure_explained(
    e: RefactorError,
    grammar: Seq<char>,
    patterns: Seq<Seq<char>>,
    source: Seq<char>,
    path: Seq<char>,
) -> bool {
    ||| is_source_parse_error(e) && !grammar_loads(grammar)
    ||| e is Query && exists|i: int| 0 <= i < patterns.len() && !query_compiles(grammar, #[trigger] patterns[i])
    ||| e matches RefactorError::Parse { path: p, .. } && p@ == path && exists|i: int|
        0 <= i < patterns.len() && !positions_fit(#[trigger] matches_for(grammar, patterns, source)[i])
}

/// What an extraction with a table of rules and their query patterns gives:
/// the signatures that the rules read from the matches of their patterns in
/// the source, or an extraction error that a grammar that does not load, a
/// pattern that does not compile or a position that cannot be counted
/// explains.
pub open spec fn extracted_by(
    rules: Seq<MatchRule>,
    patterns: Seq<Seq<char>>,
    grammar: Seq<char>,
    source: Seq<char>,
    path: Seq<char>,
    r: Result<Vec<ApiSignature>, RefactorError>,
) -> bool {
    match r {
        Ok(v) => sigs_are(v@, apply_rules(rules, matches_for(grammar, patterns, source), path)),
        Err(e) => extraction_error(e, path) && failure_explained(e, grammar, patterns, source, path),
    }
}

/// Reading one query's matches keeps every signature in the file.
proof fn lemma_rule_keeps_file(acc: Seq<SigView>, ms: Seq<Vec<Capture>>, rule: MatchRule, path: Seq<char>)
    requires
        forall|i: int| 0 <= i < acc.len() ==> #[trigger] acc[i].file == path,
    ensures
        forall|i: int| 0 <= i < apply_rule(acc, ms, rule, path).len() ==> #[trigger] apply_rule(acc, ms, rule, path)[i].file == path,
    decreases ms.len(),
{
    if ms.len() > 0 {
        lemma_rule_keeps_file(acc, ms.drop_last(), rule, path);
    }
}

/// Law: every signature extracted from a file names that file.
pub proof fn law_signatures_name_their_file(rules: Seq<MatchRule>, caps: Seq<Seq<Vec<Capture>>>, path: Seq<char>)
    ensures
        forall|i: int| 0 <= i < apply_rules(rules, caps, path).len() ==> #[trigger] apply_rules(rules, caps, path)[i].file == path,
    decreases rules.len(),
{
    if rules.len() > 0 && caps.len() == rules.len() {
        law_signatures_name_their_file(rules.drop_last(), caps.drop_last(), path);
        lemma_rule_keeps_file(apply_rules(rules.drop_last(), caps.drop_last(), path), caps.last(), rules.last(), path);
    }
}

/// The name under which an unsupported file is reported: its extension, or
/// `unknown`.
pub open spec fn unsupported_name(path: Seq<char>) -> Seq<char> {
    match path_extension(path) {
        Some(e) => e,
        None => "unknown"@,
    }
}

/// The registry's language for a path, by its extension.
pub open spec fn language_for_path(langs: Seq<LangInfo>, path: Seq<char>) -> Option<int> {
    match path_extension(path) {
        Some(ext) => first_by_extension(langs, ext),
        None => None,
    }
}

/// What extracting one file gives: what the rules of the path's language
/// read from the matches of their patterns in the source, or an extraction
/// error that explains itself; an unsupported-language error for a path of
/// no known language.
pub open spec fn extraction_outcome(
    langs: Seq<LangInfo>,
    path: Seq<char>,
    source: Seq<char>,
    r: Result<Vec<ApiSignature>, RefactorError>,
) -> bool {
    match language_for_path(langs, path) {
        Some(i) => extracted_by(rules_for(langs[i].0), patterns_for(langs[i].0), langs[i].2, source, path, r),
        None => r matches Err(RefactorError::UnsupportedLanguage(n)) && n@ == unsupported_name(path),
    }
}

/// The signatures of files by path, from the outcomes of extracting them in
/// turn: a file whose extraction gave some signatures is recorded, a later
/// file of the same path replacing it; the others are passed over.
pub open spec fn collected(
    files: Seq<FileContent>,
    outs: Seq<Result<Vec<ApiSignature>, RefactorError>>,
) -> Map<Seq<char>, Seq<ApiSignature>>
    decreases files.len(),
{
    if files.len() == 0 || outs.len() != files.len() {
        Map::empty()
    } else {
        let m = collected(files.drop_last(), outs.drop_last());
        match outs.last() {
            Ok(v) => if v@.len() > 0 {
                m.insert(files.last().path@, v@)
            } else {
                m
            },
            Err(_) => m,
        }
    }
}

/// Extracts API signatures from source files.
pub struct ApiExtractor {
    registry: LanguageRegistry,
}

impl View for ApiExtractor {
    type V = Seq<LangInfo>;

    closed spec fn view(&self) -> Self::V {
        self.registry@
    }
}

impl ApiExtractor {
    /// Create a new API extractor for every language with rules: the
    /// registry's built-in languages, then Go, Java, C# and Ruby.
    pub fn new() -> (r: Self)
        ensures
            r@ == crate::lang::builtin_infos() + seq![
                lang_info(Go),
                lang_info(Java),
                lang_info(CSharp),
                lang_info(Ruby),
            ],
    {
        let mut registry = LanguageRegistry::new();
        registry.register(Go);
        registry.register(Java);
        registry.register(CSharp);
        registry.register(Ruby);
        let r = ApiExtractor { registry };
        assert(r@ =~= crate::lang::builtin_infos() + seq![
            lang_info(Go),
            lang_info(Java),
            lang_info(CSharp),
            lang_info(Ruby),
        ]);
        r
    }

    /// Create an API extractor with a custom language registry.
    pub fn with_registry(registry: LanguageRegistry) -> (r: Self)
        ensures
            r@ == registry@,
    {
        ApiExtractor { registry }
    }

    /// Extract API signatures from a source file, in the language its
    /// extension names; unsupported when no language claims it.
    pub fn extract(&self, path: &str, source: &str) -> (r: Result<Vec<ApiSignature>, RefactorError>)
        ensures
            match language_for_path(self@, path@) {
                Some(i) => extracted_by(rules_for(self@[i].0), patterns_for(self@[i].0), self@[i].2, source@, path@, r),
                None => r matches Err(RefactorError::UnsupportedLanguage(n)) && n@ == unsupported_name(path@),
            },
    {
        match self.registry.detect(path) {
            Some(lang) => self.extract_with_language(path, source, lang),
            None => {
                let name = match path_extension_exec(path) {
                    Some(e) => string_of(&e),
                    None => copy_str("unknown"),
                };
                Err(RefactorError::UnsupportedLanguage(name))
            },
        }
    }

    /// Extract API signatures using a specific language, chosen by its name;
    /// nothing for a language without rules.
    pub fn extract_with_language<L: SourceLanguage>(&self, path: &str, source: &str, lang: &L) -> (r: Result<
        Vec<ApiSignature>,
        RefactorError,
    >)
        ensures
            extracted_by(
                rules_for(lang.lang_name()),
                patterns_for(lang.lang_name()),
                lang.lang_grammar(),
                source@,
                path@,
                r,
            ),
    {
        let name = lang.name();
        if str_eq(name, "rust") {
            let r = self.extract_rust(path, source, lang);
            assert(rules_for(lang.lang_name()) == rust_rules() && patterns_for(lang.lang_name()) == rust_patterns());
            r
        } else if str_eq(name, "typescript") {
            let r = self.extract_typescript(path, source, lang);
            assert(rules_for(lang.lang_name()) == typescript_rules() && patterns_for(lang.lang_name()) == typescript_patterns());
            r
        } else if str_eq(name, "python") {
            let r = self.extract_python(path, source, lang);
            assert(rules_for(lang.lang_name()) == python_rules() && patterns_for(lang.lang_name()) == python_patterns());
            r
        } else if str_eq(name, "go") {
            let r = self.extract_go(path, source, lang);
            assert(rules_for(lang.lang_name()) == go_rules() && patterns_for(lang.lang_name()) == go_patterns());
            r
        } else if str_eq(name, "java") {
            let r = self.extract_java(path, source, lang);
            assert(rules_for(lang.lang_name()) == java_rules() && patterns_for(lang.lang_name()) == java_patterns());
            r
        } else if str_eq(name, "csharp") {
            let r = self.extract_csharp(path, source, lang);
            assert(rules_for(lang.lang_name()) == csharp_rules() && patterns_for(lang.lang_name()) == csharp_patterns());
            r
        } else if str_eq(name, "ruby") {
            let r = self.extract_ruby(path, source, lang);
            assert(rules_for(lang.lang_name()) == ruby_rules() && patterns_for(lang.lang_name()) == ruby_patterns());
            r
        } else {
            let v: Vec<ApiSignature> = Vec::new();
            assert(rules_for(lang.lang_name()) == Seq::<MatchRule>::empty());
            let r: Result<Vec<ApiSignature>, RefactorError> = Ok(v);
            assert(r matches Ok(w) && w@ == v@);
            r
        }
    }

    /// Extract from multiple files: the signatures of each file that yields
    /// some, by its path; files that fail are passed over.
    pub fn extract_all(&self, files: &[FileContent]) -> (r: StrMap<Vec<ApiSignature>>)
        ensures
            exists|outs: Seq<Result<Vec<ApiSignature>, RefactorError>>|
                outs.len() == files@.len() && (forall|i: int|
                    0 <= i < files@.len() ==> #[trigger] extraction_outcome(self@, files@[i].path@, files@[i].content@, outs[i]))
                    && r@ == collected(files@, outs),
    {
        let mut result: StrMap<Vec<ApiSignature>> = StrMap::new();
        let ghost mut outs: Seq<Result<Vec<ApiSignature>, RefactorError>> = Seq::empty();
        let mut i: usize = 0;
        assert(result@ =~= collected(files@.take(0), outs));
        while i < files.len()
            invariant
                0 <= i <= files@.len(),
                outs.len() == i,
                forall|j: int| 0 <= j < i ==> #[trigger] extraction_outcome(self@, files@[j].path@, files@[j].content@, outs[j]),
                result@ == collected(files@.take(i as int), outs),
            decreases files.len() - i,
        {
            let res = self.extract(files[i].path.as_str(), files[i].content.as_str());
            let ghost o = res;
            let ghost before = result@;
            assert(files@.take(i + 1).drop_last() =~= files@.take(i as int));
            assert(files@.take(i + 1).last() == files@[i as int]);
            assert(outs.push(o).drop_last() =~= outs);
            match res {
                Ok(sigs) => {
                    if sigs.len() > 0 {
                        result.insert(files[i].path.clone(), sigs);
                    }
                },
                Err(_) => {},
            }
            proof {
                outs = outs.push(o);
            }
            assert(result@ =~= collected(files@.take(i + 1), outs));
            i = i + 1;
        }
        assert(files@.take(files@.len() as int) =~= files@);
        result
    }

    /// Run each query of a table over the parsed source and read its matches
    /// with its rule, in order.
    fn extract_by_rules<L: SourceLanguage>(
        &self,
        path: &str,
        source: &str,
        lang: &L,
        queries: &Vec<(&'static str, MatchRule)>,
    ) -> (r: Result<Vec<ApiSignature>, RefactorError>)
        ensures
            extracted_by(rules_of(queries@), patterns_of(queries@), lang.lang_grammar(), source@, path@, r),
    {
        let parsed = match lang.parse_source(source) {
            Ok(p) => p,
            Err(e) => {
                return Err(e);
            },
        };
        let ghost g = lang.lang_grammar();
        let ghost pats = patterns_of(queries@);
        let ghost all = matches_for(g, pats, source@);
        let mut signatures: Vec<ApiSignature> = Vec::new();
        let mut i: usize = 0;
        assert(sigs_are(signatures@, apply_rules(rules_of(queries@).take(0), all.take(0), path@)));
        while i < queries.len()
            invariant
                0 <= i <= queries@.len(),
                g == lang.lang_grammar(),
                pats == patterns_of(queries@),
                all == matches_for(g, pats, source@),
                parsed@ == (g, source@),
                sigs_are(signatures@, apply_rules(rules_of(queries@).take(i as int), all.take(i as int), path@)),
            decreases queries.len() - i,
        {
            let (pattern, rule) = queries[i];
            assert(pats[i as int] == pattern@);
            let query = match lang.compile(pattern) {
                Ok(q) => q,
                Err(e) => {
                    assert(!query_compiles(g, pats[i as int]));
                    return Err(e);
                },
            };
            let ms = ts_query_matches(&parsed, &query);
            assert(all[i as int] == ms@);
            if !positions_fit_exec(&ms) {
                let r: Result<Vec<ApiSignature>, RefactorError> = Err(
                    RefactorError::Parse {
                        path: copy_str(path),
                        message: copy_str("source position out of range"),
                    },
                );
                assert(!positions_fit(all[i as int]));
                return r;
            }
            let ghost acc = apply_rules(rules_of(queries@).take(i as int), all.take(i as int), path@);
            apply_rule_exec(&rule, &ms, path, &mut signatures, Ghost(acc));
            proof {
                let rs = rules_of(queries@).take(i + 1);
                let cs = all.take(i + 1);
                assert(rs.drop_last() =~= rules_of(queries@).take(i as int));
                assert(rs.last() == rule);
                assert(cs.drop_last() =~= all.take(i as int));
                assert(cs.last() == ms@);
            }
            i = i + 1;
        }
        assert(rules_of(queries@).take(queries@.len() as int) =~= rules_of(queries@));
        assert(all.take(queries@.len() as int) =~= all);
        let r: Result<Vec<ApiSignature>, RefactorError> = Ok(signatures);
        assert(r matches Ok(v) && v@ == signatures@);
        r
    }

    /// Rust: public functions, structs and enums.
    fn extract_rust<L: SourceLanguage>(&self, path: &str, source: &str, lang: &L) -> (r: Result<Vec<ApiSignature>, RefactorError>)
        ensures
            extracted_by(rust_rules(), rust_patterns(), lang.lang_grammar(), source@, path@, r),
    {
        let queries: Vec<(&'static str, MatchRule)> = vec![
            (RUST_FN_QUERY, MatchRule { name_capture: "fn_name", anchor_capture: "function", kind: ApiType::Function, visibility: VisRule::PubPrefix, params: Some(ParamStyle::Rust), ret: Some(ReturnStyle::Trimmed), skip_known: false }),
            (RUST_STRUCT_QUERY, MatchRule { name_capture: "struct_name", anchor_capture: "struct", kind: ApiType::Struct, visibility: VisRule::PubPrefix, params: None, ret: None, skip_known: false }),
            (RUST_ENUM_QUERY, MatchRule { name_capture: "enum_name", anchor_capture: "enum", kind: ApiType::Enum, visibility: VisRule::PubPrefix, params: None, ret: None, skip_known: false }),
        ];
        assert(rules_of(queries@) =~= rust_rules());
        assert(patterns_of(queries@) =~= rust_patterns());
        self.extract_by_rules(path, source, lang, &queries)
    }

    /// TypeScript: exported functions, the other functions not yet seen, exported interfaces and classes.
    fn extract_typescript<L: SourceLanguage>(&self, path: &str, source: &str, lang: &L) -> (r: Result<Vec<ApiSignature>, RefactorError>)
        ensures
            extracted_by(typescript_rules(), typescript_patterns(), lang.lang_grammar(), source@, path@, r),
    {
        let queries: Vec<(&'static str, MatchRule)> = vec![
            (TS_FN_QUERY, MatchRule { name_capture: "fn_name", anchor_capture: "export_fn", kind: ApiType::Function, visibility: VisRule::Public, params: Some(ParamStyle::TypeScript), ret: Some(ReturnStyle::Annotation), skip_known: false }),
            (TS_LOCAL_FN_QUERY, MatchRule { name_capture: "fn_name", anchor_capture: "function", kind: ApiType::Function, visibility: VisRule::Private, params: Some(ParamStyle::TypeScript), ret: Some(ReturnStyle::Annotation), skip_known: true }),
            (TS_INTERFACE_QUERY, MatchRule { name_capture: "iface_name", anchor_capture: "export_iface", kind: ApiType::Interface, visibility: VisRule::Public, params: None, ret: None, skip_known: false }),
            (TS_CLASS_QUERY, MatchRule { name_capture: "class_name", anchor_capture: "export_class", kind: ApiType::Class, visibility: VisRule::Public, params: None, ret: None, skip_known: false }),
        ];
        assert(rules_of(queries@) =~= typescript_rules());
        assert(patterns_of(queries@) =~= typescript_patterns());
        self.extract_by_rules(path, source, lang, &queries)
    }

    /// Python: functions and classes.
    fn extract_python<L: SourceLanguage>(&self, path: &str, source: &str, lang: &L) -> (r: Result<Vec<ApiSignature>, RefactorError>)
        ensures
            extracted_by(python_rules(), python_patterns(), lang.lang_grammar(), source@, path@, r),
    {
        let queries: Vec<(&'static str, MatchRule)> = vec![
            (PYTHON_FN_QUERY, MatchRule { name_capture: "fn_name", anchor_capture: "function", kind: ApiType::Function, visibility: VisRule::NoLeadingUnderscore, params: Some(ParamStyle::Python), ret: Some(ReturnStyle::Trimmed), skip_known: false }),
            (PYTHON_CLASS_QUERY, MatchRule { name_capture: "class_name", anchor_capture: "class", kind: ApiType::Class, visibility: VisRule::NoLeadingUnderscore, params: None, ret: None, skip_known: false }),
        ];
        assert(rules_of(queries@) =~= python_rules());
        assert(patterns_of(queries@) =~= python_patterns());
        self.extract_by_rules(path, source, lang, &queries)
    }

    /// Go: functions, methods, structs and interfaces.
    fn extract_go<L: SourceLanguage>(&self, path: &str, source: &str, lang: &L) -> (r: Result<Vec<ApiSignature>, RefactorError>)
        ensures
            extracted_by(go_rules(), go_patterns(), lang.lang_grammar(), source@, path@, r),
    {
        let queries: Vec<(&'static str, MatchRule)> = vec![
            (GO_FN_QUERY, MatchRule { name_capture: "fn_name", anchor_capture: "function", kind: ApiType::Function, visibility: VisRule::Capitalized, params: Some(ParamStyle::Go), ret: Some(ReturnStyle::Trimmed), skip_known: false }),
            (GO_METHOD_QUERY, MatchRule { name_capture: "method_name", anchor_capture: "method", kind: ApiType::Method, visibility: VisRule::Capitalized, params: Some(ParamStyle::Go), ret: Some(ReturnStyle::Trimmed), skip_known: false }),
            (GO_STRUCT_QUERY, MatchRule { name_capture: "struct_name", anchor_capture: "struct", kind: ApiType::Struct, visibility: VisRule::Capitalized, params: None, ret: None, skip_known: false }),
            (GO_INTERFACE_QUERY, MatchRule { name_capture: "iface_name", anchor_capture: "interface", kind: ApiType::Interface, visibility: VisRule::Capitalized, params: None, ret: None, skip_known: false }),
        ];
        assert(rules_of(queries@) =~= go_rules());
        assert(patterns_of(queries@) =~= go_patterns());
        self.extract_by_rules(path, source, lang, &queries)
    }

    /// Java: classes, methods and interfaces.
    fn extract_java<L: SourceLanguage>(&self, path: &str, source: &str, lang: &L) -> (r: Result<Vec<ApiSignature>, RefactorError>)
        ensures
            extracted_by(java_rules(), java_patterns(), lang.lang_grammar(), source@, path@, r),
    {
        let queries: Vec<(&'static str, MatchRule)> = vec![
            (JAVA_CLASS_QUERY, MatchRule { name_capture: "class_name", anchor_capture: "class", kind: ApiType::Class, visibility: VisRule::ModifiersContainPublic, params: None, ret: None, skip_known: false }),
            (JAVA_METHOD_QUERY, MatchRule { name_capture: "method_name", anchor_capture: "method", kind: ApiType::Method, visibility: VisRule::ModifiersContainPublic, params: Some(ParamStyle::Java), ret: Some(ReturnStyle::Trimmed), skip_known: false }),
            (JAVA_INTERFACE_QUERY, MatchRule { name_capture: "iface_name", anchor_capture: "interface", kind: ApiType::Interface, visibility: VisRule::ModifiersContainPublic, params: None, ret: None, skip_known: false }),
        ];
        assert(rules_of(queries@) =~= java_rules());
        assert(patterns_of(queries@) =~= java_patterns());
        self.extract_by_rules(path, source, lang, &queries)
    }

    /// CSharp: classes, methods and interfaces.
    fn extract_csharp<L: SourceLanguage>(&self, path: &str, source: &str, lang: &L) -> (r: Result<Vec<ApiSignature>, RefactorError>)
        ensures
            extracted_by(csharp_rules(), csharp_patterns(), lang.lang_grammar(), source@, path@, r),
    {
        let queries: Vec<(&'static str, MatchRule)> = vec![
            (CSHARP_CLASS_QUERY, MatchRule { name_capture: "class_name", anchor_capture: "class", kind: ApiType::Class, visibility: VisRule::AnyModifierPublic, params: None, ret: None, skip_known: false }),
            (CSHARP_METHOD_QUERY, MatchRule { name_capture: "method_name", anchor_capture: "method", kind: ApiType::Method, visibility: VisRule::AnyModifierPublic, params: Some(ParamStyle::CSharp), ret: Some(ReturnStyle::Trimmed), skip_known: false }),
            (CSHARP_INTERFACE_QUERY, MatchRule { name_capture: "iface_name", anchor_capture: "interface", kind: ApiType::Interface, visibility: VisRule::AnyModifierPublic, params: None, ret: None, skip_known: false }),
        ];
        assert(rules_of(queries@) =~= csharp_rules());
        assert(patterns_of(queries@) =~= csharp_patterns());
        self.extract_by_rules(path, source, lang, &queries)
    }

    /// Ruby: methods, classes and modules.
    fn extract_ruby<L: SourceLanguage>(&self, path: &str, source: &str, lang: &L) -> (r: Result<Vec<ApiSignature>, RefactorError>)
        ensures
            extracted_by(ruby_rules(), ruby_patterns(), lang.lang_grammar(), source@, path@, r),
    {
        let queries: Vec<(&'static str, MatchRule)> = vec![
            (RUBY_METHOD_QUERY, MatchRule { name_capture: "method_name", anchor_capture: "method", kind: ApiType::Method, visibility: VisRule::NoLeadingUnderscore, params: Some(ParamStyle::Ruby), ret: None, skip_known: false }),
            (RUBY_CLASS_QUERY, MatchRule { name_capture: "class_name", anchor_capture: "class", kind: ApiType::Class, visibility: VisRule::Public, params: None, ret: None, skip_known: false }),
            (RUBY_MODULE_QUERY, MatchRule { name_capture: "module_name", anchor_capture: "module", kind: ApiType::Module, visibility: VisRule::Public, params: None, ret: None, skip_known: false }),
        ];
        assert(rules_of(queries@) =~= ruby_rules());
        assert(patterns_of(queries@) =~= ruby_patterns());
        self.extract_by_rules(path, source, lang, &queries)
    }
}

/// Rust functions.
pub const RUST_FN_QUERY: &'static str = "
            (function_item
                (visibility_modifier)? @vis
                name: (identifier) @fn_name
                parameters: (parameters) @params
                return_type: (_)? @return_type
            ) @function
            ";

/// Rust structs.
pub const RUST_STRUCT_QUERY: &'static str = "
            (struct_item
                (visibility_modifier)? @vis
                name: (type_identifier) @struct_name
            ) @struct
            ";

/// Rust enums.
pub const RUST_ENUM_QUERY: &'static str = "
            (enum_item
                (visibility_modifier)? @vis
                name: (type_identifier) @enum_name
            ) @enum
            ";

/// TypeScript query: fn declarations.
pub const TS_FN_QUERY: &'static str = "
            (export_statement
                declaration: (function_declaration
                    name: (identifier) @fn_name
                    parameters: (formal_parameters) @params
                    return_type: (type_annotation)? @return_type
                )
            ) @export_fn
            ";

/// TypeScript query: local fn declarations.
pub const TS_LOCAL_FN_QUERY: &'static str = "
            (function_declaration
                name: (identifier) @fn_name
                parameters: (formal_parameters) @params
                return_type: (type_annotation)? @return_type
            ) @function
            ";

/// TypeScript query: interface declarations.
pub const TS_INTERFACE_QUERY: &'static str = "
            (export_statement
                declaration: (interface_declaration
                    name: (type_identifier) @iface_name
                )
            ) @export_iface
            ";

/// TypeScript query: class declarations.
pub const TS_CLASS_QUERY: &'static str = "
            (export_statement
                declaration: (class_declaration
                    name: (type_identifier) @class_name
                )
            ) @export_class
            ";

/// Python query: fn declarations.
pub const PYTHON_FN_QUERY: &'static str = "
            (function_definition
                name: (identifier) @fn_name
                parameters: (parameters) @params
                return_type: (type)? @return_type
            ) @function
            ";

/// Python query: class declarations.
pub const PYTHON_CLASS_QUERY: &'static str = "
            (class_definition
                name: (identifier) @class_name
            ) @class
            ";

/// Go query: fn declarations.
pub const GO_FN_QUERY: &'static str = "
            (function_declaration
                name: (identifier) @fn_name
                parameters: (parameter_list) @params
                result: (_)? @return_type
            ) @function
            ";

/// Go query: method declarations.
pub const GO_METHOD_QUERY: &'static str = "
            (method_declaration
                receiver: (parameter_list) @receiver
                name: (field_identifier) @method_name
                parameters: (parameter_list) @params
                result: (_)? @return_type
            ) @method
            ";

/// Go query: struct declarations.
pub const GO_STRUCT_QUERY: &'static str = "
            (type_declaration
                (type_spec
                    name: (type_identifier) @struct_name
                    type: (struct_type)
                )
            ) @struct
            ";

/// Go query: interface declarations.
pub const GO_INTERFACE_QUERY: &'static str = "
            (type_declaration
                (type_spec
                    name: (type_identifier) @iface_name
                    type: (interface_type)
                )
            ) @interface
            ";

/// Java query: class declarations.
pub const JAVA_CLASS_QUERY: &'static str = "
            (class_declaration
                (modifiers)? @modifiers
                name: (identifier) @class_name
            ) @class
            ";

/// Java query: method declarations.
pub const JAVA_METHOD_QUERY: &'static str = "
            (method_declaration
                (modifiers)? @modifiers
                type: (_) @return_type
                name: (identifier) @method_name
                parameters: (formal_parameters) @params
            ) @method
            ";

/// Java query: interface declarations.
pub const JAVA_INTERFACE_QUERY: &'static str = "
            (interface_declaration
                (modifiers)? @modifiers
                name: (identifier) @iface_name
            ) @interface
            ";

/// CSharp query: class declarations.
pub const CSHARP_CLASS_QUERY: &'static str = "
            (class_declaration
                (modifier)* @modifiers
                name: (identifier) @class_name
            ) @class
            ";

/// CSharp query: method declarations.
pub const CSHARP_METHOD_QUERY: &'static str = "
            (method_declaration
                (modifier)* @modifiers
                (predefined_type)? @return_type
                name: (identifier) @method_name
                (parameter_list) @params
            ) @method
            ";

/// CSharp query: interface declarations.
pub const CSHARP_INTERFACE_QUERY: &'static str = "
            (interface_declaration
                (modifier)* @modifiers
                name: (identifier) @iface_name
            ) @interface
            ";

/// Ruby query: method declarations.
pub const RUBY_METHOD_QUERY: &'static str = "
            (method
                name: (identifier) @method_name
                parameters: (method_parameters)? @params
            ) @method
            ";

/// Ruby query: class declarations.
pub const RUBY_CLASS_QUERY: &'static str = "
            (class
                name: (constant) @class_name
            ) @class
            ";

/// Ruby query: module declarations.
pub const RUBY_MODULE_QUERY: &'static str = "
            (module
                name: (constant) @module_name
            ) @module
            ";

} // verus!

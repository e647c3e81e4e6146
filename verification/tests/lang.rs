use refactor_dsl::lang::{CSharp, Go, Java, LanguageRegistry, Python, Ruby, Rust, SourceLanguage, TypeScript};
use refactor_dsl::error::RefactorError;

#[test]
fn test_rust_language() {
    let rust = Rust;
    assert_eq!(rust.name(), "rust");
    assert!(rust.extensions().contains(&"rs"));
    assert!(rust.matches_extension("rs"));
    assert!(rust.matches_extension("RS")); // case insensitive
    assert!(!rust.matches_extension("py"));
}

#[test]
fn test_typescript_language() {
    let ts = TypeScript;
    assert_eq!(ts.name(), "typescript");
    assert!(ts.matches_extension("ts"));
    assert!(ts.matches_extension("tsx"));
    assert!(ts.matches_extension("js"));
    assert!(ts.matches_extension("jsx"));
}

#[test]
fn test_python_language() {
    let py = Python;
    assert_eq!(py.name(), "python");
    assert!(py.matches_extension("py"));
    assert!(py.matches_extension("pyi"));
}

#[test]
fn test_rust_parsing() {
    let rust = Rust;
    let source = "fn main() { println!(\"Hello\"); }";
    let tree = rust.parse(source).expect("Failed to parse");
    assert!(!tree.root_node().has_error());
}

#[test]
fn test_typescript_parsing() {
    let ts = TypeScript;
    let source = "function hello(): void { console.log('hi'); }";
    let tree = ts.parse(source).expect("Failed to parse");
    assert!(!tree.root_node().has_error());
}

#[test]
fn test_python_parsing() {
    let py = Python;
    let source = "def hello():\n    print('hi')";
    let tree = py.parse(source).expect("Failed to parse");
    assert!(!tree.root_node().has_error());
}

#[test]
fn test_rust_query() {
    let rust = Rust;
    let query = rust.query("(function_item name: (identifier) @fn)");
    assert!(query.is_ok());
}

#[test]
fn test_invalid_query() {
    let rust = Rust;
    let query = rust.query("(invalid_node_type @capture)");
    assert!(query.is_err());
}

#[test]
fn test_registry_new() {
    let registry = LanguageRegistry::new();
    assert_eq!(registry.all().len(), 3);
}

#[test]
fn test_registry_by_extension() {
    let registry = LanguageRegistry::new();

    let rust = registry.by_extension("rs");
    assert!(rust.is_some());
    assert_eq!(rust.unwrap().name(), "rust");

    let ts = registry.by_extension("ts");
    assert!(ts.is_some());
    assert_eq!(ts.unwrap().name(), "typescript");

    let py = registry.by_extension("py");
    assert!(py.is_some());
    assert_eq!(py.unwrap().name(), "python");

    let unknown = registry.by_extension("xyz");
    assert!(unknown.is_none());
}

#[test]
fn test_registry_by_name() {
    let registry = LanguageRegistry::new();

    assert!(registry.by_name("rust").is_some());
    assert!(registry.by_name("RUST").is_some()); // case insensitive
    assert!(registry.by_name("typescript").is_some());
    assert!(registry.by_name("python").is_some());
    assert!(registry.by_name("cobol").is_none());
}

#[test]
fn test_registry_detect() {
    let registry = LanguageRegistry::new();

    let rust = registry.detect("src/main.rs");
    assert!(rust.is_some());
    assert_eq!(rust.unwrap().name(), "rust");

    let ts = registry.detect("app/index.tsx");
    assert!(ts.is_some());
    assert_eq!(ts.unwrap().name(), "typescript");

    let no_ext = registry.detect("Makefile");
    assert!(no_ext.is_none());
}

#[test]
fn other_languages_parse_their_sources() {
    assert!(!Go.parse("package main\nfunc main() {}\n").unwrap().root_node().has_error());
    assert!(!Java.parse("class A { void f() {} }").unwrap().root_node().has_error());
    assert!(!CSharp.parse("class A { void F() {} }").unwrap().root_node().has_error());
    assert!(!Ruby.parse("def hello\n  1\nend\n").unwrap().root_node().has_error());
}

#[test]
fn registered_language_is_found_by_extension() {
    let mut registry = LanguageRegistry::empty();
    assert!(registry.by_extension("go").is_none());
    registry.register(Go);
    assert_eq!(registry.by_extension("GO").unwrap().name(), "go");
    assert_eq!(registry.all().len(), 1);
}

#[test]
fn registered_entry_keeps_its_grammar() {
    let mut registry = LanguageRegistry::empty();
    registry.register(Ruby);
    let ruby = registry.by_name("ruby").unwrap();
    assert!(ruby.query("(method name: (identifier) @name)").is_ok());
}

#[test]
fn parsed_source_keeps_its_text_and_grammar() {
    let parsed = Rust.parse_source("fn a() {}").expect("Failed to parse");
    assert_eq!(parsed.source(), "fn a() {}");
    assert!(!parsed.tree().root_node().has_error());
    assert_eq!(Go.grammar().name(), "go");
    assert_eq!(Go.grammar().duplicate().name(), "go");
}

#[test]
fn compile_keeps_only_patterns_that_compile() {
    assert!(Rust.compile("(function_item name: (identifier) @fn)").is_ok());
    assert!(matches!(Rust.compile("(no_such_node) @x"), Err(RefactorError::Query(_))));
}

#[test]
fn registered_entry_keeps_its_grammar_name() {
    let mut registry = LanguageRegistry::empty();
    registry.register(Ruby);
    assert_eq!(registry.by_name("ruby").unwrap().grammar().name(), "ruby");
}

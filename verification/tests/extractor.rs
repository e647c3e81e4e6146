use refactor_dsl::analyzer::change::ApiType;
use refactor_dsl::analyzer::extractor::ApiExtractor;
use refactor_dsl::analyzer::params::{parse_params, ParamStyle};
use refactor_dsl::analyzer::syntax::SyntaxNode;
use refactor_dsl::error::RefactorError;
use refactor_dsl::lang::{Go, LanguageRegistry};

#[test]
fn test_extract_rust_functions() {
    let extractor = ApiExtractor::new();
    let source = r#"
pub fn hello(name: &str) -> String {
    format!("Hello, {}", name)
}

fn private_fn() {}

pub fn greet(name: &str, times: u32) {
    for _ in 0..times {
        println!("Hi, {}", name);
    }
}
"#;

    let sigs = extractor.extract("test.rs", source).unwrap();

    assert_eq!(sigs.len(), 3);

    let hello = sigs.iter().find(|s| s.name == "hello").unwrap();
    assert!(hello.is_exported);
    assert_eq!(hello.parameters.len(), 1);
    assert_eq!(hello.parameters[0].name, "name");

    let private_fn = sigs.iter().find(|s| s.name == "private_fn").unwrap();
    assert!(!private_fn.is_exported);
}

#[test]
fn test_extract_rust_structs() {
    let extractor = ApiExtractor::new();
    let source = r#"
pub struct Point {
    x: i32,
    y: i32,
}

struct InternalData {
    value: String,
}

pub enum Status {
    Active,
    Inactive,
}
"#;

    let sigs = extractor.extract("test.rs", source).unwrap();

    assert_eq!(sigs.len(), 3);

    let point = sigs.iter().find(|s| s.name == "Point").unwrap();
    assert!(point.is_exported);
    assert_eq!(point.kind, ApiType::Struct);

    let internal = sigs.iter().find(|s| s.name == "InternalData").unwrap();
    assert!(!internal.is_exported);

    let status = sigs.iter().find(|s| s.name == "Status").unwrap();
    assert!(status.is_exported);
    assert_eq!(status.kind, ApiType::Enum);
}

#[test]
fn test_extract_typescript_functions() {
    let extractor = ApiExtractor::new();
    let source = r#"
export function greet(name: string): string {
    return `Hello, ${name}`;
}

function privateHelper(): void {
    console.log("internal");
}

export interface User {
    id: number;
    name: string;
}
"#;

    let sigs = extractor.extract("test.ts", source).unwrap();

    let greet = sigs.iter().find(|s| s.name == "greet").unwrap();
    assert!(greet.is_exported);
    assert_eq!(greet.kind, ApiType::Function);

    let user = sigs.iter().find(|s| s.name == "User").unwrap();
    assert!(user.is_exported);
    assert_eq!(user.kind, ApiType::Interface);
}

#[test]
fn test_extract_python_functions() {
    let extractor = ApiExtractor::new();
    let source = r#"
def greet(name: str) -> str:
    return f"Hello, {name}"

def _private_helper():
    pass

class UserService:
    def get_user(self, id: int):
        pass
"#;

    let sigs = extractor.extract("test.py", source).unwrap();

    let greet = sigs.iter().find(|s| s.name == "greet").unwrap();
    assert!(greet.is_exported);
    assert_eq!(greet.parameters.len(), 1);
    assert_eq!(greet.parameters[0].name, "name");

    let private_helper = sigs.iter().find(|s| s.name == "_private_helper").unwrap();
    assert!(!private_helper.is_exported);

    let user_service = sigs.iter().find(|s| s.name == "UserService").unwrap();
    assert!(user_service.is_exported);
    assert_eq!(user_service.kind, ApiType::Class);
}

#[test]
fn test_extract_go_functions() {
    let extractor = ApiExtractor::new();
    let source = r#"
package main

func Hello(name string) string {
    return "Hello, " + name
}

func privateFunc() {
    fmt.Println("private")
}

type User struct {
    ID   int
    Name string
}

type userService interface {
    GetUser(id int) User
}
"#;

    let sigs = extractor.extract("test.go", source).unwrap();

    let hello = sigs.iter().find(|s| s.name == "Hello").unwrap();
    assert!(hello.is_exported);
    assert_eq!(hello.kind, ApiType::Function);

    let private_fn = sigs.iter().find(|s| s.name == "privateFunc").unwrap();
    assert!(!private_fn.is_exported);

    let user = sigs.iter().find(|s| s.name == "User").unwrap();
    assert!(user.is_exported);
    assert_eq!(user.kind, ApiType::Struct);

    let user_service = sigs.iter().find(|s| s.name == "userService").unwrap();
    assert!(!user_service.is_exported);
    assert_eq!(user_service.kind, ApiType::Interface);
}

#[test]
fn test_extract_java_classes() {
    let extractor = ApiExtractor::new();
    let source = r#"
public class UserService {
    public String getUser(int id) {
        return "user";
    }

    private void helper() {
        System.out.println("helper");
    }
}

interface Repository {
    void save(Object obj);
}
"#;

    let sigs = extractor.extract("UserService.java", source).unwrap();

    let user_service = sigs.iter().find(|s| s.name == "UserService").unwrap();
    assert!(user_service.is_exported);
    assert_eq!(user_service.kind, ApiType::Class);

    let get_user = sigs.iter().find(|s| s.name == "getUser").unwrap();
    assert!(get_user.is_exported);
    assert_eq!(get_user.kind, ApiType::Method);

    let helper = sigs.iter().find(|s| s.name == "helper").unwrap();
    assert!(!helper.is_exported);

    let repository = sigs.iter().find(|s| s.name == "Repository").unwrap();
    assert!(!repository.is_exported);
    assert_eq!(repository.kind, ApiType::Interface);
}

#[test]
fn test_extract_csharp_classes() {
    let extractor = ApiExtractor::new();
    let source = r#"
public class Program {
    public static void Main(string[] args) {
        Console.WriteLine("Hello");
    }

    private void Helper() {
        // helper method
    }
}

interface IRepository {
    void Save(object obj);
}
"#;

    let sigs = extractor.extract("Program.cs", source).unwrap();

    let program = sigs.iter().find(|s| s.name == "Program").unwrap();
    assert!(program.is_exported);
    assert_eq!(program.kind, ApiType::Class);

    let main = sigs.iter().find(|s| s.name == "Main").unwrap();
    assert!(main.is_exported);
    assert_eq!(main.kind, ApiType::Method);

    let helper = sigs.iter().find(|s| s.name == "Helper").unwrap();
    assert!(!helper.is_exported);

    let repository = sigs.iter().find(|s| s.name == "IRepository").unwrap();
    assert!(!repository.is_exported);
    assert_eq!(repository.kind, ApiType::Interface);
}

#[test]
fn test_extract_ruby_classes() {
    let extractor = ApiExtractor::new();
    let source = r#"
module MyModule
  class UserService
    def get_user(id)
      @users[id]
    end

    def _private_helper
      puts "helper"
    end
  end
end
"#;

    let sigs = extractor.extract("user_service.rb", source).unwrap();

    let my_module = sigs.iter().find(|s| s.name == "MyModule").unwrap();
    assert!(my_module.is_exported);
    assert_eq!(my_module.kind, ApiType::Module);

    let user_service = sigs.iter().find(|s| s.name == "UserService").unwrap();
    assert!(user_service.is_exported);
    assert_eq!(user_service.kind, ApiType::Class);

    let get_user = sigs.iter().find(|s| s.name == "get_user").unwrap();
    assert!(get_user.is_exported);
    assert_eq!(get_user.kind, ApiType::Method);

    let private_helper = sigs.iter().find(|s| s.name == "_private_helper").unwrap();
    assert!(!private_helper.is_exported);
}

#[test]
fn unsupported_extension_is_reported_by_name() {
    let extractor = ApiExtractor::new();
    match extractor.extract("notes.txt", "hello") {
        Err(RefactorError::UnsupportedLanguage(ext)) => assert_eq!(ext, "txt"),
        other => panic!("unexpected: {:?}", other),
    }
    match extractor.extract("Makefile", "all:") {
        Err(RefactorError::UnsupportedLanguage(ext)) => assert_eq!(ext, "unknown"),
        other => panic!("unexpected: {:?}", other),
    }
}

#[test]
fn rust_locations_and_return_types() {
    let extractor = ApiExtractor::new();
    let source = "pub fn add(a: i32, b: i32) -> i32 { a + b }\n  fn sub() {}\n";
    let sigs = extractor.extract("m.rs", source).unwrap();
    assert_eq!(sigs.len(), 2);
    assert_eq!(sigs[0].name, "add");
    assert_eq!(sigs[0].location.file, "m.rs");
    assert_eq!(sigs[0].location.line, 1);
    assert_eq!(sigs[0].location.column, 1);
    assert_eq!(sigs[0].return_type.as_ref().unwrap().name, "i32");
    assert_eq!(sigs[0].parameters.len(), 2);
    assert_eq!(sigs[0].parameters[1].type_info.as_ref().unwrap().name, "i32");
    assert_eq!(sigs[1].location.line, 2);
    assert_eq!(sigs[1].location.column, 3);
}

#[test]
fn typescript_local_function_after_export_is_not_repeated() {
    let extractor = ApiExtractor::new();
    let source = "export function run(x?: number): void {}\nfunction helper(a: string) {}\n";
    let sigs = extractor.extract("a.ts", source).unwrap();
    let runs: Vec<_> = sigs.iter().filter(|s| s.name == "run").collect();
    assert_eq!(runs.len(), 1);
    assert!(runs[0].is_exported);
    assert_eq!(runs[0].return_type.as_ref().unwrap().name, "void");
    assert!(runs[0].parameters[0].is_optional);
    assert_eq!(runs[0].parameters[0].type_info.as_ref().unwrap().name, "number");
    let helper = sigs.iter().find(|s| s.name == "helper").unwrap();
    assert!(!helper.is_exported);
}

#[test]
fn go_grouped_parameters_share_their_type() {
    let extractor = ApiExtractor::new();
    let sigs = extractor.extract_with_language("x.go", "package p\nfunc Add(a, b int) int { return a + b }\n", &Go).unwrap();
    let add = &sigs[0];
    assert_eq!(add.parameters.len(), 2);
    assert_eq!(add.parameters[0].name, "a");
    assert_eq!(add.parameters[1].name, "b");
    assert_eq!(add.parameters[1].type_info.as_ref().unwrap().name, "int");
}

#[test]
fn python_parameters_kinds() {
    let extractor = ApiExtractor::new();
    let source = "def f(self, a, b: int = 2, *args, **kw):\n    pass\n";
    let sigs = extractor.extract("p.py", source).unwrap();
    let f = &sigs[0];
    let names: Vec<&str> = f.parameters.iter().map(|p| p.name.as_str()).collect();
    assert!(names.contains(&"a"));
    assert!(!names.contains(&"self"));
    let b = f.parameters.iter().find(|p| p.name == "b").unwrap();
    assert!(b.has_default);
}

#[test]
fn ruby_parameters_from_a_plain_tree() {
    let leaf = |kind: &str, text: &str| SyntaxNode {
        kind: kind.to_string(),
        text: Some(text.to_string()),
        row: 0,
        column: 0,
        field: None,
        children: vec![],
    };
    let node = |kind: &str, children: Vec<SyntaxNode>| SyntaxNode {
        kind: kind.to_string(),
        text: None,
        row: 0,
        column: 0,
        field: None,
        children,
    };
    let params = node(
        "method_parameters",
        vec![
            leaf("identifier", "a"),
            node("optional_parameter", vec![leaf("identifier", "b"), leaf("=", "="), leaf("integer", "1")]),
            node("splat_parameter", vec![leaf("*", "*"), leaf("identifier", "rest")]),
        ],
    );
    let ps = parse_params(ParamStyle::Ruby, &params);
    assert_eq!(ps.len(), 3);
    assert_eq!(ps[0].name, "a");
    assert!(ps[1].has_default);
    assert_eq!(ps[1].name, "b");
    assert!(ps[2].is_variadic);
    assert_eq!(ps[2].name, "rest");
}

#[test]
fn registry_without_go_leaves_go_unsupported() {
    let extractor = refactor_dsl::analyzer::extractor::ApiExtractor::with_registry(LanguageRegistry::new());
    assert!(matches!(extractor.extract("x.go", "package p"), Err(RefactorError::UnsupportedLanguage(_))));
}

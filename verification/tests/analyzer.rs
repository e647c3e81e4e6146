use refactor_dsl::analyzer::change::{ApiType, ChangeKind};
use refactor_dsl::analyzer::detector::levenshtein_distance;
use refactor_dsl::analyzer::extractor::{FileChange, FileChangeType};
use refactor_dsl::analyzer::sanitize_version;
use refactor_dsl::analyzer::signature::{ApiSignature, Parameter, SourceLocation, TypeInfo};

#[test]
fn test_change_kind_names() {
    assert_eq!(
        ChangeKind::FunctionRenamed {
            old_name: "a".into(),
            new_name: "b".into(),
            mod_path: None
        }
        .name(),
        "Function Renamed"
    );
    assert_eq!(
        ChangeKind::ApiRemoved {
            name: "x".into(),
            api_type: ApiType::Function
        }
        .name(),
        "API Removed"
    );
}

#[test]
fn test_auto_transformable() {
    assert!(ChangeKind::FunctionRenamed {
        old_name: "a".into(),
        new_name: "b".into(),
        mod_path: None
    }
    .is_auto_transformable());

    assert!(!ChangeKind::SignatureChanged {
        name: "f".into(),
        old_params: vec![],
        new_params: vec![],
        old_return: None,
        new_return: None
    }
    .is_auto_transformable());
}

#[test]
fn test_levenshtein_distance() {
    assert_eq!(levenshtein_distance("", ""), 0);
    assert_eq!(levenshtein_distance("abc", "abc"), 0);
    assert_eq!(levenshtein_distance("abc", ""), 3);
    assert_eq!(levenshtein_distance("", "abc"), 3);
    assert_eq!(levenshtein_distance("kitten", "sitting"), 3);
    assert_eq!(levenshtein_distance("saturday", "sunday"), 3);
}

#[test]
fn test_file_change_path() {
    let change = FileChange {
        change_type: FileChangeType::Modified,
        old_path: Some("old.rs".to_string()),
        new_path: Some("new.rs".to_string()),
        old_content: None,
        new_content: None,
    };

    assert_eq!(change.path(), "new.rs");

    let deleted = FileChange {
        change_type: FileChangeType::Deleted,
        old_path: Some("deleted.rs".to_string()),
        new_path: None,
        old_content: None,
        new_content: None,
    };

    assert_eq!(deleted.path(), "deleted.rs");
}

#[test]
fn test_sanitize_version() {
    assert_eq!(sanitize_version("v1.0.0"), "1-0-0");
    assert_eq!(sanitize_version("1.2.3"), "1-2-3");
    assert_eq!(sanitize_version("feature/test"), "feature-test");
}

#[test]
fn test_parameter_display() {
    let p1 = Parameter::new("name").with_type(TypeInfo::simple("String"));
    assert_eq!(p1.display(), "name: String");

    let p2 = Parameter::new("age")
        .with_type(TypeInfo::simple("i32"))
        .with_default();
    assert_eq!(p2.display(), "age: i32 = ...");

    let p3 = Parameter::new("args").variadic();
    assert_eq!(p3.display(), "...args");

    let p4 = Parameter::new("callback")
        .optional()
        .with_type(TypeInfo::simple("Function"));
    assert_eq!(p4.display(), "callback?: Function");
}

#[test]
fn test_type_info_display() {
    let t1 = TypeInfo::simple("String");
    assert_eq!(t1.display(), "String");

    let t2 = TypeInfo::generic("Vec", vec![TypeInfo::simple("i32")]);
    assert_eq!(t2.display(), "Vec<i32>");

    let t3 = TypeInfo::simple("T").reference();
    assert_eq!(t3.display(), "&T");

    let t4 = TypeInfo::simple("T").mutable();
    assert_eq!(t4.display(), "&mut T");

    let t5 = TypeInfo::generic(
        "HashMap",
        vec![TypeInfo::simple("String"), TypeInfo::simple("Value")],
    );
    assert_eq!(t5.display(), "HashMap<String, Value>");
}

#[test]
fn test_api_signature_unique_id() {
    let loc = SourceLocation::new("test.rs", 1, 1);

    let sig1 = ApiSignature::function("foo", loc.clone());
    assert_eq!(sig1.unique_id(), "foo");

    let sig2 = ApiSignature::function("bar", loc).with_module_path("mymod");
    assert_eq!(sig2.unique_id(), "mymod::bar");
}

#[test]
fn levenshtein_is_symmetric_on_examples() {
    assert_eq!(levenshtein_distance("flaw", "lawn"), 2);
    assert_eq!(levenshtein_distance("lawn", "flaw"), 2);
    assert_eq!(levenshtein_distance("héllo", "hello"), 1);
}

#[test]
fn optional_type_display_marks_non_option_names() {
    assert_eq!(TypeInfo::simple("string").optional().display(), "string?");
    assert_eq!(TypeInfo::simple("Option<u8>").optional().display(), "Option<u8>");
}

use refactor_dsl::analyzer::change::Severity;
use refactor_dsl::analyzer::detector::{
    create_rename_change, detect_parameter_changes, detect_signature_change, format_signature,
    params_differ, removed_api_change,
};

fn make_fn(name: &str, params: Vec<&str>) -> ApiSignature {
    let loc = SourceLocation::new("test.rs", 1, 1);
    let params = params.into_iter().map(Parameter::new).collect();
    ApiSignature::function(name, loc).with_params(params)
}

#[test]
fn parameter_added_is_reported_with_position() {
    let old = make_fn("process", vec!["data"]);
    let new = make_fn("process", vec!["data", "options"]);
    let c = detect_signature_change(&old, &new).unwrap();
    match &c.kind {
        ChangeKind::ParameterAdded { function_name, param_name, position, has_default, .. } => {
            assert_eq!(function_name, "process");
            assert_eq!(param_name, "options");
            assert_eq!(*position, 1);
            assert!(!has_default);
        }
        other => panic!("unexpected {:?}", other),
    }
    assert_eq!(c.metadata.severity, Severity::Breaking);
    assert_eq!(c.metadata.migration_notes.as_deref(), Some("Parameter 'options' added to 'process'"));
}

#[test]
fn parameter_removed_and_reordered() {
    let old = make_fn("process", vec!["data", "debug"]);
    let new = make_fn("process", vec!["data"]);
    let c = detect_parameter_changes(&old, &new).unwrap();
    assert!(matches!(&c.kind, ChangeKind::ParameterRemoved { param_name, .. } if param_name == "debug"));

    let old = make_fn("draw", vec!["x", "y", "color"]);
    let new = make_fn("draw", vec!["color", "x", "y"]);
    let c = detect_parameter_changes(&old, &new).unwrap();
    assert!(matches!(&c.kind, ChangeKind::ParameterReordered { function_name, .. } if function_name == "draw"));
    assert_eq!(c.metadata.migration_notes.as_deref(), Some("Parameters of 'draw' were reordered"));
}

#[test]
fn unchanged_signature_reports_nothing() {
    let a = make_fn("foo", vec!["x"]);
    let b = make_fn("foo", vec!["x"]);
    assert!(detect_signature_change(&a, &b).is_none());
    assert!(!params_differ(&a.parameters, &b.parameters));
}

#[test]
fn return_type_change_is_a_warning() {
    let a = make_fn("foo", vec!["x"]).with_return_type(TypeInfo::simple("i32"));
    let b = make_fn("foo", vec!["x"]).with_return_type(TypeInfo::simple("i64"));
    let c = detect_signature_change(&a, &b).unwrap();
    assert!(matches!(c.kind, ChangeKind::SignatureChanged { .. }));
    assert_eq!(c.metadata.severity, Severity::Warning);
    assert_eq!(c.original.as_deref(), Some("foo(x) -> i32"));
    assert_eq!(c.replacement.as_deref(), Some("foo(x) -> i64"));
}

#[test]
fn type_change_of_a_parameter_is_breaking() {
    let a = make_fn("foo", vec![]).with_params(vec![Parameter::new("x").with_type(TypeInfo::simple("u8"))]);
    let b = make_fn("foo", vec![]).with_params(vec![Parameter::new("x").with_type(TypeInfo::simple("u16"))]);
    assert!(params_differ(&a.parameters, &b.parameters));
    let c = detect_signature_change(&a, &b).unwrap();
    assert_eq!(c.metadata.severity, Severity::Breaking);
    assert_eq!(c.metadata.old_line, Some(1));
}

#[test]
fn structs_are_not_compared_by_signature() {
    let loc = SourceLocation::new("t.rs", 1, 1);
    let a = ApiSignature::type_def("S", ApiType::Struct, loc.clone());
    let b = ApiSignature::type_def("S", ApiType::Struct, loc).with_return_type(TypeInfo::simple("x"));
    assert!(detect_signature_change(&a, &b).is_none());
}

#[test]
fn signature_text_and_renames() {
    let sig = make_fn("greet", vec!["name", "times"]).with_return_type(TypeInfo::simple("String"));
    assert_eq!(format_signature(&sig), "greet(name, times) -> String");

    let loc = SourceLocation::new("types.rs", 3, 1);
    let old = ApiSignature::type_def("UserData", ApiType::Struct, loc.clone());
    let new = ApiSignature::type_def("UserInfo", ApiType::Struct, loc);
    let c = create_rename_change(&old, &new);
    assert!(matches!(&c.kind, ChangeKind::TypeRenamed { old_name, new_name } if old_name == "UserData" && new_name == "UserInfo"));
    assert_eq!(c.metadata.migration_notes.as_deref(), Some("struct 'UserData' renamed to 'UserInfo'"));

    let r = removed_api_change("bar", &make_fn("bar", vec!["y"]));
    assert!(matches!(&r.kind, ChangeKind::ApiRemoved { name, .. } if name == "bar"));
    assert_eq!(r.metadata.migration_notes.as_deref(), Some("function 'bar' was removed"));
}

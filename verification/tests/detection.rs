use refactor_dsl::analyzer::change::{ApiType, ChangeKind};
use refactor_dsl::analyzer::detection::{finish_changes, kept_signatures, unmatched_apis};
use refactor_dsl::analyzer::signature::{ApiSignature, Parameter, SourceLocation};
use refactor_dsl::strmap::StrMap;

fn func(name: &str, file: &str, line: usize, params: Vec<&str>) -> ApiSignature {
    let params = params.into_iter().map(Parameter::new).collect();
    ApiSignature::function(name, SourceLocation::new(file, line, 1)).with_params(params)
}

fn one_file(file: &str, sigs: Vec<ApiSignature>) -> StrMap<Vec<ApiSignature>> {
    let mut m = StrMap::new();
    m.insert(file.to_string(), sigs);
    m
}

#[test]
fn same_version_shows_no_change() {
    let m = one_file("lib.rs", vec![func("alpha", "lib.rs", 1, vec!["x"]), func("beta", "lib.rs", 5, vec![])]);
    let (changes, old_un, new_un) = unmatched_apis(&m, &m, false);
    assert!(changes.is_empty());
    assert!(old_un.is_empty());
    assert!(new_un.is_empty());
    assert!(finish_changes(changes, &old_un, &new_un, true, &vec![]).is_empty());
}

#[test]
fn later_signature_wins_its_id() {
    let m = one_file("lib.rs", vec![func("alpha", "lib.rs", 1, vec![]), func("alpha", "lib.rs", 9, vec!["y"])]);
    let kept = kept_signatures(&m, false);
    assert_eq!(kept.len(), 1);
    assert_eq!(kept[0].location.line, 9);
}

#[test]
fn private_signatures_are_skipped_unless_included() {
    let m = one_file("lib.rs", vec![func("hidden", "lib.rs", 1, vec![]).exported(false)]);
    assert!(kept_signatures(&m, false).is_empty());
    assert_eq!(kept_signatures(&m, true).len(), 1);
}

#[test]
fn changed_parameters_are_reported() {
    let old = one_file("lib.rs", vec![func("alpha", "lib.rs", 1, vec!["x"])]);
    let new = one_file("lib.rs", vec![func("alpha", "lib.rs", 1, vec!["x", "y"])]);
    let (changes, old_un, new_un) = unmatched_apis(&old, &new, false);
    assert_eq!(changes.len(), 1);
    assert!(matches!(changes[0].kind, ChangeKind::ParameterAdded { .. }));
    assert!(old_un.is_empty() && new_un.is_empty());
}

#[test]
fn unmatched_api_is_removed_under_its_id() {
    let old = one_file("lib.rs", vec![func("gone", "lib.rs", 3, vec![])]);
    let new = one_file("lib.rs", vec![]);
    let (changes, old_un, new_un) = unmatched_apis(&old, &new, false);
    assert_eq!(old_un.len(), 1);
    let found = finish_changes(changes, &old_un, &new_un, true, &vec![vec![]]);
    assert_eq!(found.len(), 1);
    assert!(found[0].rename_of.is_none());
    match &found[0].change.kind {
        ChangeKind::ApiRemoved { name, api_type } => {
            assert_eq!(name, "gone");
            assert_eq!(*api_type, ApiType::Function);
        }
        _ => panic!("expected a removal"),
    }
}

#[test]
fn ranked_candidate_becomes_a_rename() {
    let old = one_file("lib.rs", vec![func("getUser", "lib.rs", 2, vec!["id"])]);
    let new = one_file("lib.rs", vec![func("fetchUser", "lib.rs", 2, vec!["id"])]);
    let (changes, old_un, new_un) = unmatched_apis(&old, &new, false);
    assert_eq!((old_un.len(), new_un.len()), (1, 1));
    let found = finish_changes(changes, &old_un, &new_un, true, &vec![vec![0]]);
    assert_eq!(found.len(), 1);
    assert_eq!(found[0].rename_of, Some((0, 0)));
    assert!(matches!(&found[0].change.kind, ChangeKind::FunctionRenamed { old_name, new_name, .. }
        if old_name == "getUser" && new_name == "fetchUser"));
}

#[test]
fn changes_come_by_file_then_line() {
    let mut old = StrMap::new();
    old.insert("b.rs".to_string(), vec![func("late", "b.rs", 7, vec![]), func("early", "b.rs", 2, vec![])]);
    old.insert("a.rs".to_string(), vec![func("first", "a.rs", 40, vec![])]);
    let new = one_file("c.rs", vec![]);
    let (changes, old_un, new_un) = unmatched_apis(&old, &new, false);
    let ranked = vec![vec![]; old_un.len()];
    let found = finish_changes(changes, &old_un, &new_un, true, &ranked);
    let order: Vec<(String, Option<usize>)> =
        found.iter().map(|f| (f.change.file_path.clone(), f.change.metadata.old_line)).collect();
    assert_eq!(order, vec![("a.rs".to_string(), None), ("b.rs".to_string(), None), ("b.rs".to_string(), None)]);
    let names: Vec<String> = found.iter().map(|f| f.change.original.clone().unwrap()).collect();
    assert_eq!(names, vec!["first".to_string(), "late".to_string(), "early".to_string()]);
}

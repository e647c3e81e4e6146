use refactor_dsl::codemod::discovery::dependency::{DependencyFilter, PackageManager};
use refactor_dsl::codemod::discovery::framework::{Framework, FrameworkCategory, FrameworkFilter, FrameworkInfo};
use refactor_dsl::codemod::discovery::language::ProgrammingLanguage;
use refactor_dsl::codemod::discovery::version::VersionConstraint;
use refactor_dsl::codemod::filter::RepoFilter;
use refactor_dsl::codemod::RepoInfo;

#[test]
fn test_version_constraint_parse() {
    assert!(matches!(VersionConstraint::parse("*"), VersionConstraint::Any));
    assert!(matches!(VersionConstraint::parse(""), VersionConstraint::Any));
    assert!(matches!(VersionConstraint::parse(">=1.0"), VersionConstraint::AtLeast(_)));
    assert!(matches!(VersionConstraint::parse("<=2.0"), VersionConstraint::AtMost(_)));
    assert!(matches!(VersionConstraint::parse("~1.2"), VersionConstraint::Compatible(_)));
    assert!(matches!(VersionConstraint::parse("^1.2"), VersionConstraint::Caret(_)));
    assert!(matches!(VersionConstraint::parse("1.0.0"), VersionConstraint::Exact(_)));
}

#[test]
fn test_version_constraint_matches() {
    assert!(VersionConstraint::Any.matches("1.0.0"));
    assert!(VersionConstraint::Exact("1.0.0".to_string()).matches("1.0.0"));
    assert!(!VersionConstraint::Exact("1.0.0".to_string()).matches("1.0.1"));

    assert!(VersionConstraint::AtLeast("1.0.0".to_string()).matches("1.0.0"));
    assert!(VersionConstraint::AtLeast("1.0.0".to_string()).matches("1.0.1"));
    assert!(!VersionConstraint::AtLeast("1.0.0".to_string()).matches("0.9.0"));

    assert!(VersionConstraint::Caret("1.0.0".to_string()).matches("1.5.0"));
    assert!(!VersionConstraint::Caret("1.0.0".to_string()).matches("2.0.0"));
}

#[test]
fn test_compare_versions() {
    let constraint = VersionConstraint::Any;
    assert_eq!(constraint.compare_versions("1.0.0", "1.0.0"), 0);
    assert_eq!(constraint.compare_versions("1.0.1", "1.0.0"), 1);
    assert_eq!(constraint.compare_versions("1.0.0", "1.0.1"), -1);
    assert_eq!(constraint.compare_versions("2.0.0", "1.9.9"), 1);
}

#[test]
fn test_dependency_filter_builder() {
    let filter = DependencyFilter::new()
        .package_manager(PackageManager::Cargo)
        .has("serde")
        .has_version("tokio", ">=1.0")
        .excludes("deprecated-crate");

    assert_eq!(filter.package_manager, Some(PackageManager::Cargo));
    assert!(filter.required.contains_key("serde"));
    assert!(filter.required.contains_key("tokio"));
    assert!(filter.excluded.contains(&"deprecated-crate".to_string()));
}

#[test]
fn test_framework_category() {
    assert_eq!(Framework::React.category(), FrameworkCategory::Frontend);
    assert_eq!(Framework::NextJs.category(), FrameworkCategory::Fullstack);
    assert_eq!(Framework::Express.category(), FrameworkCategory::Backend);
    assert_eq!(Framework::Jest.category(), FrameworkCategory::Testing);
}

#[test]
fn test_framework_language() {
    assert_eq!(Framework::React.language(), "javascript");
    assert_eq!(Framework::Django.language(), "python");
    assert_eq!(Framework::Rails.language(), "ruby");
    assert_eq!(Framework::SpringBoot.language(), "java");
    assert_eq!(Framework::ActixWeb.language(), "rust");
}

#[test]
fn test_framework_filter_builder() {
    let filter = FrameworkFilter::new()
        .uses(Framework::React)
        .uses(Framework::Express)
        .excludes(Framework::Vue)
        .category(FrameworkCategory::Testing);

    assert!(filter.required.contains(&Framework::React));
    assert!(filter.required.contains(&Framework::Express));
    assert!(filter.excluded.contains(&Framework::Vue));
    assert!(filter.required_categories.contains(&FrameworkCategory::Testing));
}

#[test]
fn test_framework_detection_packages() {
    assert!(Framework::React.detection_packages().contains(&"react"));
    assert!(Framework::Django.detection_packages().contains(&"django"));
    assert!(Framework::ActixWeb.detection_packages().contains(&"actix-web"));
}

#[test]
fn test_determine_primary() {
    let frameworks = vec![Framework::React, Framework::NextJs];

    let primary = FrameworkInfo::determine_primary(&frameworks);
    assert_eq!(primary, Some(Framework::NextJs)); // Fullstack preferred
}

#[test]
fn test_language_from_extension() {
    assert_eq!(ProgrammingLanguage::from_extension("rs"), ProgrammingLanguage::Rust);
    assert_eq!(ProgrammingLanguage::from_extension("py"), ProgrammingLanguage::Python);
    assert_eq!(ProgrammingLanguage::from_extension("js"), ProgrammingLanguage::JavaScript);
    assert_eq!(ProgrammingLanguage::from_extension("ts"), ProgrammingLanguage::TypeScript);
    assert_eq!(ProgrammingLanguage::from_extension("go"), ProgrammingLanguage::Go);
    assert_eq!(ProgrammingLanguage::from_extension("unknown"), ProgrammingLanguage::Other);
}

#[test]
fn test_language_properties() {
    assert!(ProgrammingLanguage::Rust.is_compiled());
    assert!(!ProgrammingLanguage::Rust.is_interpreted());

    assert!(ProgrammingLanguage::Python.is_interpreted());
    assert!(!ProgrammingLanguage::Python.is_compiled());

    assert!(ProgrammingLanguage::HTML.is_markup());
    assert!(!ProgrammingLanguage::Rust.is_markup());
}

fn test_repo(name: &str) -> RepoInfo {
    RepoInfo {
        name: name.to_string(),
        full_name: format!("org/{}", name),
        local_path: "/tmp/test".to_string(),
        remote_url: None,
        default_branch: "main".to_string(),
        topics: vec!["angular".to_string(), "frontend".to_string()],
    }
}

#[test]
fn test_empty_filter_matches_all() {
    let filter = RepoFilter::new();
    let repo = test_repo("test-app");
    assert!(filter.matches(&repo, &vec![]).unwrap());
}

#[test]
fn test_topic_filter() {
    let filter = RepoFilter::new().topic("angular");
    let repo = test_repo("test-app");
    assert!(filter.matches(&repo, &vec![]).unwrap());

    let filter = RepoFilter::new().topic("react");
    assert!(!filter.matches(&repo, &vec![]).unwrap());
}

#[test]
fn test_exclude_topic() {
    let filter = RepoFilter::new().exclude_topic("deprecated");
    let repo = test_repo("test-app");
    assert!(filter.matches(&repo, &vec![]).unwrap());

    let filter = RepoFilter::new().exclude_topic("angular");
    assert!(!filter.matches(&repo, &vec![]).unwrap());
}

#[test]
fn test_name_pattern() {
    let filter = RepoFilter::new().name_matches("^test-");
    let repo = test_repo("test-app");
    assert!(filter.matches(&repo, &vec![]).unwrap());

    let filter = RepoFilter::new().name_matches("^prod-");
    assert!(!filter.matches(&repo, &vec![]).unwrap());
}

#[test]
fn test_custom_predicate() {
    let filter = RepoFilter::new().filter(|r: &RepoInfo| r.name.contains("app"));
    let repo = test_repo("test-app");
    assert!(filter.matches(&repo, &vec![]).unwrap());

    let filter = RepoFilter::new().filter(|r: &RepoInfo| r.name.contains("service"));
    assert!(!filter.matches(&repo, &vec![]).unwrap());
}

#[test]
fn invalid_name_pattern_is_a_regex_error() {
    let filter = RepoFilter::new().name_matches("(unclosed");
    let repo = test_repo("test-app");
    assert!(filter.matches(&repo, &vec![]).is_err());
}

#[test]
fn has_file_filter_uses_present_files() {
    let filter = RepoFilter::new().has_file("angular.json");
    let repo = test_repo("test-app");
    assert!(!filter.matches(&repo, &vec![]).unwrap());
    assert!(filter.matches(&repo, &vec!["angular.json".to_string()]).unwrap());
}

#[test]
fn version_range_and_compatible_constraints() {
    assert!(VersionConstraint::parse("~1.2").matches("1.2.9"));
    assert!(!VersionConstraint::parse("~1.2").matches("1.3.0"));
    assert!(VersionConstraint::parse("<=2.0").matches("1.9"));
    assert!(!VersionConstraint::parse("<=2.0").matches("2.1"));
}

#[test]
fn caret_and_compatible_bounds() {
    let caret = VersionConstraint::Caret("1.2.3".to_string());
    assert!(caret.matches("1.9.0"));
    assert!(!caret.matches("2.0.0"));
    assert!(!caret.matches("1.2.2"));
    let tilde = VersionConstraint::Compatible("1.2.3".to_string());
    assert!(tilde.matches("1.2.9"));
    assert!(!tilde.matches("1.3.0"));
    assert!(!tilde.matches("1.2.2"));
    assert!(VersionConstraint::Compatible("1".to_string()).matches("5.0"));
}

#[test]
fn known_languages_claim_extensions() {
    assert!(ProgrammingLanguage::Other.extensions().is_empty());
    for l in ProgrammingLanguage::all() {
        assert!(!l.extensions().is_empty());
    }
}

#[test]
fn every_extension_detects_its_own_language() {
    for l in ProgrammingLanguage::all() {
        for e in l.extensions() {
            assert_eq!(ProgrammingLanguage::from_extension(e), l);
            for other in ProgrammingLanguage::all() {
                if other != l {
                    assert!(!other.extensions().contains(&e));
                }
            }
        }
    }
}

#[test]
fn extensions_are_detected_ignoring_case() {
    assert_eq!(ProgrammingLanguage::from_extension("PY"), ProgrammingLanguage::Python);
    assert_eq!(ProgrammingLanguage::from_extension("Rs"), ProgrammingLanguage::Rust);
    assert_eq!(ProgrammingLanguage::from_extension("R"), ProgrammingLanguage::R);
    for l in ProgrammingLanguage::all() {
        for e in l.extensions() {
            assert_eq!(ProgrammingLanguage::from_extension(&e.to_uppercase()), l);
            for other in ProgrammingLanguage::all() {
                if other != l {
                    assert!(!other.extensions().iter().any(|x| x.eq_ignore_ascii_case(e)));
                }
            }
        }
    }
}

use refactor_dsl::codemod::executor::{summarize, RepoResult, RepoStatus};
use refactor_dsl::analyzer::change::{ApiType, ChangeKind, Severity};
use refactor_dsl::analyzer::generator::{change_to_transform, upgrade_report, ReportEntry, Transform};
use refactor_dsl::analyzer::detector::pair_renames;
use refactor_dsl::analyzer::extractor::passes_extension_filter;
use refactor_dsl::analyzer::signature::{ApiSignature, Parameter, SourceLocation};
use refactor_dsl::codemod::discovery::language::{primary_language, LanguageRequirements, ProgrammingLanguage};
use refactor_dsl::error::RefactorError;
use refactor_dsl::git::auth::{CredentialChoice, GitAuth};
use refactor_dsl::github::pr::PullRequestBuilder;
use refactor_dsl::github::repos::RepoPager;
use refactor_dsl::lsp::detect_language_id;
use refactor_dsl::lsp::installer::{archive_kind, binary_name, ArchiveKind};
use refactor_dsl::lsp::types::{try_apply_edits, Position, Range, TextEdit};
use refactor_dsl::text::{replace_str_exec, str_ends_with};
use refactor_dsl::codemod::upgrade::{apply_transform, TransformBuilder};

fn func(name: &str, file: &str, params: Vec<&str>) -> ApiSignature {
    let params = params.into_iter().map(Parameter::new).collect();
    ApiSignature::function(name, SourceLocation::new(file, 1, 1)).with_params(params)
}

fn refs(v: &[ApiSignature]) -> Vec<&ApiSignature> {
    v.iter().collect()
}

#[test]
fn rename_pairs_take_best_ranked_candidate() {
    let old = vec![func("getUserById", "lib.rs", vec!["id"])];
    let new = vec![func("fetchUserById", "lib.rs", vec!["id"])];
    assert_eq!(pair_renames(&refs(&old), &refs(&new), true, &vec![vec![0]]), vec![(0, 0)]);
}

#[test]
fn rename_pairs_skip_taken_candidates() {
    let old = vec![func("alpha", "a.rs", vec![]), func("alpine", "a.rs", vec![])];
    let new = vec![func("alpha2", "a.rs", vec![]), func("alpine2", "a.rs", vec![])];
    let ranked = vec![vec![0, 1], vec![0, 1]];
    assert_eq!(pair_renames(&refs(&old), &refs(&new), true, &ranked), vec![(0, 0), (1, 1)]);
}

#[test]
fn rename_pairs_respect_kind_and_file() {
    let loc = SourceLocation::new("a.rs", 1, 1);
    let old = vec![ApiSignature::type_def("UserData", ApiType::Struct, loc.clone()), func("run", "a.rs", vec![])];
    let new = vec![func("UserInfo", "a.rs", vec![]), func("run_all", "b.rs", vec![])];
    let ranked = vec![vec![0], vec![1]];
    assert!(pair_renames(&refs(&old), &refs(&new), false, &ranked).is_empty());
    assert_eq!(pair_renames(&refs(&old), &refs(&new), true, &ranked), vec![(1, 1)]);
}

#[test]
fn rename_pairs_empty_without_candidates() {
    let old = vec![func("foo", "a.rs", vec![])];
    let new: Vec<ApiSignature> = vec![];
    assert!(pair_renames(&refs(&old), &refs(&new), true, &vec![vec![]]).is_empty());
}

#[test]
fn extension_filter_ignores_case_and_needs_extension() {
    let exts = vec!["rs".to_string(), "ts".to_string()];
    assert!(passes_extension_filter("src/lib.RS", &exts));
    assert!(passes_extension_filter("a/b/c.ts", &exts));
    assert!(!passes_extension_filter("README", &exts));
    assert!(!passes_extension_filter("main.py", &exts));
    assert!(!passes_extension_filter("src.rs/Makefile", &exts));
}

#[test]
fn primary_language_has_most_lines() {
    let counts = vec![
        (ProgrammingLanguage::Python, 10),
        (ProgrammingLanguage::Rust, 30),
        (ProgrammingLanguage::Go, 30),
    ];
    assert_eq!(primary_language(&counts), Some((ProgrammingLanguage::Rust, 30)));
    assert_eq!(primary_language(&vec![(ProgrammingLanguage::Rust, 0)]), None);
    assert_eq!(primary_language(&vec![]), None);
}

#[test]
fn language_requirements_check_each_rule() {
    let present = vec![ProgrammingLanguage::Rust, ProgrammingLanguage::Python];
    let mut req = LanguageRequirements::new();
    assert!(req.accepts(&present, Some(ProgrammingLanguage::Rust)));
    req.required_primary = Some(ProgrammingLanguage::Rust);
    assert!(req.accepts(&present, Some(ProgrammingLanguage::Rust)));
    assert!(!req.accepts(&present, Some(ProgrammingLanguage::Python)));
    req.required_any = vec![ProgrammingLanguage::Go, ProgrammingLanguage::Python];
    assert!(req.accepts(&present, Some(ProgrammingLanguage::Rust)));
    req.required_all = vec![ProgrammingLanguage::Rust, ProgrammingLanguage::Go];
    assert!(!req.accepts(&present, Some(ProgrammingLanguage::Rust)));
    req.required_all = vec![ProgrammingLanguage::Python];
    req.excluded = vec![ProgrammingLanguage::Python];
    assert!(!req.accepts(&present, Some(ProgrammingLanguage::Rust)));
}

#[test]
fn language_ids_of_documents() {
    assert_eq!(detect_language_id("src/main.rs"), "rust");
    assert_eq!(detect_language_id("app/index.TSX"), "typescript");
    assert_eq!(detect_language_id("lib/util.hpp"), "cpp");
    assert_eq!(detect_language_id("notes.Txt"), "Txt");
    assert_eq!(detect_language_id("Makefile"), "plaintext");
}

#[test]
fn archives_are_told_by_their_ending() {
    assert_eq!(archive_kind("server.gz"), ArchiveKind::Gzip);
    assert_eq!(archive_kind("server.tar.gz"), ArchiveKind::TarGz);
    assert_eq!(archive_kind("server.tgz"), ArchiveKind::TarGz);
    assert_eq!(archive_kind("server.zip"), ArchiveKind::Zip);
    assert_eq!(archive_kind("server"), ArchiveKind::Plain);
}

#[test]
fn binary_names_fall_back_by_archive_kind() {
    assert_eq!(binary_name(ArchiveKind::Zip, Some("bin/ra"), "x.zip", Some("x")), "bin/ra");
    assert_eq!(binary_name(ArchiveKind::Gzip, None, "ra.gz", Some("ra")), "ra");
    assert_eq!(binary_name(ArchiveKind::Gzip, None, "", None), "server");
    assert_eq!(binary_name(ArchiveKind::TarGz, None, "x.tar.gz", Some("x.tar")), "server");
    assert_eq!(binary_name(ArchiveKind::Plain, None, "gopls", Some("gopls")), "gopls");
}

#[test]
fn ends_with_matches_suffixes() {
    assert!(str_ends_with("archive.tar.gz", ".gz"));
    assert!(str_ends_with("abc", ""));
    assert!(!str_ends_with("gz", ".gz"));
}

#[test]
fn edits_that_fit_apply_and_others_are_refused() {
    let edit = TextEdit::new(Range::new(Position::new(0, 3), Position::new(0, 11)), "new_name");
    assert_eq!(try_apply_edits("fn old_name() {}", &[edit]), Some("fn new_name() {}".to_string()));
    let backwards = TextEdit::new(Range::new(Position::new(0, 5), Position::new(0, 2)), "x");
    assert_eq!(try_apply_edits("abcdefg", &[backwards]), None);
}

#[test]
fn overlapping_edits_use_byte_offsets() {
    let accent = TextEdit::new(Range::new(Position::new(0, 1), Position::new(0, 2)), "é");
    let whole = TextEdit::new(Range::new(Position::new(0, 0), Position::new(0, 3)), "Q");
    assert_eq!(try_apply_edits("xyz", &[accent, whole]), Some("Qz".to_string()));
    let accent = TextEdit::new(Range::new(Position::new(0, 1), Position::new(0, 2)), "é");
    let split = TextEdit::new(Range::new(Position::new(0, 0), Position::new(0, 2)), "Q");
    assert_eq!(try_apply_edits("abc", &[accent, split]), None);
}

#[test]
fn pull_request_builder_checks_title_then_head() {
    let b = PullRequestBuilder::new("acme", "widgets");
    assert!(matches!(b.request(), Err(RefactorError::InvalidConfig(m)) if m == "Pull request title is required"));
    let b = b.title("Upgrade");
    assert!(matches!(b.request(), Err(RefactorError::InvalidConfig(m)) if m == "Pull request head branch is required"));
    let req = b.head("codemod/up").body("text").draft().request().unwrap();
    assert_eq!(req.title, "Upgrade");
    assert_eq!(req.head, "codemod/up");
    assert_eq!(req.base, "main");
    assert_eq!(req.body, "text");
    assert_eq!(req.draft, Some(true));
}

#[test]
fn literal_replacement_is_left_to_right_and_non_overlapping() {
    assert_eq!(replace_str_exec("aaa", "aa", "b"), "ba");
    assert_eq!(replace_str_exec("abc", "", "x"), "xaxbxcx");
    assert_eq!(replace_str_exec("", "", "x"), "x");
    assert_eq!(replace_str_exec("old_name(old_name)", "old_name", "new"), "new(new)");
}

#[test]
fn transforms_apply_in_order_and_report_bad_patterns() {
    let t = TransformBuilder::new().replace_literal("foo", "bar").replace_pattern(r"\d+", "N");
    assert_eq!(apply_transform("foo 123 foo 4", &t).unwrap(), "bar N bar N");
    let bad = TransformBuilder::new().replace_pattern("(", "x");
    assert!(matches!(apply_transform("abc", &bad), Err(RefactorError::Regex(_))));
    assert_eq!(apply_transform("unchanged", &TransformBuilder::new()).unwrap(), "unchanged");
}

#[test]
fn replacing_with_itself_or_an_absent_text_changes_nothing() {
    assert_eq!(replace_str_exec("hello world", "l", "l"), "hello world");
    assert_eq!(replace_str_exec("hello world", "xyz", "abc"), "hello world");
}

#[test]
fn listing_stops_at_an_empty_page() {
    let mut pager = RepoPager::new();
    assert_eq!(pager.next_page(), Some(1));
    pager.received(100);
    assert_eq!(pager.next_page(), Some(2));
    pager.received(0);
    assert_eq!(pager.next_page(), None);
}

#[test]
fn listing_asks_for_at_most_a_hundred_pages() {
    let mut pager = RepoPager::new();
    let mut asked = 0;
    while let Some(page) = pager.next_page() {
        asked += 1;
        assert_eq!(page, asked);
        pager.received(100);
    }
    assert_eq!(asked, 100);
}

#[test]
fn errors_are_shown_with_their_kind() {
    assert_eq!(RefactorError::InvalidConfig("x".to_string()).message(), "Invalid configuration: x");
    assert_eq!(RefactorError::NoFilesMatched.message(), "No files matched the specified criteria");
    assert_eq!(
        RefactorError::Parse { path: "a.rs".to_string(), message: "bad".to_string() }.message(),
        "Tree-sitter parse error for a.rs: bad"
    );
    assert_eq!(
        RefactorError::CloneError { repo: "r".to_string(), message: "m".to_string() }.message(),
        "Clone error for r: m"
    );
}

fn entry(kind: ChangeKind, severity: Severity, notes: Option<&str>) -> ReportEntry {
    ReportEntry {
        severity,
        kind,
        low_confidence: false,
        suffix: String::new(),
        migration_notes: notes.map(|n| n.to_string()),
    }
}

#[test]
fn upgrade_report_lists_automatic_and_reviewed_changes() {
    let entries = vec![
        entry(
            ChangeKind::FunctionRenamed { old_name: "old_fn".into(), new_name: "new_fn".into(), mod_path: None },
            Severity::Breaking,
            None,
        ),
        entry(
            ChangeKind::ApiRemoved { name: "removed_fn".into(), api_type: ApiType::Function },
            Severity::Breaking,
            Some("function 'removed_fn' was removed"),
        ),
    ];
    let report = upgrade_report("my-upgrade", "My library upgrade", &entries);
    assert_eq!(
        report,
        "# Upgrade Report: my-upgrade\n\nMy library upgrade\n\n## Summary\n\n- Total changes: 2\n\
         - Auto-transformable: 1\n- Breaking changes: 2\n- Requires manual review: 1\n\n\
         ## Automatic Transforms\n\n- [!!] Function Renamed: `old_fn` -> `new_fn`\n\n\
         ## Requires Manual Review\n\n- [!!] API Removed: function `removed_fn` removed\n\
         \x20 - function 'removed_fn' was removed\n\n"
    );
}

#[test]
fn upgrade_report_counts_uncertain_matches_for_review() {
    let mut e = entry(
        ChangeKind::TypeRenamed { old_name: "UserData".into(), new_name: "UserInfo".into() },
        Severity::Warning,
        None,
    );
    e.low_confidence = true;
    e.suffix = " (confidence: 50%)".to_string();
    let report = upgrade_report("u", "d", &vec![e]);
    assert!(report.contains("- Breaking changes: 0\n"));
    assert!(report.contains("- Requires manual review: 1\n"));
    assert!(report.contains("- [! ] Type Renamed: `UserData` -> `UserInfo` (confidence: 50%)\n"));
    let empty = upgrade_report("u", "d", &vec![]);
    assert_eq!(empty, "# Upgrade Report: u\n\nd\n\n## Summary\n\n- Total changes: 0\n- Auto-transformable: 0\n- Breaking changes: 0\n- Requires manual review: 0\n\n");
}

#[test]
fn test_function_rename_transform() {
    let kind = ChangeKind::FunctionRenamed {
        old_name: "getUserById".into(),
        new_name: "fetchUserById".into(),
        mod_path: None,
    };
    let transforms: Vec<Transform> = change_to_transform(&kind).into_iter().collect();
    assert_eq!(transforms.len(), 1);
    assert!(matches!(
        &transforms[0],
        Transform::FunctionRename { old_name, new_name }
        if old_name == "getUserById" && new_name == "fetchUserById"
    ));
}

#[test]
fn test_type_rename_transform() {
    let kind = ChangeKind::TypeRenamed { old_name: "UserData".into(), new_name: "UserInfo".into() };
    let transforms: Vec<Transform> = change_to_transform(&kind).into_iter().collect();
    assert_eq!(transforms.len(), 1);
    let (pattern, replacement) = transforms[0].to_pattern_replacement();
    assert!(pattern.contains("UserData"));
    assert_eq!(replacement, "UserInfo");
}

#[test]
fn test_non_transformable_changes() {
    let kind = ChangeKind::ApiRemoved { name: "deprecated_fn".into(), api_type: ApiType::Function };
    assert!(change_to_transform(&kind).is_none());
    let report = upgrade_report("test", "test upgrade", &vec![entry(kind, Severity::Breaking, None)]);
    assert!(report.contains("- Requires manual review: 1\n"));
}

#[test]
fn test_report_generation() {
    let entries = vec![
        entry(
            ChangeKind::FunctionRenamed { old_name: "old_fn".into(), new_name: "new_fn".into(), mod_path: None },
            Severity::Breaking,
            None,
        ),
        entry(ChangeKind::ApiRemoved { name: "removed_fn".into(), api_type: ApiType::Function }, Severity::Breaking, None),
    ];
    let report = upgrade_report("my-upgrade", "My library upgrade", &entries);
    assert!(report.contains("my-upgrade"));
    assert!(report.contains("old_fn"));
    assert!(report.contains("new_fn"));
    assert!(report.contains("removed_fn"));
    assert!(report.contains("Manual Review"));
}

#[test]
fn credentials_follow_the_configured_method() {
    let key = GitAuth::SshKey { private_key_path: "/k".to_string(), passphrase: None };
    assert_eq!(
        key.credential_for(None, true, true),
        CredentialChoice::SshKey { username: "git".to_string(), private_key_path: "/k".to_string(), passphrase: None }
    );
    assert_eq!(
        GitAuth::Token("t0k".to_string()).credential_for(Some("me"), true, false),
        CredentialChoice::UserPass { username: "t0k".to_string(), password: String::new() }
    );
    assert_eq!(GitAuth::CredentialHelper.credential_for(None, true, true), CredentialChoice::CredentialHelper);
    assert_eq!(
        GitAuth::CredentialHelper.credential_for(Some("me"), false, true),
        CredentialChoice::SshAgent { username: "me".to_string() }
    );
    assert_eq!(GitAuth::CredentialHelper.credential_for(None, false, false), CredentialChoice::Default);
    assert_eq!(GitAuth::NoAuth.credential_for(None, true, false), CredentialChoice::Default);
    assert_eq!(
        GitAuth::NoAuth.credential_for(None, false, true),
        CredentialChoice::SshAgent { username: "git".to_string() }
    );
}

#[test]
fn patterns_without_placeholders_expand_to_themselves() {
    assert_eq!(refactor_dsl::codemod::executor::expand_pattern("fixed-branch", "app", "2024-05-01"), "fixed-branch");
    assert_eq!(refactor_dsl::codemod::executor::expand_pattern("{repo}/{date}", "app", "2024-05-01"), "app/2024-05-01");
}

fn repo_result(status: RepoStatus, files: usize, pr: bool) -> RepoResult {
    RepoResult {
        name: "r".to_string(),
        full_name: "o/r".to_string(),
        path: "/tmp/r".to_string(),
        status,
        files_modified: files,
        branch_created: None,
        pushed: false,
        pr_url: if pr { Some("https://example.com/pr/1".to_string()) } else { None },
        errors: vec![],
    }
}

#[test]
fn run_summary_counts_each_repository_once() {
    let results = vec![
        repo_result(RepoStatus::Success, 3, true),
        repo_result(RepoStatus::Success, 2, false),
        repo_result(RepoStatus::NoChanges, 0, false),
        repo_result(RepoStatus::Skipped("filter".to_string()), 0, false),
        repo_result(RepoStatus::Failed("boom".to_string()), usize::MAX, false),
    ];
    let s = summarize(&results);
    assert_eq!(s.total_repos, 5);
    assert_eq!(s.modified_repos, 2);
    assert_eq!(s.skipped_repos, 2);
    assert_eq!(s.failed_repos, 1);
    assert_eq!(s.total_files_modified, 5);
    assert_eq!(s.prs_created, 1);
    assert_eq!(s.modified_repos + s.skipped_repos + s.failed_repos, s.total_repos);
}

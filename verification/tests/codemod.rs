use refactor_dsl::analyzer::config::TransformSpec;
use refactor_dsl::codemod::discovery::metrics::{is_source_extension, should_skip_dir};
use refactor_dsl::codemod::discovery::MatchMode;
use refactor_dsl::codemod::executor::RepoStatus;
use refactor_dsl::codemod::run::{RepoAction, RepoEvent, RepoPlan, RepoRun, RunPhase};
use refactor_dsl::codemod::RepoInfo;
use refactor_dsl::diff::{colorized_diff, DiffSummary};
use refactor_dsl::git::auth::GitAuth;
use refactor_dsl::lsp::config::{ancestor_dirs, LspServerConfig};

#[test]
fn test_transform_spec_rename_function() {
    let spec = TransformSpec::RenameFunction {
        old_name: "getData".to_string(),
        new_name: "fetchData".to_string(),
    };

    let (pattern, replacement) = spec.to_pattern_replacement();
    assert!(pattern.contains("getData"));
    assert!(replacement.contains("fetchData"));
}

#[test]
fn test_transform_spec_rename_type() {
    let spec = TransformSpec::RenameType {
        old_name: "UserData".to_string(),
        new_name: "User".to_string(),
    };

    let (pattern, replacement) = spec.to_pattern_replacement();
    assert!(pattern.contains("UserData"));
    assert_eq!(replacement, "User");
}

#[test]
fn test_transform_spec_replace_literal() {
    let spec = TransformSpec::ReplaceLiteral {
        from: "old.api".to_string(),
        to: "new.api".to_string(),
    };

    let (pattern, replacement) = spec.to_pattern_replacement();
    // Should escape the dot
    assert!(pattern.contains(r"\."));
    assert_eq!(replacement, "new.api");
}

#[test]
fn transform_spec_import_and_pattern() {
    let spec = TransformSpec::RenameImport { old_path: "a/b".to_string(), new_path: "c/d".to_string() };
    let (pattern, replacement) = spec.to_pattern_replacement();
    assert_eq!(pattern, r#"(['"])a/b\1"#);
    assert_eq!(replacement, "$1c/d$1");
    let spec = TransformSpec::RenameFunction { old_name: "f".to_string(), new_name: "g".to_string() };
    assert_eq!(spec.to_pattern_replacement(), (r"\bf\s*(\(|::<)".to_string(), "g$1".to_string()));
}

#[test]
fn test_is_source_extension() {
    assert!(is_source_extension("rs"));
    assert!(is_source_extension("py"));
    assert!(is_source_extension("js"));
    assert!(!is_source_extension("txt"));
    assert!(!is_source_extension("md"));
}

#[test]
fn test_should_skip() {
    assert!(should_skip_dir("node_modules"));
    assert!(should_skip_dir("target"));
    assert!(!should_skip_dir("src"));
    assert!(!should_skip_dir("lib"));
}

#[test]
fn source_extension_ignores_case() {
    assert!(is_source_extension("RS"));
    assert!(is_source_extension("Cpp"));
}

#[test]
fn match_modes_combine_verdicts() {
    assert!(MatchMode::All.combine(&vec![]));
    assert!(MatchMode::Any.combine(&vec![]));
    assert!(!MatchMode::All.combine(&vec![true, false]));
    assert!(MatchMode::Any.combine(&vec![false, true]));
    assert!(!MatchMode::Any.combine(&vec![false, false]));
    assert_eq!(MatchMode::default(), MatchMode::All);
    assert_eq!(MatchMode::Any.settles(true), Some(true));
    assert_eq!(MatchMode::All.settles(true), None);
}

#[test]
fn github_token_from_value() {
    assert!(matches!(GitAuth::github_token(Some("abc")), Ok(GitAuth::Token(t)) if t == "abc"));
    match GitAuth::github_token(None) {
        Err(e) => assert_eq!(format!("{:?}", e), "GitAuth { message: \"Environment variable GITHUB_TOKEN not set\" }"),
        Ok(_) => panic!("expected an error"),
    }
}

#[test]
fn project_root_is_the_nearest_marked_directory() {
    assert_eq!(ancestor_dirs("/a/b/c.rs"), vec!["/a/b", "/a", "/"]);
    let config = LspServerConfig::new("ra", "ra").root_markers(&["Cargo.toml"]);
    let existing = vec!["/a/Cargo.toml".to_string(), "/Cargo.toml".to_string()];
    assert_eq!(config.find_root("/a/b/c.rs", &existing), Some("/a".to_string()));
    assert_eq!(config.find_root("/x/y.rs", &vec![]), None);
    assert_eq!(config.find_root("/x/y.rs", &existing), Some("/".to_string()));
}

#[test]
fn diff_summary_text_and_colors() {
    let s = DiffSummary::from_diff("a\nb\n", "a\nc\n");
    assert_eq!(s.display(), "1 file(s) changed, 1 insertions(+), 1 deletions(-)");
    let d = colorized_diff("a\n", "b\n", "f.txt");
    assert!(d.starts_with("\x1b[36m--- a/f.txt\x1b[0m\n\x1b[36m+++ b/f.txt\x1b[0m\n"));
    assert!(d.contains("\x1b[31m-a\n\x1b[0m"));
    assert!(d.contains("\x1b[32m+b\n\x1b[0m"));
}

fn plan(push: bool, pr: bool) -> RepoPlan {
    RepoPlan {
        has_filter: true,
        branch_pattern: Some("upgrade-{repo}-{date}".to_string()),
        upgrade_count: 2,
        dry_run: false,
        commit_message: None,
        push_enabled: push,
        create_pr_enabled: pr,
        has_github_client: true,
        pr_title: Some("Upgrade {repo}".to_string()),
        pr_body: Some("Automated".to_string()),
        date: "2024-05-01".to_string(),
    }
}

fn repo() -> RepoInfo {
    RepoInfo {
        name: "app".to_string(),
        full_name: "org/app".to_string(),
        local_path: "/w/app".to_string(),
        remote_url: None,
        default_branch: "main".to_string(),
        topics: vec![],
    }
}

#[test]
fn full_run_with_push_and_pull_request() {
    let (mut run, a) = RepoRun::start(plan(true, true), &repo());
    assert!(matches!(a, RepoAction::CheckFilter));
    assert!(matches!(run.next(RepoEvent::FilterChecked(Ok(true))), RepoAction::OpenRepo));
    match run.next(RepoEvent::RepoOpened(Ok(()))) {
        RepoAction::CreateBranch { name } => assert_eq!(name, "upgrade-app-2024-05-01"),
        other => panic!("{:?}", other),
    }
    assert!(matches!(run.next(RepoEvent::BranchCreated(Ok(()))), RepoAction::ApplyUpgrades));
    let a = run.next(RepoEvent::UpgradesApplied {
        modified: vec!["x.rs".to_string(), "y.rs".to_string(), "x.rs".to_string()],
        failures: vec![("rxjs".to_string(), "boom".to_string())],
    });
    assert!(matches!(a, RepoAction::StageAll));
    assert_eq!(run.result.files_modified, 2);
    assert_eq!(run.result.errors, vec!["rxjs: boom".to_string()]);
    match run.next(RepoEvent::Staged(Ok(()))) {
        RepoAction::Commit { message } => assert_eq!(message, "chore: apply 2 upgrade(s)"),
        other => panic!("{:?}", other),
    }
    match run.next(RepoEvent::Committed(Ok(()))) {
        RepoAction::Push { remote, branch } => {
            assert_eq!(remote, "origin");
            assert_eq!(branch, "upgrade-app-2024-05-01");
        }
        other => panic!("{:?}", other),
    }
    match run.next(RepoEvent::Pushed(Ok(()))) {
        RepoAction::CreatePullRequest { owner, repo, title, body, head, base } => {
            assert_eq!(owner, "org");
            assert_eq!(repo, "app");
            assert_eq!(title, "Upgrade app");
            assert_eq!(body, "Automated");
            assert_eq!(head, "upgrade-app-2024-05-01");
            assert_eq!(base, "main");
        }
        other => panic!("{:?}", other),
    }
    let a = run.next(RepoEvent::PullRequestCreated(Ok("https://github.com/org/app/pull/1".to_string())));
    assert!(matches!(a, RepoAction::Finish));
    assert_eq!(run.phase, RunPhase::Finished);
    assert_eq!(run.result.status, RepoStatus::Success);
    assert!(run.result.pushed);
    assert_eq!(run.result.pr_url.as_deref(), Some("https://github.com/org/app/pull/1"));
}

#[test]
fn filter_miss_and_failures() {
    let (mut run, _) = RepoRun::start(plan(false, false), &repo());
    run.next(RepoEvent::FilterChecked(Ok(false)));
    assert_eq!(run.result.status, RepoStatus::Skipped("Did not match filter".to_string()));

    let (mut run, _) = RepoRun::start(plan(false, false), &repo());
    run.next(RepoEvent::FilterChecked(Ok(true)));
    run.next(RepoEvent::RepoOpened(Err("not a repo".to_string())));
    assert_eq!(run.result.status, RepoStatus::Failed("Failed to open git repo: not a repo".to_string()));
    assert!(!run.expects(&RepoEvent::Staged(Ok(()))));
}

#[test]
fn no_modified_files_means_no_changes() {
    let (mut run, _) = RepoRun::start(plan(true, true), &repo());
    run.next(RepoEvent::FilterChecked(Ok(true)));
    run.next(RepoEvent::RepoOpened(Ok(())));
    run.next(RepoEvent::BranchCreated(Ok(())));
    let a = run.next(RepoEvent::UpgradesApplied { modified: vec![], failures: vec![] });
    assert!(matches!(a, RepoAction::Finish));
    assert_eq!(run.result.status, RepoStatus::NoChanges);
    assert_eq!(run.result.branch_created.as_deref(), Some("upgrade-app-2024-05-01"));
}

#[test]
fn failed_push_is_recorded_and_the_run_succeeds() {
    let (mut run, _) = RepoRun::start(plan(true, true), &repo());
    run.next(RepoEvent::FilterChecked(Ok(true)));
    run.next(RepoEvent::RepoOpened(Ok(())));
    run.next(RepoEvent::BranchCreated(Ok(())));
    run.next(RepoEvent::UpgradesApplied { modified: vec!["a".to_string()], failures: vec![] });
    run.next(RepoEvent::Staged(Ok(())));
    run.next(RepoEvent::Committed(Ok(())));
    let a = run.next(RepoEvent::Pushed(Err("denied".to_string())));
    assert!(matches!(a, RepoAction::Finish));
    assert_eq!(run.result.status, RepoStatus::Success);
    assert_eq!(run.result.errors, vec!["Push failed: denied".to_string()]);
    assert!(run.result.pr_url.is_none());
}

#[test]
fn dry_run_stops_after_applying_upgrades() {
    let mut p = plan(true, true);
    p.dry_run = true;
    let (mut run, _) = RepoRun::start(p, &repo());
    run.next(RepoEvent::FilterChecked(Ok(true)));
    run.next(RepoEvent::RepoOpened(Ok(())));
    run.next(RepoEvent::BranchCreated(Ok(())));
    let a = run.next(RepoEvent::UpgradesApplied { modified: vec!["x.rs".to_string()], failures: vec![] });
    assert!(matches!(a, RepoAction::Finish));
    assert_eq!(run.result.status, RepoStatus::Success);
    assert_eq!(run.result.files_modified, 1);
    assert!(!run.result.pushed);
}

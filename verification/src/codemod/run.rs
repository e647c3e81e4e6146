//! The decisions of processing one repository: which git, GitHub or file
//! operation comes next, and what its outcome makes of the result. The
//! caller performs each action and reports what came of it.
use vstd::prelude::*;

use super::executor::{
    commit_message, commit_message_spec, expand_pattern, expand_pattern_spec, split_full_name,
    RepoResult, RepoStatus,
};
use super::RepoInfo;
use crate::codemod::discovery::snapshot::list_has;
use crate::text::{copy_str, push_str, split, views};

verus! {

/// What a codemod does with each repository, as far as its decisions go.
#[derive(Debug)]
pub struct RepoPlan {
    /// Whether a repository filter is configured.
    pub has_filter: bool,
    /// The branch to create, with `{repo}` and `{date}` in it.
    pub branch_pattern: Option<String>,
    /// How many upgrades are applied.
    pub upgrade_count: u64,
    /// Whether changes stay uncommitted.
    pub dry_run: bool,
    /// The commit message template.
    pub commit_message: Option<String>,
    /// Whether the branch is pushed.
    pub push_enabled: bool,
    /// Whether a pull request is opened.
    pub create_pr_enabled: bool,
    /// Whether the repository source can reach GitHub.
    pub has_github_client: bool,
    /// The pull request title template.
    pub pr_title: Option<String>,
    /// The pull request body template.
    pub pr_body: Option<String>,
    /// Today's date, `YYYY-MM-DD`.
    pub date: String,
}

/// Where the processing of a repository stands.
#[derive(Debug, Clone, Copy, PartialEq, Eq, Structural)]
pub enum RunPhase {
    Filtering,
    Opening,
    Branching,
    Applying,
    Staging,
    Committing,
    Pushing,
    RequestingPullRequest,
    Finished,
}

/// The operation the caller performs next.
#[derive(Debug)]
pub enum RepoAction {
    /// Check the repository against the filter.
    CheckFilter,
    /// Open the repository's git checkout.
    OpenRepo,
    /// Create and check out a branch.
    CreateBranch { name: String },
    /// Apply every upgrade to the checkout.
    ApplyUpgrades,
    /// Stage all changes.
    StageAll,
    /// Commit the staged changes.
    Commit { message: String },
    /// Push the branch to a remote, setting its upstream.
    Push { remote: String, branch: String },
    /// Open a pull request.
    CreatePullRequest { owner: String, repo: String, title: String, body: String, head: String, base: String },
    /// Nothing is left to do: the result is final.
    Finish,
}

/// What came of an action; an error is given by its text.
#[derive(Debug)]
pub enum RepoEvent {
    FilterChecked(Result<bool, String>),
    RepoOpened(Result<(), String>),
    BranchCreated(Result<(), String>),
    /// The files each upgrade modified, in any order and possibly repeated,
    /// and for each upgrade that failed its name and error.
    UpgradesApplied { modified: Vec<String>, failures: Vec<(String, String)> },
    Staged(Result<(), String>),
    Committed(Result<(), String>),
    Pushed(Result<(), String>),
    PullRequestCreated(Result<String, String>),
}

/// The processing of one repository.
#[derive(Debug)]
pub struct RepoRun {
    pub plan: RepoPlan,
    pub repo_name: String,
    pub full_name: String,
    pub default_branch: String,
    pub phase: RunPhase,
    pub result: RepoResult,
}

/// The event that answers the action of a phase.
pub open spec fn answers(phase: RunPhase, e: RepoEvent) -> bool {
    match phase {
        RunPhase::Filtering => e is FilterChecked,
        RunPhase::Opening => e is RepoOpened,
        RunPhase::Branching => e is BranchCreated,
        RunPhase::Applying => e is UpgradesApplied,
        RunPhase::Staging => e is Staged,
        RunPhase::Committing => e is Committed,
        RunPhase::Pushing => e is Pushed,
        RunPhase::RequestingPullRequest => e is PullRequestCreated,
        RunPhase::Finished => false,
    }
}

/// The view of an optional string.
pub open spec fn opt_str(s: Option<String>) -> Option<Seq<char>> {
    match s {
        Some(x) => Some(x@),
        None => None,
    }
}

/// A template with the repository name and date filled in.
pub open spec fn filled(run: RepoRun, template: Seq<char>) -> Seq<char> {
    expand_pattern_spec(template, run.repo_name@, run.plan.date@)
}

/// Two results that differ at most in their status.
pub open spec fn same_but_status(a: RepoResult, b: RepoResult) -> bool {
    &&& a.name == b.name
    &&& a.full_name == b.full_name
    &&& a.path == b.path
    &&& a.files_modified == b.files_modified
    &&& a.branch_created == b.branch_created
    &&& a.pushed == b.pushed
    &&& a.pr_url == b.pr_url
    &&& a.errors == b.errors
}

/// The run moved to a phase with its result and everything else unchanged.
pub open spec fn moved(old: RepoRun, new: RepoRun, phase: RunPhase) -> bool {
    &&& new.plan == old.plan
    &&& new.repo_name == old.repo_name
    &&& new.full_name == old.full_name
    &&& new.default_branch == old.default_branch
    &&& new.phase == phase
}

/// The run finished with a status whose text is `message`, failed or skipped.
pub open spec fn finished_failed(old: RepoRun, new: RepoRun, a: RepoAction, message: Seq<char>) -> bool {
    &&& moved(old, new, RunPhase::Finished)
    &&& same_but_status(new.result, old.result)
    &&& new.result.status matches RepoStatus::Failed(m) && m@ == message
    &&& a is Finish
}

/// The run finished with a status and the result otherwise as `r`.
pub open spec fn finished_as(old: RepoRun, new: RepoRun, a: RepoAction, r: RepoResult, status: RepoStatus) -> bool {
    &&& moved(old, new, RunPhase::Finished)
    &&& same_but_status(new.result, r)
    &&& new.result.status == status
    &&& a is Finish
}

/// The action a fresh run starts with: the filter check when there is a
/// filter, else opening the repository.
pub open spec fn first_phase(plan: RepoPlan) -> RunPhase {
    if plan.has_filter {
        RunPhase::Filtering
    } else {
        RunPhase::Opening
    }
}

/// A pull request is due: enabled, pushed (from a created branch), a GitHub
/// client, a title and a body, and a full name of exactly `owner/name`.
pub open spec fn pull_request_due(run: RepoRun, r: RepoResult) -> bool {
    &&& run.plan.create_pr_enabled
    &&& r.pushed
    &&& run.plan.has_github_client
    &&& run.plan.pr_title is Some
    &&& run.plan.pr_body is Some
    &&& r.branch_created is Some
    &&& split(run.full_name@, '/').len() == 2
}

/// What follows a finished push, or a commit with nothing to push, once the
/// result `r` holds: the pull request when one is due, else success.
pub open spec fn after_push(old: RepoRun, new: RepoRun, a: RepoAction, r: RepoResult) -> bool {
    if pull_request_due(old, r) {
        &&& moved(old, new, RunPhase::RequestingPullRequest)
        &&& new.result == r
        &&& a matches RepoAction::CreatePullRequest { owner, repo, title, body, head, base }
            && owner@ == split(old.full_name@, '/')[0] && repo@ == split(old.full_name@, '/')[1]
            && title@ == filled(old, old.plan.pr_title->0@) && body@ == filled(old, old.plan.pr_body->0@)
            && (r.branch_created matches Some(b) && head@ == b@) && base@ == old.default_branch@
    } else {
        finished_as(old, new, a, r, RepoStatus::Success)
    }
}

/// The number of distinct paths among the modified files.
pub open spec fn distinct_count(paths: Seq<String>) -> nat {
    views(paths).to_set().len()
}

/// How one event moves the run: failures of the filter, the checkout, the
/// branch, staging or committing finish it as failed with their message; a
/// filter that does not match skips it; upgrades that modify nothing finish
/// it without changes, and a dry run finishes as soon as the upgrades ran;
/// push and pull request failures are recorded as errors and the run still
/// succeeds.
pub open spec fn step_spec(old: RepoRun, e: RepoEvent, new: RepoRun, a: RepoAction) -> bool {
    match e {
        RepoEvent::FilterChecked(Ok(true)) => moved(old, new, RunPhase::Opening) && new.result == old.result
            && a is OpenRepo,
        RepoEvent::FilterChecked(Ok(false)) => {
            &&& moved(old, new, RunPhase::Finished)
            &&& same_but_status(new.result, old.result)
            &&& new.result.status matches RepoStatus::Skipped(m) && m@ == "Did not match filter"@
            &&& a is Finish
        },
        RepoEvent::FilterChecked(Err(m)) => finished_failed(old, new, a, "Filter error: "@ + m@),
        RepoEvent::RepoOpened(Ok(())) => match old.plan.branch_pattern {
            Some(p) => moved(old, new, RunPhase::Branching) && new.result == old.result
                && (a matches RepoAction::CreateBranch { name } && name@ == filled(old, p@)),
            None => moved(old, new, RunPhase::Applying) && new.result == old.result && a is ApplyUpgrades,
        },
        RepoEvent::RepoOpened(Err(m)) => finished_failed(old, new, a, "Failed to open git repo: "@ + m@),
        RepoEvent::BranchCreated(Ok(())) => {
            &&& moved(old, new, RunPhase::Applying)
            &&& new.result.branch_created matches Some(b) && old.plan.branch_pattern matches Some(p)
                && b@ == filled(old, p@)
            &&& new.result.status == old.result.status
            &&& new.result.name == old.result.name
            &&& new.result.full_name == old.result.full_name
            &&& new.result.path == old.result.path
            &&& new.result.files_modified == old.result.files_modified
            &&& new.result.pushed == old.result.pushed
            &&& new.result.pr_url == old.result.pr_url
            &&& new.result.errors == old.result.errors
            &&& a is ApplyUpgrades
        },
        RepoEvent::BranchCreated(Err(m)) => finished_failed(old, new, a, "Failed to create branch: "@ + m@),
        RepoEvent::UpgradesApplied { modified, failures } => {
            let count = distinct_count(modified@);
            &&& new.result.files_modified == count
            &&& views(new.result.errors@) == views(old.result.errors@) + failures@.map_values(
                |f: (String, String)| f.0@ + ": "@ + f.1@,
            )
            &&& new.result.name == old.result.name
            &&& new.result.full_name == old.result.full_name
            &&& new.result.path == old.result.path
            &&& new.result.branch_created == old.result.branch_created
            &&& new.result.pushed == old.result.pushed
            &&& new.result.pr_url == old.result.pr_url
            &&& if count == 0 {
                moved(old, new, RunPhase::Finished) && new.result.status == RepoStatus::NoChanges && a is Finish
            } else if old.plan.dry_run {
                moved(old, new, RunPhase::Finished) && new.result.status == RepoStatus::Success && a is Finish
            } else {
                moved(old, new, RunPhase::Staging) && new.result.status == old.result.status && a is StageAll
            }
        },
        RepoEvent::Staged(Ok(())) => moved(old, new, RunPhase::Committing) && new.result == old.result
            && (a matches RepoAction::Commit { message } && message@ == commit_message_spec(
            opt_str(old.plan.commit_message),
            old.repo_name@,
            old.plan.date@,
            old.plan.upgrade_count as nat,
        )),
        RepoEvent::Staged(Err(m)) => finished_failed(old, new, a, "Failed to stage changes: "@ + m@),
        RepoEvent::Committed(Ok(())) => if old.plan.push_enabled && old.result.branch_created is Some {
            moved(old, new, RunPhase::Pushing) && new.result == old.result && (a matches RepoAction::Push {
                remote,
                branch,
            } && remote@ == "origin"@ && (old.result.branch_created matches Some(b) && branch@ == b@))
        } else {
            after_push(old, new, a, old.result)
        },
        RepoEvent::Committed(Err(m)) => finished_failed(old, new, a, "Failed to commit: "@ + m@),
        RepoEvent::Pushed(Ok(())) => after_push(old, new, a, RepoResult { pushed: true, ..old.result }),
        RepoEvent::Pushed(Err(m)) => {
            &&& views(new.result.errors@) == views(old.result.errors@).push("Push failed: "@ + m@)
            &&& new.result.name == old.result.name
            &&& new.result.full_name == old.result.full_name
            &&& new.result.path == old.result.path
            &&& new.result.files_modified == old.result.files_modified
            &&& new.result.branch_created == old.result.branch_created
            &&& new.result.pushed == old.result.pushed
            &&& new.result.pr_url == old.result.pr_url
            &&& new.result.status == RepoStatus::Success
            &&& moved(old, new, RunPhase::Finished)
            &&& a is Finish
        },
        RepoEvent::PullRequestCreated(Ok(url)) => {
            &&& new.result.pr_url matches Some(u) && u@ == url@
            &&& new.result.name == old.result.name
            &&& new.result.full_name == old.result.full_name
            &&& new.result.path == old.result.path
            &&& new.result.files_modified == old.result.files_modified
            &&& new.result.branch_created == old.result.branch_created
            &&& new.result.pushed == old.result.pushed
            &&& new.result.errors == old.result.errors
            &&& new.result.status == RepoStatus::Success
            &&& moved(old, new, RunPhase::Finished)
            &&& a is Finish
        },
        RepoEvent::PullRequestCreated(Err(m)) => {
            &&& views(new.result.errors@) == views(old.result.errors@).push("PR creation failed: "@ + m@)
            &&& new.result.name == old.result.name
            &&& new.result.full_name == old.result.full_name
            &&& new.result.path == old.result.path
            &&& new.result.files_modified == old.result.files_modified
            &&& new.result.branch_created == old.result.branch_created
            &&& new.result.pushed == old.result.pushed
            &&& new.result.pr_url == old.result.pr_url
            &&& new.result.status == RepoStatus::Success
            &&& moved(old, new, RunPhase::Finished)
            &&& a is Finish
        },
    }
}

/// What a codemod's settings ask for that cannot be done: no upgrade, a
/// push without a branch, a pull request without a push; in that order.
pub open spec fn plan_problem(upgrades: nat, has_branch: bool, push: bool, pull_request: bool) -> Option<Seq<char>> {
    if upgrades == 0 {
        Some("No upgrades specified. Use .apply() to add upgrades."@)
    } else if push && !has_branch {
        Some("push_branch() requires on_branch() to be set."@)
    } else if pull_request && !push {
        Some("create_pr() requires push_branch() to be enabled."@)
    } else {
        None
    }
}

/// Check a codemod's settings before it runs.
pub fn check_plan(upgrades: usize, has_branch: bool, push: bool, pull_request: bool) -> (r: Result<(), crate::error::RefactorError>)
    ensures
        match plan_problem(upgrades as nat, has_branch, push, pull_request) {
            Some(m) => r matches Err(crate::error::RefactorError::InvalidConfig(e)) && e@ == m,
            None => r is Ok,
        },
{
    if upgrades == 0 {
        Err(crate::error::RefactorError::InvalidConfig(copy_str("No upgrades specified. Use .apply() to add upgrades.")))
    } else if push && !has_branch {
        Err(crate::error::RefactorError::InvalidConfig(copy_str("push_branch() requires on_branch() to be set.")))
    } else if pull_request && !push {
        Err(crate::error::RefactorError::InvalidConfig(copy_str("create_pr() requires push_branch() to be enabled.")))
    } else {
        Ok(())
    }
}

/// A failed status with a message made of a prefix and an error's text.
fn failed_with(prefix: &str, message: &str) -> (r: RepoStatus)
    ensures
        r matches RepoStatus::Failed(m) && m@ == prefix@ + message@,
{
    let mut m = copy_str(prefix);
    push_str(&mut m, message);
    RepoStatus::Failed(m)
}

/// The distinct paths among `paths`, each once.
fn distinct_paths(paths: &Vec<String>) -> (r: usize)
    ensures
        r == distinct_count(paths@),
{
    let mut seen: Vec<String> = Vec::new();
    let mut i: usize = 0;
    while i < paths.len()
        invariant
            0 <= i <= paths.len(),
            views(seen@).no_duplicates(),
            views(seen@).to_set() == views(paths@.take(i as int)).to_set(),
            seen@.len() <= i,
        decreases paths.len() - i,
    {
        let ghost before = views(seen@);
        assert(views(paths@.take(i + 1)) =~= views(paths@.take(i as int)).push(paths@[i as int]@));
        if !list_has(&seen, paths[i].as_str()) {
            seen.push(paths[i].clone());
            assert(views(seen@) =~= before.push(paths@[i as int]@));
            proof {
                before.lemma_push_to_set_commute(paths@[i as int]@);
            }
        } else {
            assert(before.to_set().contains(paths@[i as int]@));
            assert(before.to_set().insert(paths@[i as int]@) =~= before.to_set());
        }
        proof {
            views(paths@.take(i as int)).lemma_push_to_set_commute(paths@[i as int]@);
        }
        i = i + 1;
    }
    assert(paths@.take(paths.len() as int) =~= paths@);
    proof {
        views(seen@).unique_seq_to_set();
    }
    seen.len()
}

impl RepoRun {
    /// A run waits on a branch only when there is a branch pattern; a pull
    /// request is only recorded for a pushed branch, and only a created
    /// branch is pushed; a dry run never gets past applying the upgrades.
    pub open spec fn well_formed(&self) -> bool {
        &&& self.phase == RunPhase::Branching ==> self.plan.branch_pattern is Some
        &&& self.plan.dry_run ==> (self.phase is Filtering || self.phase is Opening || self.phase is Branching
            || self.phase is Applying || self.phase is Finished)
        &&& self.result.pr_url is Some ==> self.result.pushed
        &&& self.result.pushed ==> self.result.branch_created is Some
        &&& self.phase == RunPhase::RequestingPullRequest ==> self.result.pushed
        &&& self.phase == RunPhase::Pushing ==> self.result.branch_created is Some
    }

    /// Start processing a repository: a result with no changes yet, and the
    /// filter check first when there is a filter, else opening the checkout.
    pub fn start(plan: RepoPlan, repo: &RepoInfo) -> (r: (RepoRun, RepoAction))
        ensures
            r.0.plan == plan,
            r.0.repo_name@ == repo.name@,
            r.0.full_name@ == repo.full_name@,
            r.0.default_branch@ == repo.default_branch@,
            r.0.result.name@ == repo.name@,
            r.0.result.full_name@ == repo.full_name@,
            r.0.result.path@ == repo.local_path@,
            r.0.result.status == RepoStatus::NoChanges,
            r.0.result.files_modified == 0,
            r.0.result.branch_created is None,
            !r.0.result.pushed,
            r.0.result.pr_url is None,
            r.0.result.errors@.len() == 0,
            r.0.phase == first_phase(plan),
            r.0.well_formed(),
            if plan.has_filter {
                r.1 is CheckFilter
            } else {
                r.1 is OpenRepo
            },
    {
        let result = RepoResult {
            name: repo.name.clone(),
            full_name: repo.full_name.clone(),
            path: repo.local_path.clone(),
            status: RepoStatus::NoChanges,
            files_modified: 0,
            branch_created: None,
            pushed: false,
            pr_url: None,
            errors: Vec::new(),
        };
        let has_filter = plan.has_filter;
        let run = RepoRun {
            plan,
            repo_name: repo.name.clone(),
            full_name: repo.full_name.clone(),
            default_branch: repo.default_branch.clone(),
            phase: if has_filter {
                RunPhase::Filtering
            } else {
                RunPhase::Opening
            },
            result,
        };
        if has_filter {
            (run, RepoAction::CheckFilter)
        } else {
            (run, RepoAction::OpenRepo)
        }
    }

    /// Whether an event answers the action the run waits on.
    pub fn expects(&self, e: &RepoEvent) -> (r: bool)
        ensures
            r == answers(self.phase, *e),
    {
        match self.phase {
            RunPhase::Filtering => matches!(e, RepoEvent::FilterChecked(_)),
            RunPhase::Opening => matches!(e, RepoEvent::RepoOpened(_)),
            RunPhase::Branching => matches!(e, RepoEvent::BranchCreated(_)),
            RunPhase::Applying => matches!(e, RepoEvent::UpgradesApplied { .. }),
            RunPhase::Staging => matches!(e, RepoEvent::Staged(_)),
            RunPhase::Committing => matches!(e, RepoEvent::Committed(_)),
            RunPhase::Pushing => matches!(e, RepoEvent::Pushed(_)),
            RunPhase::RequestingPullRequest => matches!(e, RepoEvent::PullRequestCreated(_)),
            RunPhase::Finished => false,
        }
    }

    /// Finish with success, or ask for the pull request when one is due.
    fn after_push_exec(&mut self) -> (a: RepoAction)
        requires
            old(self).phase != RunPhase::Finished,
            !old(self).plan.dry_run,
            old(self).well_formed(),
        ensures
            after_push(*old(self), *final(self), a, old(self).result),
            final(self).well_formed(),
    {
        let due = self.plan.create_pr_enabled && self.result.pushed && self.plan.has_github_client;
        match (&self.plan.pr_title, &self.plan.pr_body, &self.result.branch_created) {
            (Some(t), Some(b), Some(head)) => {
                if due {
                    match split_full_name(self.full_name.as_str()) {
                        Some((owner, repo)) => {
                            let title = expand_pattern(t.as_str(), self.repo_name.as_str(), self.plan.date.as_str());
                            let body = expand_pattern(b.as_str(), self.repo_name.as_str(), self.plan.date.as_str());
                            let head = head.clone();
                            let base = self.default_branch.clone();
                            self.phase = RunPhase::RequestingPullRequest;
                            return RepoAction::CreatePullRequest { owner, repo, title, body, head, base };
                        },
                        None => {},
                    }
                }
            },
            _ => {},
        }
        self.result.status = RepoStatus::Success;
        self.phase = RunPhase::Finished;
        RepoAction::Finish
    }

    /// Take in the outcome of the filtering action.
    fn on_filter_checked(&mut self, outcome: Result<bool, String>) -> (a: RepoAction)
        requires
            old(self).well_formed(),
            old(self).phase == RunPhase::Filtering,
        ensures
            step_spec(*old(self), RepoEvent::FilterChecked(outcome), *final(self), a),
            final(self).well_formed(),
    {
        match outcome {
            Ok(true) => {
                self.phase = RunPhase::Opening;
                RepoAction::OpenRepo
            },
            Ok(false) => {
                self.result.status = RepoStatus::Skipped(copy_str("Did not match filter"));
                self.phase = RunPhase::Finished;
                RepoAction::Finish
            },
            Err(m) => {
                self.result.status = failed_with("Filter error: ", m.as_str());
                self.phase = RunPhase::Finished;
                RepoAction::Finish
            },
        }
    }

    /// Take in the outcome of the opening action.
    fn on_repo_opened(&mut self, outcome: Result<(), String>) -> (a: RepoAction)
        requires
            old(self).well_formed(),
            old(self).phase == RunPhase::Opening,
        ensures
            step_spec(*old(self), RepoEvent::RepoOpened(outcome), *final(self), a),
            final(self).well_formed(),
    {
        match outcome {
            Ok(()) => match &self.plan.branch_pattern {
                Some(p) => {
                    let name = expand_pattern(p.as_str(), self.repo_name.as_str(), self.plan.date.as_str());
                    self.phase = RunPhase::Branching;
                    RepoAction::CreateBranch { name }
                },
                None => {
                    self.phase = RunPhase::Applying;
                    RepoAction::ApplyUpgrades
                },
            },
            Err(m) => {
                self.result.status = failed_with("Failed to open git repo: ", m.as_str());
                self.phase = RunPhase::Finished;
                RepoAction::Finish
            },
        }
    }

    /// Take in the outcome of the branching action.
    fn on_branch_created(&mut self, outcome: Result<(), String>) -> (a: RepoAction)
        requires
            old(self).well_formed(),
            old(self).phase == RunPhase::Branching,
            old(self).plan.branch_pattern is Some,
        ensures
            step_spec(*old(self), RepoEvent::BranchCreated(outcome), *final(self), a),
            final(self).well_formed(),
    {
        match outcome {
            Ok(()) => {
                match &self.plan.branch_pattern {
                    Some(p) => {
                        let name = expand_pattern(p.as_str(), self.repo_name.as_str(), self.plan.date.as_str());
                        self.result.branch_created = Some(name);
                    },
                    None => {},
                }
                self.phase = RunPhase::Applying;
                RepoAction::ApplyUpgrades
            },
            Err(m) => {
                self.result.status = failed_with("Failed to create branch: ", m.as_str());
                self.phase = RunPhase::Finished;
                RepoAction::Finish
            },
        }
    }

    /// Take in what the upgrades did.
    fn on_upgrades_applied(&mut self, modified: Vec<String>, failures: Vec<(String, String)>) -> (a: RepoAction)
        requires
            old(self).well_formed(),
            old(self).phase == RunPhase::Applying,
        ensures
            step_spec(*old(self), RepoEvent::UpgradesApplied { modified, failures }, *final(self), a),
            final(self).well_formed(),
    {
                let ghost before = views(self.result.errors@);
                let mut k: usize = 0;
                while k < failures.len()
                    invariant
                        0 <= k <= failures.len(),
                        views(self.result.errors@) == before + failures@.take(k as int).map_values(
                            |f: (String, String)| f.0@ + ": "@ + f.1@,
                        ),
                        self.result.name == old(self).result.name,
                        self.result.full_name == old(self).result.full_name,
                        self.result.path == old(self).result.path,
                        self.result.branch_created == old(self).result.branch_created,
                        self.result.pushed == old(self).result.pushed,
                        self.result.pr_url == old(self).result.pr_url,
                        self.result.status == old(self).result.status,
                        self.result.files_modified == old(self).result.files_modified,
                        self.plan == old(self).plan,
                        self.phase == old(self).phase,
                        self.repo_name == old(self).repo_name,
                        self.full_name == old(self).full_name,
                        self.default_branch == old(self).default_branch,
                        before == views(old(self).result.errors@),
                    decreases failures.len() - k,
                {
                    let (name, message) = &failures[k];
                    let mut line = name.clone();
                    push_str(&mut line, ": ");
                    push_str(&mut line, message.as_str());
                    let ghost prev = views(self.result.errors@);
                    self.result.errors.push(line);
                    assert(views(self.result.errors@) =~= prev.push(line@));
                    assert(failures@.take(k + 1).map_values(|f: (String, String)| f.0@ + ": "@ + f.1@)
                        =~= failures@.take(k as int).map_values(|f: (String, String)| f.0@ + ": "@ + f.1@).push(
                        failures@[k as int].0@ + ": "@ + failures@[k as int].1@,
                    ));
                    k = k + 1;
                }
                assert(failures@.take(failures.len() as int) =~= failures@);
                let count = distinct_paths(&modified);
                self.result.files_modified = count;
                if count == 0 {
                    self.result.status = RepoStatus::NoChanges;
                    self.phase = RunPhase::Finished;
                    RepoAction::Finish
                } else if self.plan.dry_run {
                    self.result.status = RepoStatus::Success;
                    self.phase = RunPhase::Finished;
                    RepoAction::Finish
                } else {
                    self.phase = RunPhase::Staging;
                    RepoAction::StageAll
                }
            }

    /// Take in the outcome of the staging action.
    fn on_staged(&mut self, outcome: Result<(), String>) -> (a: RepoAction)
        requires
            old(self).well_formed(),
            old(self).phase == RunPhase::Staging,
        ensures
            step_spec(*old(self), RepoEvent::Staged(outcome), *final(self), a),
            final(self).well_formed(),
    {
        match outcome {
            Ok(()) => {
                let template: Option<&str> = match &self.plan.commit_message {
                    Some(t) => Some(t.as_str()),
                    None => None,
                };
                let message = commit_message(template, self.repo_name.as_str(), self.plan.date.as_str(), self.plan.upgrade_count);
                self.phase = RunPhase::Committing;
                RepoAction::Commit { message }
            },
            Err(m) => {
                self.result.status = failed_with("Failed to stage changes: ", m.as_str());
                self.phase = RunPhase::Finished;
                RepoAction::Finish
            },
        }
    }

    /// Take in the outcome of the committing action.
    fn on_committed(&mut self, outcome: Result<(), String>) -> (a: RepoAction)
        requires
            old(self).well_formed(),
            old(self).phase == RunPhase::Committing,
        ensures
            step_spec(*old(self), RepoEvent::Committed(outcome), *final(self), a),
            final(self).well_formed(),
    {
        match outcome {
            Ok(()) => {
                if self.plan.push_enabled {
                    match &self.result.branch_created {
                        Some(b) => {
                            let branch = b.clone();
                            self.phase = RunPhase::Pushing;
                            return RepoAction::Push { remote: copy_str("origin"), branch };
                        },
                        None => {},
                    }
                }
                self.after_push_exec()
            },
            Err(m) => {
                self.result.status = failed_with("Failed to commit: ", m.as_str());
                self.phase = RunPhase::Finished;
                RepoAction::Finish
            },
        }
    }

    /// Take in the outcome of the pushing action.
    fn on_pushed(&mut self, outcome: Result<(), String>) -> (a: RepoAction)
        requires
            old(self).well_formed(),
            old(self).phase == RunPhase::Pushing,
        ensures
            step_spec(*old(self), RepoEvent::Pushed(outcome), *final(self), a),
            final(self).well_formed(),
    {
        match outcome {
            Ok(()) => {
                self.result.pushed = true;
                self.after_push_exec()
            },
            Err(m) => {
                let mut line = copy_str("Push failed: ");
                push_str(&mut line, m.as_str());
                let ghost prev = views(self.result.errors@);
                self.result.errors.push(line);
                assert(views(self.result.errors@) =~= prev.push(line@));
                self.result.status = RepoStatus::Success;
                self.phase = RunPhase::Finished;
                RepoAction::Finish
            },
        }
    }

    /// Take in the outcome of the requestingpullrequest action.
    fn on_pull_request_created(&mut self, outcome: Result<String, String>) -> (a: RepoAction)
        requires
            old(self).well_formed(),
            old(self).phase == RunPhase::RequestingPullRequest,
        ensures
            step_spec(*old(self), RepoEvent::PullRequestCreated(outcome), *final(self), a),
            final(self).well_formed(),
    {
        match outcome {
            Ok(url) => {
                self.result.pr_url = Some(url);
                self.result.status = RepoStatus::Success;
                self.phase = RunPhase::Finished;
                RepoAction::Finish
            },
            Err(m) => {
                let mut line = copy_str("PR creation failed: ");
                push_str(&mut line, m.as_str());
                let ghost prev = views(self.result.errors@);
                self.result.errors.push(line);
                assert(views(self.result.errors@) =~= prev.push(line@));
                self.result.status = RepoStatus::Success;
                self.phase = RunPhase::Finished;
                RepoAction::Finish
            },
        }
    }

    /// Take in what came of the last action and decide the next one.
    pub fn next(&mut self, event: RepoEvent) -> (a: RepoAction)
        requires
            answers(old(self).phase, event),
            old(self).well_formed(),
        ensures
            step_spec(*old(self), event, *final(self), a),
            final(self).well_formed(),
    {
        match event {
            RepoEvent::FilterChecked(outcome) => self.on_filter_checked(outcome),
            RepoEvent::RepoOpened(outcome) => self.on_repo_opened(outcome),
            RepoEvent::BranchCreated(outcome) => self.on_branch_created(outcome),
            RepoEvent::UpgradesApplied { modified, failures } => self.on_upgrades_applied(modified, failures),
            RepoEvent::Staged(outcome) => self.on_staged(outcome),
            RepoEvent::Committed(outcome) => self.on_committed(outcome),
            RepoEvent::Pushed(outcome) => self.on_pushed(outcome),
            RepoEvent::PullRequestCreated(outcome) => self.on_pull_request_created(outcome),
        }
    }
}

/// Law: a dry run never stages, commits, pushes or opens a pull request:
/// whatever comes of an action, the next one is none of these.
pub proof fn law_dry_run_leaves_history_alone(old: RepoRun, e: RepoEvent, new: RepoRun, a: RepoAction)
    requires
        old.well_formed(),
        old.plan.dry_run,
        answers(old.phase, e),
        step_spec(old, e, new, a),
    ensures
        !(a is StageAll),
        !(a is Commit),
        !(a is Push),
        !(a is CreatePullRequest),
{
}

} // verus!

//! Results of running a codemod, and the decisions of the run that do not
//! touch the file system: patterns, dates and the summary.
use vstd::prelude::*;

use crate::text::{
    chars_of, copy_str, decimal, find, find_exec, law_replace_absent, occurs_at, push_str, replace_str, replace_str_exec, split, split_chars, string_of,
    sub_chars, u64_to_string, vec_views, zero_padded, zero_padded_string,
};

verus! {

/// Status of a repository after processing.
#[derive(Debug, Clone, PartialEq, Eq)]
pub enum RepoStatus {
    /// Successfully processed with changes.
    Success,
    /// Processed but no changes were needed.
    NoChanges,
    /// Skipped (didn't match filter or other criteria).
    Skipped(String),
    /// Failed to process.
    Failed(String),
}

/// Result for a single repository.
#[derive(Debug)]
pub struct RepoResult {
    pub name: String,
    pub full_name: String,
    pub path: String,
    pub status: RepoStatus,
    pub files_modified: usize,
    pub branch_created: Option<String>,
    pub pushed: bool,
    pub pr_url: Option<String>,
    pub errors: Vec<String>,
}

/// Summary of the codemod execution.
#[derive(Debug, Clone, Copy, PartialEq, Eq, Structural)]
pub struct CodemodSummary {
    pub total_repos: usize,
    pub modified_repos: usize,
    pub skipped_repos: usize,
    pub failed_repos: usize,
    pub total_files_modified: usize,
    pub prs_created: usize,
}

/// The summary after one more repository's result: a success counts as
/// modified with its files (and its pull request, if any), no changes and
/// skips count as skipped, failures as failed.
pub open spec fn summary_after(s: CodemodSummary, r: RepoResult) -> CodemodSummary {
    match r.status {
        RepoStatus::Success => CodemodSummary {
            modified_repos: (s.modified_repos + 1) as usize,
            total_files_modified: (s.total_files_modified + r.files_modified) as usize,
            prs_created: if r.pr_url is Some {
                (s.prs_created + 1) as usize
            } else {
                s.prs_created
            },
            ..s
        },
        RepoStatus::NoChanges => CodemodSummary { skipped_repos: (s.skipped_repos + 1) as usize, ..s },
        RepoStatus::Skipped(_) => CodemodSummary { skipped_repos: (s.skipped_repos + 1) as usize, ..s },
        RepoStatus::Failed(_) => CodemodSummary { failed_repos: (s.failed_repos + 1) as usize, ..s },
    }
}

/// Law: every recorded result counts once, as modified, skipped or failed.
pub proof fn law_result_counted_once(s: CodemodSummary, r: RepoResult)
    requires
        summary_has_room(s, r),
    ensures
        summary_after(s, r).modified_repos + summary_after(s, r).skipped_repos
            + summary_after(s, r).failed_repos == s.modified_repos + s.skipped_repos + s.failed_repos + 1,
        summary_after(s, r).total_repos == s.total_repos,
{
}

/// The counts of a summary that a result adds to can take it.
pub open spec fn summary_has_room(s: CodemodSummary, r: RepoResult) -> bool {
    &&& r.status is Success ==> s.modified_repos < usize::MAX && s.total_files_modified + r.files_modified
        <= usize::MAX && (r.pr_url is Some ==> s.prs_created < usize::MAX)
    &&& (r.status is NoChanges || r.status is Skipped) ==> s.skipped_repos < usize::MAX
    &&& r.status is Failed ==> s.failed_repos < usize::MAX
}

impl CodemodSummary {
    /// A summary of no repositories.
    pub fn new() -> (r: Self)
        ensures
            r == (CodemodSummary {
                total_repos: 0,
                modified_repos: 0,
                skipped_repos: 0,
                failed_repos: 0,
                total_files_modified: 0,
                prs_created: 0,
            }),
    {
        CodemodSummary {
            total_repos: 0,
            modified_repos: 0,
            skipped_repos: 0,
            failed_repos: 0,
            total_files_modified: 0,
            prs_created: 0,
        }
    }

    /// Count one repository's result.
    pub fn record(&mut self, result: &RepoResult)
        requires
            summary_has_room(*old(self), *result),
        ensures
            *final(self) == summary_after(*old(self), *result),
    {
        match &result.status {
            RepoStatus::Success => {
                self.modified_repos = self.modified_repos + 1;
                self.total_files_modified = self.total_files_modified + result.files_modified;
                if result.pr_url.is_some() {
                    self.prs_created = self.prs_created + 1;
                }
            },
            RepoStatus::NoChanges => {
                self.skipped_repos = self.skipped_repos + 1;
            },
            RepoStatus::Skipped(_) => {
                self.skipped_repos = self.skipped_repos + 1;
            },
            RepoStatus::Failed(_) => {
                self.failed_repos = self.failed_repos + 1;
            },
        }
    }
}

/// The repositories among `rs` that were modified.
pub open spec fn successes(rs: Seq<RepoResult>) -> nat
    decreases rs.len(),
{
    if rs.len() == 0 {
        0
    } else {
        successes(rs.drop_last()) + if rs.last().status is Success {
            1nat
        } else {
            0nat
        }
    }
}

/// The repositories among `rs` that needed no change or were skipped.
pub open spec fn unchanged_or_skipped(rs: Seq<RepoResult>) -> nat
    decreases rs.len(),
{
    if rs.len() == 0 {
        0
    } else {
        unchanged_or_skipped(rs.drop_last()) + if rs.last().status is NoChanges || rs.last().status is Skipped {
            1nat
        } else {
            0nat
        }
    }
}

/// The repositories among `rs` that failed.
pub open spec fn failures(rs: Seq<RepoResult>) -> nat
    decreases rs.len(),
{
    if rs.len() == 0 {
        0
    } else {
        failures(rs.drop_last()) + if rs.last().status is Failed {
            1nat
        } else {
            0nat
        }
    }
}

/// The files modified in the modified repositories among `rs`.
pub open spec fn files_of_successes(rs: Seq<RepoResult>) -> nat
    decreases rs.len(),
{
    if rs.len() == 0 {
        0
    } else {
        files_of_successes(rs.drop_last()) + if rs.last().status is Success {
            rs.last().files_modified as nat
        } else {
            0nat
        }
    }
}

/// The modified repositories among `rs` that got a pull request.
pub open spec fn prs_of_successes(rs: Seq<RepoResult>) -> nat
    decreases rs.len(),
{
    if rs.len() == 0 {
        0
    } else {
        prs_of_successes(rs.drop_last()) + if rs.last().status is Success && rs.last().pr_url is Some {
            1nat
        } else {
            0nat
        }
    }
}

/// Law: a run counts each repository once, as modified, skipped or failed,
/// so the three counts add up to the repositories; and it creates no more
/// pull requests than it modified repositories.
pub proof fn law_run_counts_each_repo_once(rs: Seq<RepoResult>)
    ensures
        successes(rs) + unchanged_or_skipped(rs) + failures(rs) == rs.len(),
        prs_of_successes(rs) <= successes(rs),
    decreases rs.len(),
{
    if rs.len() > 0 {
        law_run_counts_each_repo_once(rs.drop_last());
    }
}

/// Counting the files of a prefix never gives more than counting them all.
proof fn lemma_files_prefix(rs: Seq<RepoResult>, i: int)
    requires
        0 <= i <= rs.len(),
    ensures
        files_of_successes(rs.take(i)) <= files_of_successes(rs),
    decreases rs.len() - i,
{
    if i < rs.len() {
        lemma_files_prefix(rs, i + 1);
        assert(rs.take(i + 1).drop_last() =~= rs.take(i));
    } else {
        assert(rs.take(i) =~= rs);
    }
}

/// The summary of a run over the repositories' results, in order: all of
/// them in the total, and each counted by its status.
pub fn summarize(results: &Vec<RepoResult>) -> (r: CodemodSummary)
    requires
        files_of_successes(results@) <= usize::MAX,
    ensures
        r.total_repos == results@.len(),
        r.modified_repos == successes(results@),
        r.skipped_repos == unchanged_or_skipped(results@),
        r.failed_repos == failures(results@),
        r.total_files_modified == files_of_successes(results@),
        r.prs_created == prs_of_successes(results@),
{
    let mut summary = CodemodSummary::new();
    summary.total_repos = results.len();
    let mut i: usize = 0;
    assert(results@.take(0) =~= Seq::<RepoResult>::empty());
    while i < results.len()
        invariant
            0 <= i <= results@.len(),
            files_of_successes(results@) <= usize::MAX,
            summary.total_repos == results@.len(),
            summary.modified_repos == successes(results@.take(i as int)),
            summary.skipped_repos == unchanged_or_skipped(results@.take(i as int)),
            summary.failed_repos == failures(results@.take(i as int)),
            summary.total_files_modified == files_of_successes(results@.take(i as int)),
            summary.prs_created == prs_of_successes(results@.take(i as int)),
        decreases results.len() - i,
    {
        proof {
            law_run_counts_each_repo_once(results@.take(i as int));
            lemma_files_prefix(results@, i + 1);
            assert(results@.take(i + 1).drop_last() =~= results@.take(i as int));
            assert(results@.take(i + 1).last() == results@[i as int]);
        }
        summary.record(&results[i]);
        i = i + 1;
    }
    assert(results@.take(results@.len() as int) =~= results@);
    summary
}

/// Result of executing a codemod across repositories.
#[derive(Debug)]
pub struct CodemodResult {
    pub repo_results: Vec<RepoResult>,
    pub summary: CodemodSummary,
}

// ---------------------------------------------------------------------------
// Patterns
// ---------------------------------------------------------------------------
/// A branch, commit or pull request pattern with `{repo}` replaced by the
/// repository name and then `{date}` by the date.
pub open spec fn expand_pattern_spec(pattern: Seq<char>, repo_name: Seq<char>, date: Seq<char>) -> Seq<char> {
    replace_str(replace_str(pattern, "{repo}"@, repo_name), "{date}"@, date)
}

/// Expand `{repo}` and `{date}` in a pattern.
pub fn expand_pattern(pattern: &str, repo_name: &str, date: &str) -> (r: String)
    ensures
        r@ == expand_pattern_spec(pattern@, repo_name@, date@),
{
    proof {
        reveal_strlit("{repo}");
        reveal_strlit("{date}");
    }
    let with_repo = replace_str_exec(pattern, "{repo}", repo_name);
    replace_str_exec(with_repo.as_str(), "{date}", date)
}

/// Law: a pattern without `{repo}` and `{date}` expands to itself.
pub proof fn law_plain_pattern_unchanged(pattern: Seq<char>, repo_name: Seq<char>, date: Seq<char>)
    requires
        forall|j: int| !#[trigger] occurs_at(pattern, "{repo}"@, j),
        forall|j: int| !#[trigger] occurs_at(pattern, "{date}"@, j),
    ensures
        expand_pattern_spec(pattern, repo_name, date) == pattern,
{
    reveal_strlit("{repo}");
    reveal_strlit("{date}");
    law_replace_absent(pattern, "{repo}"@, repo_name);
    law_replace_absent(pattern, "{date}"@, date);
}

/// The commit message: the expanded template, or one that counts the
/// upgrades.
pub open spec fn commit_message_spec(template: Option<Seq<char>>, repo_name: Seq<char>, date: Seq<char>, upgrades: nat) -> Seq<char> {
    match template {
        Some(t) => expand_pattern_spec(t, repo_name, date),
        None => "chore: apply "@ + decimal(upgrades) + " upgrade(s)"@,
    }
}

/// The commit message for a repository.
pub fn commit_message(template: Option<&str>, repo_name: &str, date: &str, upgrades: u64) -> (r: String)
    ensures
        r@ == commit_message_spec(
            match template {
                Some(t) => Some(t@),
                None => None,
            },
            repo_name@,
            date@,
            upgrades as nat,
        ),
{
    match template {
        Some(t) => expand_pattern(t, repo_name, date),
        None => {
            let mut m = copy_str("chore: apply ");
            push_str(&mut m, u64_to_string(upgrades).as_str());
            push_str(&mut m, " upgrade(s)");
            m
        },
    }
}

/// The owner and name in a full repository name `owner/name`; none unless
/// it has exactly one `/`.
pub fn split_full_name(full_name: &str) -> (r: Option<(String, String)>)
    ensures
        ({
            let parts = split(full_name@, '/');
            match r {
                Some((o, n)) => parts.len() == 2 && o@ == parts[0] && n@ == parts[1],
                None => parts.len() != 2,
            }
        }),
{
    let parts = split_chars(&chars_of(full_name), '/');
    assert(vec_views(parts@).len() == parts@.len());
    if parts.len() == 2 {
        assert(vec_views(parts@)[0] == parts@[0]@);
        assert(vec_views(parts@)[1] == parts@[1]@);
        Some((string_of(&parts[0]), string_of(&parts[1])))
    } else {
        None
    }
}

// ---------------------------------------------------------------------------
// Dates
// ---------------------------------------------------------------------------
/// A Gregorian leap year.
pub open spec fn is_leap(y: int) -> bool {
    (y % 4 == 0 && y % 100 != 0) || y % 400 == 0
}

/// The number of days of a year.
pub open spec fn year_len(y: int) -> int {
    if is_leap(y) {
        366
    } else {
        365
    }
}

/// The number of days of a month (1 to 12) in a year.
pub open spec fn month_len(leap: bool, m: int) -> int {
    if m == 2 {
        if leap {
            29
        } else {
            28
        }
    } else if m == 4 || m == 6 || m == 9 || m == 11 {
        30
    } else {
        31
    }
}

/// The year that `days` days after the start of year `y` fall in, and the
/// day of that year (from 0).
pub open spec fn year_of(y: int, days: int) -> (int, int)
    decreases days,
{
    if days < 0 || days < year_len(y) {
        (y, days)
    } else {
        year_of(y + 1, days - year_len(y))
    }
}

/// The month (from `m`) and day of the month (from 0) that day `d` of a
/// year falls on, taking at most the twelve months.
pub open spec fn month_of(leap: bool, m: int, d: int) -> (int, int)
    decreases 13 - m,
{
    if m > 12 || d < month_len(leap, m) {
        (m, d)
    } else {
        month_of(leap, m + 1, d - month_len(leap, m))
    }
}

/// The calendar date (year, month, day) of a day count since 1970-01-01.
pub open spec fn civil_date(days: int) -> (int, int, int) {
    let (y, rest) = year_of(1970, days);
    let (m, d) = month_of(is_leap(y), 1, rest);
    (y, m, d + 1)
}

/// A date as `YYYY-MM-DD`, each part zero-padded.
pub open spec fn date_text(y: nat, m: nat, d: nat) -> Seq<char> {
    zero_padded(y, 4) + "-"@ + zero_padded(m, 2) + "-"@ + zero_padded(d, 2)
}

/// Whether a year is a leap year.
pub fn is_leap_year(year: u64) -> (r: bool)
    ensures
        r == is_leap(year as int),
{
    (year % 4 == 0 && year % 100 != 0) || year % 400 == 0
}

/// The number of days of a month in a year.
fn month_len_exec(leap: bool, m: u64) -> (r: u64)
    ensures
        r == month_len(leap, m as int),
{
    if m == 2 {
        if leap {
            29
        } else {
            28
        }
    } else if m == 4 || m == 6 || m == 9 || m == 11 {
        30
    } else {
        31
    }
}

/// A year's day never runs past the year.
proof fn lemma_year_of_bounds(y: int, days: int)
    requires
        days >= 0,
        y >= 1970,
    ensures
        year_of(y, days).0 >= y,
        year_of(y, days).0 <= y + days,
        0 <= year_of(y, days).1 < year_len(year_of(y, days).0),
    decreases days,
{
    if days >= year_len(y) {
        lemma_year_of_bounds(y + 1, days - year_len(y));
    }
}

/// Law: the month is between 1 and 12 and the day fits in the month.
pub proof fn law_month_of_valid(leap: bool, m: int, d: int)
    requires
        1 <= m <= 12,
        0 <= d,
        d < (if leap {
            366int
        } else {
            365int
        }) - days_before_month(leap, m),
    ensures
        m <= month_of(leap, m, d).0 <= 12,
        0 <= month_of(leap, m, d).1 < month_len(leap, month_of(leap, m, d).0),
    decreases 13 - m,
{
    reveal_with_fuel(days_before_month, 13);
    if m < 12 && d >= month_len(leap, m) {
        law_month_of_valid(leap, m + 1, d - month_len(leap, m));
    }
}

/// The days of the months before month `m`.
pub open spec fn days_before_month(leap: bool, m: int) -> int
    decreases m,
{
    if m <= 1 {
        0
    } else {
        days_before_month(leap, m - 1) + month_len(leap, m - 1)
    }
}

/// Law: every day count gives a valid calendar date.
pub proof fn law_civil_date_valid(days: int)
    requires
        days >= 0,
    ensures
        1 <= civil_date(days).1 <= 12,
        1 <= civil_date(days).2 <= month_len(is_leap(civil_date(days).0), civil_date(days).1),
        civil_date(days).0 >= 1970,
{
    lemma_year_of_bounds(1970, days);
    let (y, rest) = year_of(1970, days);
    assert(days_before_month(is_leap(y), 1) == 0);
    law_month_of_valid(is_leap(y), 1, rest);
}

/// The calendar date of a day count since 1970-01-01.
pub fn civil_from_days(days: u64) -> (r: (u64, u64, u64))
    ensures
        r.0 as int == civil_date(days as int).0,
        r.1 as int == civil_date(days as int).1,
        r.2 as int == civil_date(days as int).2,
{
    let mut year: u64 = 1970;
    let mut remaining = days;
    loop
        invariant
            1970 <= year,
            remaining <= days,
            (year - 1970) * 365 + remaining <= days,
            year_of(1970, days as int) == year_of(year as int, remaining as int),
        ensures
            1970 <= year,
            year_of(1970, days as int) == (year as int, remaining as int),
        decreases remaining,
    {
        let len: u64 = if is_leap_year(year) {
            366
        } else {
            365
        };
        if remaining < len {
            break;
        }
        remaining = remaining - len;
        year = year + 1;
    }
    let ghost rest = remaining as int;
    proof {
        lemma_year_of_bounds(1970, days as int);
    }
    let leap = is_leap_year(year);
    let mut month: u64 = 1;
    while month <= 12
        invariant
            1 <= month <= 13,
            remaining <= rest,
            leap == is_leap(year as int),
            month_of(leap, 1, rest) == month_of(leap, month as int, remaining as int),
        ensures
            remaining <= rest,
            month_of(leap, 1, rest) == (month as int, remaining as int),
        decreases 13 - month,
    {
        let len = month_len_exec(leap, month);
        if remaining < len {
            break;
        }
        remaining = remaining - len;
        month = month + 1;
    }
    (year, month, remaining + 1)
}

/// The date of a time in seconds since 1970-01-01 00:00 UTC, as `YYYY-MM-DD`.
pub fn date_from_unix_secs(secs: u64) -> (r: String)
    ensures
        ({
            let (y, m, d) = civil_date((secs / 86400) as int);
            r@ == date_text(y as nat, m as nat, d as nat)
        }),
{
    let (y, m, d) = civil_from_days(secs / 86400);
    let mut s = zero_padded_string(y, 4);
    push_str(&mut s, "-");
    push_str(&mut s, zero_padded_string(m, 2).as_str());
    push_str(&mut s, "-");
    push_str(&mut s, zero_padded_string(d, 2).as_str());
    s
}

} // verus!

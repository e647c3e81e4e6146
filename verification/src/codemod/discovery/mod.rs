//! Discovery of dependencies, frameworks and languages in a repository.
pub mod dependency;
pub mod framework;
pub mod language;
pub mod manifest;
pub mod snapshot;
pub mod version;
pub mod metrics;

use vstd::prelude::*;

verus! {

/// How the verdicts of several filters combine.
#[derive(Debug, Clone, Copy, PartialEq, Eq, Structural)]
pub enum MatchMode {
    /// All filters must match (AND).
    All,
    /// Any filter must match (OR).
    Any,
}

impl Default for MatchMode {
    fn default() -> (r: Self)
        ensures
            r == MatchMode::All,
    {
        MatchMode::All
    }
}

/// The combined verdict of filters: all of them for `All`; for `Any`, one of
/// them, or no filter at all.
pub open spec fn combined(mode: MatchMode, verdicts: Seq<bool>) -> bool {
    match mode {
        MatchMode::All => forall|i: int| 0 <= i < verdicts.len() ==> #[trigger] verdicts[i],
        MatchMode::Any => verdicts.len() == 0 || exists|i: int| 0 <= i < verdicts.len() && #[trigger] verdicts[i],
    }
}

/// The outcome one filter's verdict settles, checking filters in turn.
pub open spec fn settled_by(mode: MatchMode, verdict: bool) -> Option<bool> {
    match mode {
        MatchMode::All => if verdict {
            None
        } else {
            Some(false)
        },
        MatchMode::Any => if verdict {
            Some(true)
        } else {
            None
        },
    }
}

impl MatchMode {
    /// The outcome one filter's verdict settles, checking filters in turn: a
    /// failing filter settles `All`, a passing one settles `Any`.
    pub fn settles(&self, verdict: bool) -> (r: Option<bool>)
        ensures
            r == settled_by(*self, verdict),
    {
        match self {
            MatchMode::All => if verdict {
                None
            } else {
                Some(false)
            },
            MatchMode::Any => if verdict {
                Some(true)
            } else {
                None
            },
        }
    }

    /// The outcome when no verdict settled it: `All` holds; `Any` holds only
    /// when there were no filters.
    pub fn unsettled(&self, filter_count: usize) -> (r: bool)
        ensures
            r == match *self {
                MatchMode::All => true,
                MatchMode::Any => filter_count == 0,
            },
    {
        match self {
            MatchMode::All => true,
            MatchMode::Any => filter_count == 0,
        }
    }

    /// Check the verdicts in turn, stopping at the first that settles the
    /// outcome.
    pub fn combine(&self, verdicts: &Vec<bool>) -> (r: bool)
        ensures
            r == combined(*self, verdicts@),
    {
        let mut i: usize = 0;
        while i < verdicts.len()
            invariant
                0 <= i <= verdicts.len(),
                forall|j: int| 0 <= j < i ==> settled_by(*self, #[trigger] verdicts@[j]) is None,
            decreases verdicts.len() - i,
        {
            match self.settles(verdicts[i]) {
                Some(outcome) => {
                    return outcome;
                },
                None => {},
            }
            i = i + 1;
        }
        self.unsettled(verdicts.len())
    }
}

/// Law: the first verdict that settles the outcome, when filters are checked
/// in turn, is the combined verdict of them all, whatever follows it.
pub proof fn law_first_settling_verdict(mode: MatchMode, verdicts: Seq<bool>, k: int)
    requires
        0 <= k < verdicts.len(),
        forall|j: int| 0 <= j < k ==> settled_by(mode, #[trigger] verdicts[j]) is None,
        settled_by(mode, verdicts[k]) is Some,
    ensures
        settled_by(mode, verdicts[k]) == Some(combined(mode, verdicts)),
{
}

/// Law: when no verdict settles the outcome, the combined verdict is that of
/// an unsettled check.
pub proof fn law_unsettled_verdicts(mode: MatchMode, verdicts: Seq<bool>)
    requires
        forall|j: int| 0 <= j < verdicts.len() ==> settled_by(mode, #[trigger] verdicts[j]) is None,
    ensures
        combined(mode, verdicts) == match mode {
            MatchMode::All => true,
            MatchMode::Any => verdicts.len() == 0,
        },
{
    if mode == MatchMode::Any && verdicts.len() > 0 {
        assert(settled_by(mode, verdicts[0]) is None);
    }
}

} // verus!

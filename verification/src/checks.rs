//! Classification of code-review check runs: which failed, which still wait
//! on someone, and the overall state the report shows for the pull request.

use vstd::prelude::*;

use crate::strutil::str_eq;
use crate::ticket::CheckRunDetails;

verus! {

/// One check run as the code-review service reports it: its conclusion is
/// absent while the run has not finished.
#[derive(Clone, Debug)]
pub struct GithubCheckRun {
    pub name: String,
    pub conclusion: Option<String>,
    pub details_url: String,
}

/// The set of check runs reported for one commit.
#[derive(Clone, Debug)]
pub struct GithubCheckRuns {
    pub check_runs: Vec<GithubCheckRun>,
}

/// A run that concluded in failure.
pub open spec fn run_failed(run: GithubCheckRun) -> bool {
    run.conclusion matches Some(c) && c@ == "failure"@
}

/// A run that waits on someone: explicitly so, or not yet concluded.
pub open spec fn run_needs_action(run: GithubCheckRun) -> bool {
    !run_failed(run) && (run.conclusion is None || (run.conclusion matches Some(c) && c@
        == "action_required"@))
}

/// The failing runs of `s`, in order.
pub open spec fn failing_runs(s: Seq<GithubCheckRun>) -> Seq<GithubCheckRun>
    decreases s.len(),
{
    if s.len() == 0 {
        Seq::empty()
    } else {
        failing_runs(s.drop_last()) + if run_failed(s.last()) {
            seq![s.last()]
        } else {
            Seq::<GithubCheckRun>::empty()
        }
    }
}

/// The runs of `s` waiting on someone, in order.
pub open spec fn action_runs(s: Seq<GithubCheckRun>) -> Seq<GithubCheckRun>
    decreases s.len(),
{
    if s.len() == 0 {
        Seq::empty()
    } else {
        action_runs(s.drop_last()) + if run_needs_action(s.last()) {
            seq![s.last()]
        } else {
            Seq::<GithubCheckRun>::empty()
        }
    }
}

/// Whether `d` is the report's reference to check run `run`.
pub open spec fn check_ref_of(run: GithubCheckRun, d: CheckRunDetails) -> bool {
    d.name@ == run.name@ && d.details_url@ == run.details_url@
}

/// The overall state of a commit's checks: failing if any run failed, then
/// waiting if any run waits on someone, else success.
pub open spec fn overall_state(s: Seq<GithubCheckRun>) -> Seq<char> {
    if failing_runs(s).len() > 0 {
        "failure"@
    } else if action_runs(s).len() == 0 {
        "success"@
    } else {
        "action_required"@
    }
}

/// Classifies a commit's check runs: the overall state, the failing runs and
/// the runs waiting on someone, each in report order.
pub fn check_overall_status(check_runs: &GithubCheckRuns) -> (r: (
    String,
    Vec<CheckRunDetails>,
    Vec<CheckRunDetails>,
))
    ensures
        r.0@ == overall_state(check_runs.check_runs@),
        r.1@.len() == failing_runs(check_runs.check_runs@).len(),
        forall|i: int|
            0 <= i < r.1@.len() ==> check_ref_of(
                failing_runs(check_runs.check_runs@)[i],
                #[trigger] r.1@[i],
            ),
        r.2@.len() == action_runs(check_runs.check_runs@).len(),
        forall|i: int|
            0 <= i < r.2@.len() ==> check_ref_of(
                action_runs(check_runs.check_runs@)[i],
                #[trigger] r.2@[i],
            ),
{
    let mut failing_check_runs: Vec<CheckRunDetails> = Vec::new();
    let mut action_required_check_runs: Vec<CheckRunDetails> = Vec::new();
    let mut i: usize = 0;
    while i < check_runs.check_runs.len()
        invariant
            i <= check_runs.check_runs@.len(),
            failing_check_runs@.len() == failing_runs(
                check_runs.check_runs@.subrange(0, i as int),
            ).len(),
            forall|j: int|
                0 <= j < failing_check_runs@.len() ==> check_ref_of(
                    failing_runs(check_runs.check_runs@.subrange(0, i as int))[j],
                    #[trigger] failing_check_runs@[j],
                ),
            action_required_check_runs@.len() == action_runs(
                check_runs.check_runs@.subrange(0, i as int),
            ).len(),
            forall|j: int|
                0 <= j < action_required_check_runs@.len() ==> check_ref_of(
                    action_runs(check_runs.check_runs@.subrange(0, i as int))[j],
                    #[trigger] action_required_check_runs@[j],
                ),
        decreases check_runs.check_runs@.len() - i,
    {
        let run = &check_runs.check_runs[i];
        let failed = match &run.conclusion {
            Some(c) => str_eq(c.as_str(), "failure"),
            None => false,
        };
        let needs_action = !failed && match &run.conclusion {
            Some(c) => str_eq(c.as_str(), "action_required"),
            None => true,
        };
        proof {
            assert(check_runs.check_runs@.subrange(0, i + 1 as int).drop_last()
                =~= check_runs.check_runs@.subrange(0, i as int));
            assert(check_runs.check_runs@.subrange(0, i + 1 as int).last()
                == check_runs.check_runs@[i as int]);
        }
        if failed {
            failing_check_runs.push(
                CheckRunDetails { name: run.name.clone(), details_url: run.details_url.clone() },
            );
        } else if needs_action {
            action_required_check_runs.push(
                CheckRunDetails { name: run.name.clone(), details_url: run.details_url.clone() },
            );
        }
        i += 1;
    }
    proof {
        assert(check_runs.check_runs@.subrange(0, check_runs.check_runs@.len() as int)
            =~= check_runs.check_runs@);
    }
    let state = if failing_check_runs.len() > 0 {
        "failure".to_owned()
    } else if action_required_check_runs.len() == 0 {
        "success".to_owned()
    } else {
        "action_required".to_owned()
    };
    (state, failing_check_runs, action_required_check_runs)
}

} // verus!

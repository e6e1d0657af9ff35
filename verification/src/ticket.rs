//! The working view of a ticket: the live tracker record, the code-review
//! status fetched for it, and the temporal fields derived during
//! reconciliation; plus the per-ticket readiness warnings the report shows.

use vstd::prelude::*;

use crate::records::DailyTicketContext;
use crate::ticket_label::TicketLabel;
use crate::ticket_state::TicketState;

verus! {

/// One check run of a code-review pipeline, as shown in the report.
#[derive(Clone, Debug, PartialEq, Eq)]
pub struct CheckRunDetails {
    pub name: String,
    pub details_url: String,
}

/// Code-review status of the pull request a ticket points at.
#[derive(Clone, Debug)]
pub struct PullRequest {
    pub state: String,
    pub comments: u32,
    pub is_draft: bool,
    pub action_required_check_runs: Vec<CheckRunDetails>,
    pub failing_check_runs: Vec<CheckRunDetails>,
    pub merged: bool,
    pub mergeable: Option<bool>,
}

impl PullRequest {
    /// A pull request is blocked when it is not merged and either cannot be
    /// merged cleanly or has failing checks.
    pub open spec fn spec_is_blocked(&self) -> bool {
        !self.merged && (self.mergeable != Some(true) || self.failing_check_runs@.len() > 0)
    }

    /// Whether the pull request blocks its ticket.
    pub fn is_blocked(&self) -> (r: bool)
        ensures
            r == self.spec_is_blocked(),
    {
        let mergeable_clean = match self.mergeable {
            Some(true) => true,
            _ => false,
        };
        self.merged == false && (!mergeable_clean || self.failing_check_runs.len() > 0)
    }
}

/// A link from one ticket to the ticket it is part of.
#[derive(Clone, Debug, PartialEq, Eq)]
pub struct TicketLink {
    pub name: String,
    pub url: String,
}

/// A live record fetched from the ticket tracker, immutable per fetch.
#[derive(Clone, Debug)]
pub struct TicketDetails {
    pub id: String,
    pub name: String,
    pub state: TicketState,
    pub url: String,
    pub member_ids: Vec<String>,
    pub has_description: bool,
    pub has_labels: bool,
    pub labels: Vec<TicketLabel>,
    pub checklist_items: u32,
    pub checked_checklist_items: u32,
    pub pr_url: Option<String>,
    pub dependency_of: Option<TicketLink>,
}

/// A reconciled ticket: the live record joined with its prior snapshot (if
/// any), resolved member names, optional pull-request status, and the derived
/// temporal fields.
#[derive(Clone, Debug)]
pub struct Ticket {
    pub sprint_age: usize,
    pub is_new: bool,
    pub added_in_sprint: String,
    pub added_on: String,
    pub last_moved_on: String,
    pub moved_out_of_sprint: bool,
    pub members: Vec<String>,
    pub details: TicketDetails,
    pub pr: Option<PullRequest>,
}

/// `c` repeated `n` times.
pub open spec fn repeat_char(c: char, n: nat) -> Seq<char> {
    Seq::new(n, |i: int| c)
}

impl Ticket {
    /// Whether the ticket carries the `Goal` label.
    pub open spec fn spec_is_goal(&self) -> bool {
        self.details.labels@.contains(TicketLabel::Goal)
    }

    /// Whether the ticket carries the `Goal` label; goal tickets lead every
    /// bucket they land in.
    pub fn is_goal(&self) -> (r: bool)
        ensures
            r == self.spec_is_goal(),
    {
        let mut i: usize = 0;
        while i < self.details.labels.len()
            invariant
                i <= self.details.labels@.len(),
                forall|j: int| 0 <= j < i ==> self.details.labels@[j] != TicketLabel::Goal,
            decreases self.details.labels@.len() - i,
        {
            if matches!(self.details.labels[i], TicketLabel::Goal) {
                proof {
                    assert(self.details.labels@.contains(TicketLabel::Goal)) by {
                        assert(0 <= i < self.details.labels@.len() && self.details.labels@[
                        i as int] == TicketLabel::Goal);
                    }
                }
                return true;
            }
            i += 1;
        }
        false
    }

    /// The marker put before the name of a ticket added since the last run.
    pub open spec fn spec_new_emoji(&self) -> Seq<char> {
        if self.is_new {
            "\u{1F195}"@
        } else {
            Seq::empty()
        }
    }

    pub fn ticket_name_new_emoji(&self) -> (r: String)
        ensures
            r@ == self.spec_new_emoji(),
    {
        if self.is_new {
            return "\u{1F195}".to_owned();
        }
        proof {
            reveal_strlit("");
        }
        "".to_owned()
    }

    /// One snail per completed sprint the ticket has lingered through.
    pub open spec fn spec_age_emoji(&self) -> Seq<char> {
        repeat_char('\u{1F40C}', self.sprint_age as nat)
    }

    pub fn ticket_name_age_emoji(&self) -> (r: String)
        ensures
            r@ == self.spec_age_emoji(),
    {
        if self.sprint_age > 0 {
            let mut s = String::new();
            let mut i: usize = 0;
            while i < self.sprint_age
                invariant
                    i <= self.sprint_age,
                    s@ =~= repeat_char('\u{1F40C}', i as nat),
                decreases self.sprint_age - i,
            {
                s.append("\u{1F40C}");
                proof {
                    reveal_strlit("\u{1F40C}");
                }
                i += 1;
            }
            proof {
                assert(s@ =~= self.spec_age_emoji());
            }
            return s;
        }
        proof {
            reveal_strlit("");
            assert(""@ =~= self.spec_age_emoji());
        }
        "".to_owned()
    }

    /// The flag put before the name of a goal ticket.
    pub open spec fn spec_goal_emoji(&self) -> Seq<char> {
        if self.spec_is_goal() {
            "\u{1F3C1}"@
        } else {
            Seq::empty()
        }
    }

    pub fn ticket_name_goal_emoji(&self) -> (r: String)
        ensures
            r@ == self.spec_goal_emoji(),
    {
        if self.is_goal() {
            return "\u{1F3C1}".to_owned();
        }
        proof {
            reveal_strlit("");
        }
        "".to_owned()
    }

    /// The ticket name with its status markers in front: new, then age, then
    /// goal, then a space and the name; the bare name where no marker applies.
    pub open spec fn spec_annotated_name(&self) -> Seq<char> {
        let markers = self.spec_new_emoji() + self.spec_age_emoji() + self.spec_goal_emoji();
        if markers.len() > 0 {
            markers + " "@ + self.details.name@
        } else {
            self.details.name@
        }
    }

    pub fn annotated_ticket_name(&self) -> (r: String)
        ensures
            r@ == self.spec_annotated_name(),
    {
        let mut markers = self.ticket_name_new_emoji();
        let age = self.ticket_name_age_emoji();
        let goal = self.ticket_name_goal_emoji();
        markers.append(age.as_str());
        markers.append(goal.as_str());
        if markers.unicode_len() > 0 {
            let mut out = markers;
            out.append(" ");
            out.append(self.details.name.as_str());
            proof {
                reveal_strlit(" ");
                assert(out@ =~= self.spec_annotated_name());
            }
            out
        } else {
            let r = self.details.name.clone();
            r
        }
    }

    /// A ticket pulled into active work ought to have assignees.
    pub open spec fn spec_missing_assignees(&self) -> bool {
        self.details.state.idx() > TicketState::InScope.idx() && self.members@.len() == 0
    }

    pub fn missing_assignees_warning(&self) -> (r: Option<String>)
        ensures
            r is Some <==> self.spec_missing_assignees(),
            r matches Some(w) ==> w@ == " | Missing Assignees"@,
    {
        if self.details.state.gt(TicketState::InScope) && self.members.len() == 0 {
            Some(" | Missing Assignees".to_owned())
        } else {
            None
        }
    }

    /// A ticket past investigation ought to carry a description.
    pub open spec fn spec_missing_description(&self) -> bool {
        self.details.state.idx() > TicketState::InvestigationDiscussion.idx()
            && !self.details.has_description
    }

    pub fn missing_description_warning(&self) -> (r: Option<String>)
        ensures
            r is Some <==> self.spec_missing_description(),
            r matches Some(w) ==> w@ == " | Missing Description"@,
    {
        if self.details.state.gt(TicketState::InvestigationDiscussion)
            && !self.details.has_description {
            Some(" | Missing Description".to_owned())
        } else {
            None
        }
    }

    /// A ticket past investigation ought to carry labels.
    pub open spec fn spec_missing_labels(&self) -> bool {
        self.details.state.idx() > TicketState::InvestigationDiscussion.idx()
            && !self.details.has_labels
    }

    pub fn missing_labels_warning(&self) -> (r: Option<String>)
        ensures
            r is Some <==> self.spec_missing_labels(),
            r matches Some(w) ==> w@ == " | Missing Labels"@,
    {
        if self.details.state.gt(TicketState::InvestigationDiscussion) && !self.details.has_labels {
            Some(" | Missing Labels".to_owned())
        } else {
            None
        }
    }

    /// A ticket past in-progress ought to point at a pull request.
    pub open spec fn spec_missing_pr(&self) -> bool {
        self.details.state.idx() > TicketState::InProgress.idx() && self.pr is None
    }

    pub fn missing_pr_warning(&self) -> (r: Option<String>)
        ensures
            r is Some <==> self.spec_missing_pr(),
            r matches Some(w) ==> w@ == " | Missing PR"@,
    {
        if self.details.state.gt(TicketState::InProgress) && self.pr.is_none() {
            Some(" | Missing PR".to_owned())
        } else {
            None
        }
    }

    /// A ticket past pending-release ought to have its pull request merged.
    pub open spec fn spec_unmerged_pr(&self) -> bool {
        self.details.state.idx() > TicketState::PendingRelease.idx() && !(
        self.pr matches Some(pr) && pr.merged)
    }

    pub fn unmerged_pr_warning(&self) -> (r: Option<String>)
        ensures
            r is Some <==> self.spec_unmerged_pr(),
            r matches Some(w) ==> w@ == " | PR not merged"@,
    {
        if self.details.state.gt(TicketState::PendingRelease) {
            match &self.pr {
                Some(pr) if pr.merged => None,
                _ => Some(" | PR not merged".to_owned()),
            }
        } else {
            None
        }
    }
}

/// Whether two optional ticket links name the same ticket and address.
pub open spec fn link_matches(a: Option<TicketLink>, b: Option<TicketLink>) -> bool {
    match (a, b) {
        (Option::None, Option::None) => true,
        (Option::Some(x), Option::Some(y)) => x.name@ == y.name@ && x.url@ == y.url@,
        _ => false,
    }
}

/// Whether `r` is the daily snapshot of `t`: the identifying and temporal
/// fields carried over character for character.
pub open spec fn record_of(t: Ticket, r: DailyTicketContext) -> bool {
    &&& r.id@ == t.details.id@
    &&& r.name@ == t.details.name@
    &&& r.url@ == t.details.url@
    &&& r.state == t.details.state
    &&& r.labels@ == t.details.labels@
    &&& r.added_on@ == t.added_on@
    &&& r.added_in_sprint@ == t.added_in_sprint@
    &&& r.last_moved_on@ == t.last_moved_on@
    &&& link_matches(t.details.dependency_of, r.dependency_of)
}

/// Duplicates an optional ticket link.
fn copy_link(link: &Option<TicketLink>) -> (r: Option<TicketLink>)
    ensures
        link_matches(*link, r),
        link is Some <==> r is Some,
{
    match link {
        Some(l) => Some(TicketLink { name: l.name.clone(), url: l.url.clone() }),
        None => None,
    }
}

/// The snapshot record persisted for `t` at the end of a run.
pub fn to_daily_context(t: &Ticket) -> (r: DailyTicketContext)
    ensures
        record_of(*t, r),
{
    DailyTicketContext {
        id: t.details.id.clone(),
        name: t.details.name.clone(),
        url: t.details.url.clone(),
        state: t.details.state,
        labels: crate::strutil::copy_vec(&t.details.labels),
        added_on: t.added_on.clone(),
        added_in_sprint: t.added_in_sprint.clone(),
        last_moved_on: t.last_moved_on.clone(),
        dependency_of: copy_link(&t.details.dependency_of),
    }
}

/// Whether `t` is the materialization of snapshot `record` for a ticket the
/// tracker no longer reports: carried fields kept, state reset to the
/// backlog, marked as moved out of the sprint, with no pull request and no
/// members.
pub open spec fn orphan_of(record: DailyTicketContext, t: Ticket) -> bool {
    &&& t.sprint_age == 0
    &&& t.is_new == false
    &&& t.moved_out_of_sprint == true
    &&& t.members@.len() == 0
    &&& t.pr is None
    &&& t.added_on@ == record.added_on@
    &&& t.added_in_sprint@ == record.added_in_sprint@
    &&& t.last_moved_on@ == record.last_moved_on@
    &&& t.details.id@ == record.id@
    &&& t.details.name@ == record.name@
    &&& t.details.url@ == record.url@
    &&& t.details.state is InScope
    &&& t.details.has_description == true
    &&& t.details.has_labels == true
    &&& t.details.labels@ == record.labels@
    &&& t.details.checklist_items == 0
    &&& t.details.checked_checklist_items == 0
    &&& t.details.member_ids@.len() == 0
    &&& t.details.pr_url is None
    &&& link_matches(t.details.dependency_of, record.dependency_of)
}

/// Materializes a ticket from a snapshot the tracker no longer reports: the
/// ticket was removed or archived upstream, so it reappears in the backlog,
/// marked as moved out of the sprint.
pub fn from_daily_context(record: &DailyTicketContext) -> (t: Ticket)
    ensures
        orphan_of(*record, t),
{
    Ticket {
        members: Vec::new(),
        pr: None,
        sprint_age: 0,
        moved_out_of_sprint: true,
        added_in_sprint: record.added_in_sprint.clone(),
        added_on: record.added_on.clone(),
        is_new: false,
        last_moved_on: record.last_moved_on.clone(),
        details: TicketDetails {
            id: record.id.clone(),
            name: record.name.clone(),
            state: TicketState::InScope,
            url: record.url.clone(),
            has_description: true,
            has_labels: true,
            labels: crate::strutil::copy_vec(&record.labels),
            checklist_items: 0,
            checked_checklist_items: 0,
            member_ids: Vec::new(),
            pr_url: None,
            dependency_of: copy_link(&record.dependency_of),
        },
    }
}

} // verus!

//! The persisted state of the engine: the active sprint context (0 or 1 at
//! any time), the daily per-ticket snapshots, and the append-only history of
//! closed sprints, with their derived accessors.

use vstd::prelude::*;

use crate::dates::{day_number_of, days_between_strs};
use crate::strutil::str_eq;
use crate::ticket::TicketLink;
use crate::ticket_label::TicketLabel;
use crate::ticket_state::TicketState;

verus! {

/// The active sprint: created by a kickoff, cleared by cancel, end or review.
#[derive(Clone, Debug)]
pub struct ActiveSprintContext {
    pub name: String,
    pub start_date: String,
    pub end_date: String,
    pub channel_id: String,
    pub trello_board: String,
    pub open_tickets_count_beginning: u32,
    pub in_scope_tickets_count_beginning: u32,
}

/// `round(4 * num / den)` for `den > 0`, rounding halves away from zero.
pub open spec fn rounded_quarters(num: int, den: int) -> int {
    if num >= 0 {
        (8 * num + den) / (2 * den)
    } else {
        -((8 * (-num) + den) / (2 * den))
    }
}

/// The moon-phase step for a sprint with `days_left` of `total` days: the
/// elapsed share rounded into five steps, full (0) at the start down to new
/// (4) at the end. A sprint of no length counts as full, and any value
/// outside the five steps as new.
pub open spec fn indicator_phase(days_left: int, total: int) -> int {
    if total <= 0 {
        0
    } else {
        let idx = rounded_quarters(total - days_left, total);
        if 0 <= idx <= 3 {
            idx
        } else {
            4
        }
    }
}

/// The glyph for each moon-phase step.
pub open spec fn phase_symbol(phase: int) -> Seq<char> {
    if phase == 0 {
        "\u{1F315}"@
    } else if phase == 1 {
        "\u{1F314}"@
    } else if phase == 2 {
        "\u{1F313}"@
    } else if phase == 3 {
        "\u{1F312}"@
    } else {
        "\u{1F311}"@
    }
}

/// The moon-phase step, computed on day counts.
pub fn indicator_index(days_left: i64, total_days: i64) -> (r: u8)
    ensures
        r as int == indicator_phase(days_left as int, total_days as int),
{
    if total_days <= 0 {
        return 0;
    }
    let num: i128 = (total_days as i128) - (days_left as i128);
    let den: i128 = total_days as i128;
    let idx: i128 = if num >= 0 {
        (8 * num + den) / (2 * den)
    } else {
        -((8 * (-num) + den) / (2 * den))
    };
    if idx == 0 {
        0
    } else if idx == 1 {
        1
    } else if idx == 2 {
        2
    } else if idx == 3 {
        3
    } else {
        4
    }
}

impl ActiveSprintContext {
    /// Days from `today` to the sprint's end date; `None` when either date
    /// fails to parse.
    pub fn days_until_end(&self, today: &str) -> (r: Option<i64>)
        ensures
            r is Some <==> day_number_of(today@) is Some && day_number_of(
                self.end_date@,
            ) is Some,
            r matches Some(d) ==> day_number_of(today@) matches Some(t) && day_number_of(
                self.end_date@,
            ) matches Some(e) && d == e - t,
    {
        days_between_strs(today, self.end_date.as_str())
    }

    /// Days from the sprint's start date to `today`; `None` when either date
    /// fails to parse.
    pub fn total_days_elapsed(&self, today: &str) -> (r: Option<i64>)
        ensures
            r is Some <==> day_number_of(self.start_date@) is Some && day_number_of(
                today@,
            ) is Some,
            r matches Some(d) ==> day_number_of(self.start_date@) matches Some(s)
                && day_number_of(today@) matches Some(t) && d == t - s,
    {
        days_between_strs(self.start_date.as_str(), today)
    }

    /// The moon-phase glyph showing how far along the sprint is as of
    /// `today`; `None` when any of the three dates fails to parse.
    pub fn remaining_time_indicator(&self, today: &str) -> (r: Option<&'static str>)
        ensures
            r is Some <==> day_number_of(self.start_date@) is Some && day_number_of(
                self.end_date@,
            ) is Some && day_number_of(today@) is Some,
            r matches Some(s) ==> (day_number_of(self.start_date@) matches Some(sd)
                && day_number_of(self.end_date@) matches Some(ed) && day_number_of(
                today@,
            ) matches Some(td) && s@ == phase_symbol(indicator_phase(ed - td, ed - sd))),
    {
        let days_left = match self.days_until_end(today) {
            Some(d) => d,
            None => {
                return None;
            },
        };
        let total_days = match days_between_strs(self.start_date.as_str(), self.end_date.as_str()) {
            Some(d) => d,
            None => {
                return None;
            },
        };
        let phase = indicator_index(days_left, total_days);
        let symbol = if phase == 0 {
            "\u{1F315}"
        } else if phase == 1 {
            "\u{1F314}"
        } else if phase == 2 {
            "\u{1F313}"
        } else if phase == 3 {
            "\u{1F312}"
        } else {
            "\u{1F311}"
        };
        Some(symbol)
    }
}

/// The persisted daily snapshot of one ticket, one per ticket id.
#[derive(Clone, Debug)]
pub struct DailyTicketContext {
    pub id: String,
    pub name: String,
    pub url: String,
    pub state: TicketState,
    pub labels: Vec<TicketLabel>,
    pub added_on: String,
    pub added_in_sprint: String,
    pub last_moved_on: String,
    pub dependency_of: Option<TicketLink>,
}

/// The persisted snapshot set, refreshed on every reconciliation run.
#[derive(Clone, Debug)]
pub struct DailyTicketContexts {
    pub tickets: std::collections::VecDeque<DailyTicketContext>,
}

impl DailyTicketContexts {
    /// Snapshots in active work: past in-scope but not done.
    pub open spec fn spec_open_count(tickets: Seq<DailyTicketContext>) -> int
        decreases tickets.len(),
    {
        if tickets.len() == 0 {
            0int
        } else {
            let rest = Self::spec_open_count(tickets.drop_last());
            if tickets.last().state.idx() > TicketState::InScope.idx()
                && tickets.last().state.idx() < TicketState::Done.idx() {
                rest + 1
            } else {
                rest
            }
        }
    }

    /// How many snapshotted tickets are in active work: past in-scope but not
    /// done; what a preview reports as carried over.
    pub fn count_open_tickets(&self) -> (r: usize)
        ensures
            r as int == Self::spec_open_count(self.tickets@),
    {
        let mut count: usize = 0;
        let mut i: usize = 0;
        while i < self.tickets.len()
            invariant
                i <= self.tickets@.len(),
                count as int == Self::spec_open_count(self.tickets@.subrange(0, i as int)),
                count <= i,
            decreases self.tickets@.len() - i,
        {
            let record = &self.tickets[i];
            if record.state.gt(TicketState::InScope) && TicketState::Done.gt(record.state) {
                count += 1;
            }
            proof {
                assert(self.tickets@.subrange(0, i + 1 as int).drop_last() =~= self.tickets@
                    .subrange(0, i as int));
            }
            i += 1;
        }
        proof {
            assert(self.tickets@.subrange(0, self.tickets@.len() as int) =~= self.tickets@);
        }
        count
    }
}

/// One closed sprint in the append-only history. The completion percentage is
/// held in hundredths of a percent; `None` stands for the undefined ratio of
/// a sprint that had no tickets in scope.
#[derive(Clone, Debug)]
pub struct CumulativeSprintContext {
    pub name: String,
    pub start_date: String,
    pub end_date: String,
    pub percent_complete_hundredths: Option<u64>,
    pub completed_tickets_count: u32,
    pub tickets_added_to_scope_count: i64,
    pub open_tickets_added_count: i64,
}

/// The append-only history of closed sprints, oldest first.
#[derive(Clone, Debug)]
pub struct CumulativeSprintContexts {
    pub history: Vec<CumulativeSprintContext>,
}

impl CumulativeSprintContexts {
    /// How many sprints have closed since the one named `name` closed,
    /// counting that sprint itself: 1 for the most recent entry, 0 when the
    /// name never appears.
    pub open spec fn spec_count_since(history: Seq<CumulativeSprintContext>, name: Seq<char>) -> int
        decreases history.len(),
    {
        if history.len() == 0 {
            0int
        } else if history.last().name@ == name {
            1int
        } else {
            let rest = Self::spec_count_since(history.drop_last(), name);
            if rest == 0 {
                0int
            } else {
                rest + 1
            }
        }
    }

    /// Where the last entry named `name` sits at index `j` and nothing after
    /// it matches, the count is the distance from the end.
    proof fn lemma_count_since_found(
        history: Seq<CumulativeSprintContext>,
        name: Seq<char>,
        j: int,
    )
        requires
            0 <= j < history.len(),
            history[j].name@ == name,
            forall|k: int| j < k < history.len() ==> history[k].name@ != name,
        ensures
            Self::spec_count_since(history, name) == history.len() - j,
        decreases history.len(),
    {
        if j == history.len() - 1 {
        } else {
            assert(history.drop_last()[j] == history[j]);
            Self::lemma_count_since_found(history.drop_last(), name, j);
        }
    }

    /// Where no entry matches, the count is zero.
    proof fn lemma_count_since_none(history: Seq<CumulativeSprintContext>, name: Seq<char>)
        requires
            forall|k: int| 0 <= k < history.len() ==> history[k].name@ != name,
        ensures
            Self::spec_count_since(history, name) == 0,
        decreases history.len(),
    {
        if history.len() > 0 {
            Self::lemma_count_since_none(history.drop_last(), name);
        }
    }

    /// Scans the history from the most recent entry backward; 1 + the
    /// position of the first match, or 0 if the name never appears. Feeds
    /// both a ticket's sprint age and the name-reuse check.
    pub fn count_sprints_since(&self, sprint_name: &str) -> (r: usize)
        ensures
            r as int == Self::spec_count_since(self.history@, sprint_name@),
    {
        let n = self.history.len();
        let mut i: usize = n;
        while i > 0
            invariant
                i <= n,
                n == self.history@.len(),
                forall|k: int| i <= k < n ==> self.history@[k].name@ != sprint_name@,
            decreases i,
        {
            if str_eq(self.history[i - 1].name.as_str(), sprint_name) {
                proof {
                    Self::lemma_count_since_found(self.history@, sprint_name@, i - 1);
                }
                return n - (i - 1);
            }
            i -= 1;
        }
        proof {
            Self::lemma_count_since_none(self.history@, sprint_name@);
        }
        0
    }

    /// Whether a closed sprint already bore this name; such a name cannot be
    /// used again.
    pub fn was_sprint_name_used(&self, sprint_name: &str) -> (r: bool)
        ensures
            r == (Self::spec_count_since(self.history@, sprint_name@) > 0),
    {
        self.count_sprints_since(sprint_name) > 0
    }
}

} // verus!

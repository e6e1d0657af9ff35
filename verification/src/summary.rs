//! The classifier: partitions reconciled tickets into the report buckets,
//! first match wins, goal tickets pushed to the front of their bucket, and
//! derives the sprint counters from the same pass.

use std::collections::VecDeque;

use vstd::prelude::*;

use crate::records::{DailyTicketContext, DailyTicketContexts};
use crate::ticket::Ticket;
use crate::ticket_state::TicketState;

verus! {

/// Where the classifier sends a ticket: one of the six report buckets, or
/// nowhere (`ScopeOnly`) for an untouched backlog ticket that only counts
/// toward the project scope.
#[derive(Clone, Copy, Debug, PartialEq, Eq, Structural)]
pub enum BucketKind {
    Completed,
    Demo,
    BlockedPrs,
    OpenPrs,
    OpenTickets,
    Deferred,
    ScopeOnly,
}

/// The first classification rule that matches a ticket: done tickets are
/// completed; backlog tickets are deferred when they regressed out of the
/// sprint and uncounted otherwise; demo-ready tickets gather for demo; the
/// rest of active work splits by its pull request: blocked, open, or none.
pub open spec fn bucket_of(t: Ticket) -> BucketKind {
    if t.details.state is Done {
        BucketKind::Completed
    } else if t.details.state.idx() <= TicketState::InScope.idx() || t.moved_out_of_sprint {
        if t.moved_out_of_sprint {
            BucketKind::Deferred
        } else {
            BucketKind::ScopeOnly
        }
    } else if t.details.state is DemoFinalApproval {
        BucketKind::Demo
    } else if t.pr matches Some(pr) && !pr.is_draft && pr.spec_is_blocked() {
        BucketKind::BlockedPrs
    } else if t.pr matches Some(pr) && !pr.is_draft {
        BucketKind::OpenPrs
    } else {
        BucketKind::OpenTickets
    }
}

/// Insertion with goal priority: a goal ticket goes to the front of the
/// bucket, any other ticket to the back.
pub open spec fn prio_insert(bucket: Seq<Ticket>, t: Ticket) -> Seq<Ticket> {
    if t.spec_is_goal() {
        seq![t] + bucket
    } else {
        bucket + seq![t]
    }
}

/// The contents of bucket `k` after classifying `s` in order.
pub open spec fn bucket_seq(s: Seq<Ticket>, k: BucketKind) -> Seq<Ticket>
    decreases s.len(),
{
    if s.len() == 0 {
        Seq::empty()
    } else {
        let prev = bucket_seq(s.drop_last(), k);
        if bucket_of(s.last()) == k {
            prio_insert(prev, s.last())
        } else {
            prev
        }
    }
}

/// How many tickets of `s` belong to the sprint: all but the untouched
/// backlog.
pub open spec fn spec_sprint_count(s: Seq<Ticket>) -> int
    decreases s.len(),
{
    if s.len() == 0 {
        0int
    } else {
        spec_sprint_count(s.drop_last()) + if bucket_of(s.last()) != BucketKind::ScopeOnly {
            1int
        } else {
            0int
        }
    }
}

/// How many tickets of `s` sit in the project's in-scope backlog column.
pub open spec fn spec_in_scope_count(s: Seq<Ticket>) -> int
    decreases s.len(),
{
    if s.len() == 0 {
        0int
    } else {
        spec_in_scope_count(s.drop_last()) + if s.last().details.state is InScope {
            1int
        } else {
            0int
        }
    }
}

/// Appends `t` to `bucket` with goal priority.
pub fn prioritized_push(bucket: &mut VecDeque<Ticket>, t: Ticket)
    ensures
        final(bucket)@ == prio_insert(old(bucket)@, t),
{
    if t.is_goal() {
        bucket.push_front(t);
    } else {
        bucket.push_back(t);
    }
}

/// The classified view of one reconciliation run: the ordered buckets and the
/// counters derived with them. The completion percentage is not stored; it is
/// the ratio of `completed_tickets` to `sprint_ticket_count`, undefined when
/// the latter is zero, and `completed_percentage_hundredths` renders it.
#[derive(Debug)]
pub struct TicketSummary {
    pub demoes: VecDeque<Ticket>,
    pub blocked_prs: VecDeque<Ticket>,
    pub open_prs: VecDeque<Ticket>,
    pub open_tickets: VecDeque<Ticket>,
    pub deferred_tickets: VecDeque<Ticket>,
    pub completed_tickets: VecDeque<Ticket>,
    pub sprint_ticket_count: u32,
    pub open_ticket_count: u32,
    pub project_ticket_count: u32,
    pub project_ticket_count_in_scope: u32,
}

impl TicketSummary {
    /// The buckets and counters a classification of `tickets` must show;
    /// `sprint_ticket_count` equal to the six bucket sizes put together is
    /// stated here once and holds of every summary built by `from_tickets`.
    pub open spec fn classifies(&self, tickets: Seq<Ticket>) -> bool {
        &&& self.completed_tickets@ == bucket_seq(tickets, BucketKind::Completed)
        &&& self.demoes@ == bucket_seq(tickets, BucketKind::Demo)
        &&& self.blocked_prs@ == bucket_seq(tickets, BucketKind::BlockedPrs)
        &&& self.open_prs@ == bucket_seq(tickets, BucketKind::OpenPrs)
        &&& self.open_tickets@ == bucket_seq(tickets, BucketKind::OpenTickets)
        &&& self.deferred_tickets@ == bucket_seq(tickets, BucketKind::Deferred)
        &&& self.sprint_ticket_count == spec_sprint_count(tickets)
        &&& self.sprint_ticket_count == self.completed_tickets@.len() + self.demoes@.len()
            + self.blocked_prs@.len() + self.open_prs@.len() + self.open_tickets@.len()
            + self.deferred_tickets@.len()
        &&& self.project_ticket_count == tickets.len()
        &&& self.project_ticket_count_in_scope == spec_in_scope_count(tickets)
        &&& self.open_ticket_count == self.sprint_ticket_count - self.completed_tickets@.len()
            - self.deferred_tickets@.len()
    }

    /// Classifies the reconciled tickets of one run, first match wins, goal
    /// tickets leading every bucket.
    pub fn from_tickets(tickets: Vec<Ticket>) -> (r: TicketSummary)
        requires
            tickets@.len() <= u32::MAX,
        ensures
            r.classifies(tickets@),
    {
        let ghost orig = tickets@;
        let mut rest = tickets;
        let ghost mut processed: Seq<Ticket> = Seq::empty();

        let mut demoes: VecDeque<Ticket> = VecDeque::new();
        let mut blocked_prs: VecDeque<Ticket> = VecDeque::new();
        let mut open_prs: VecDeque<Ticket> = VecDeque::new();
        let mut open_tickets: VecDeque<Ticket> = VecDeque::new();
        let mut completed_tickets: VecDeque<Ticket> = VecDeque::new();
        let mut deferred_tickets: VecDeque<Ticket> = VecDeque::new();

        let mut sprint_ticket_count: u32 = 0;
        let mut project_ticket_count_in_scope: u32 = 0;
        let project_ticket_count: u32 = rest.len() as u32;

        while rest.len() > 0
            invariant
                orig.len() <= u32::MAX,
                processed + rest@ =~= orig,
                completed_tickets@ == bucket_seq(processed, BucketKind::Completed),
                demoes@ == bucket_seq(processed, BucketKind::Demo),
                blocked_prs@ == bucket_seq(processed, BucketKind::BlockedPrs),
                open_prs@ == bucket_seq(processed, BucketKind::OpenPrs),
                open_tickets@ == bucket_seq(processed, BucketKind::OpenTickets),
                deferred_tickets@ == bucket_seq(processed, BucketKind::Deferred),
                sprint_ticket_count == spec_sprint_count(processed),
                sprint_ticket_count == completed_tickets@.len() + demoes@.len()
                    + blocked_prs@.len() + open_prs@.len() + open_tickets@.len()
                    + deferred_tickets@.len(),
                project_ticket_count_in_scope == spec_in_scope_count(processed),
                sprint_ticket_count <= processed.len(),
                project_ticket_count_in_scope <= processed.len(),
            decreases rest@.len(),
        {
            let ticket = rest.remove(0);
            proof {
                assert(processed.push(ticket).drop_last() =~= processed);
                assert(processed.push(ticket) + rest@ =~= orig);
            }
            if matches!(ticket.details.state, TicketState::Done) {
                sprint_ticket_count += 1;
                prioritized_push(&mut completed_tickets, ticket);
            } else if ticket.details.state.le(TicketState::InScope) || ticket.moved_out_of_sprint {
                if matches!(ticket.details.state, TicketState::InScope) {
                    project_ticket_count_in_scope += 1;
                }
                if ticket.moved_out_of_sprint {
                    sprint_ticket_count += 1;
                    prioritized_push(&mut deferred_tickets, ticket);
                }
            } else if matches!(ticket.details.state, TicketState::DemoFinalApproval) {
                sprint_ticket_count += 1;
                prioritized_push(&mut demoes, ticket);
            } else {
                sprint_ticket_count += 1;
                let pr_class: u8 = match &ticket.pr {
                    Some(pr) => {
                        if !pr.is_draft && pr.is_blocked() {
                            2
                        } else if !pr.is_draft {
                            1
                        } else {
                            0
                        }
                    },
                    None => 0,
                };
                if pr_class == 2 {
                    prioritized_push(&mut blocked_prs, ticket);
                } else if pr_class == 1 {
                    prioritized_push(&mut open_prs, ticket);
                } else {
                    prioritized_push(&mut open_tickets, ticket);
                }
            }
            proof {
                processed = processed.push(ticket);
            }
        }
        proof {
            assert(processed =~= orig);
        }

        let open_ticket_count: u32 = sprint_ticket_count - (completed_tickets.len() as u32) - (
        deferred_tickets.len() as u32);
        TicketSummary {
            demoes,
            blocked_prs,
            open_prs,
            open_tickets,
            deferred_tickets,
            completed_tickets,
            sprint_ticket_count,
            open_ticket_count,
            project_ticket_count,
            project_ticket_count_in_scope,
        }
    }

    /// The completion ratio as hundredths of a percent, rounded to nearest;
    /// `None` where the sprint holds no tickets and the ratio is undefined.
    pub fn completed_percentage_hundredths(&self) -> (r: Option<u64>)
        requires
            self.completed_tickets@.len() <= self.sprint_ticket_count,
        ensures
            r is Some <==> self.sprint_ticket_count > 0,
            r matches Some(h) ==> h as int == (20000 * self.completed_tickets@.len()
                + self.sprint_ticket_count) / (2 * self.sprint_ticket_count as int),
    {
        if self.sprint_ticket_count == 0 {
            return None;
        }
        let c: u64 = self.completed_tickets.len() as u64;
        let s: u64 = self.sprint_ticket_count as u64;
        Some((20000 * c + s) / (2 * s))
    }

    /// Empties the completed and deferred buckets; everything else stays.
    pub fn clear_completed_and_deferred(&mut self)
        ensures
            final(self).completed_tickets@ == Seq::<Ticket>::empty(),
            final(self).deferred_tickets@ == Seq::<Ticket>::empty(),
            final(self).demoes == old(self).demoes,
            final(self).blocked_prs == old(self).blocked_prs,
            final(self).open_prs == old(self).open_prs,
            final(self).open_tickets == old(self).open_tickets,
            final(self).sprint_ticket_count == old(self).sprint_ticket_count,
            final(self).open_ticket_count == old(self).open_ticket_count,
            final(self).project_ticket_count == old(self).project_ticket_count,
            final(self).project_ticket_count_in_scope == old(self).project_ticket_count_in_scope,
    {
        self.completed_tickets.clear();
        self.deferred_tickets.clear();
    }

    /// What the persisted snapshot set of a summary holds: one record per
    /// ticket of the active and closed buckets, in their report order. Demo
    /// tickets are not written back, as the persisted set has always been
    /// built.
    pub open spec fn is_snapshot_of(sn: DailyTicketContexts, s: TicketSummary) -> bool {
        let source = s.blocked_prs@ + s.open_prs@ + s.open_tickets@ + s.completed_tickets@
            + s.deferred_tickets@;
        &&& sn.tickets@.len() == source.len()
        &&& forall|i: int|
            0 <= i < source.len() ==> crate::ticket::record_of(
                source[i],
                #[trigger] sn.tickets@[i],
            )
    }

    /// The snapshot records to persist after this run.
    pub fn to_daily_contexts(&self) -> (r: DailyTicketContexts)
        ensures
            TicketSummary::is_snapshot_of(r, *self),
    {
        let ghost source = self.blocked_prs@ + self.open_prs@ + self.open_tickets@
            + self.completed_tickets@ + self.deferred_tickets@;
        let ghost b = self.blocked_prs@;
        let ghost op = self.open_prs@;
        let ghost ot = self.open_tickets@;
        let ghost ct = self.completed_tickets@;
        let ghost df = self.deferred_tickets@;
        let mut tickets: VecDeque<DailyTicketContext> = VecDeque::new();
        append_records(&mut tickets, &self.blocked_prs);
        let ghost v1 = tickets@;
        append_records(&mut tickets, &self.open_prs);
        let ghost v2 = tickets@;
        append_records(&mut tickets, &self.open_tickets);
        let ghost v3 = tickets@;
        append_records(&mut tickets, &self.completed_tickets);
        let ghost v4 = tickets@;
        append_records(&mut tickets, &self.deferred_tickets);
        proof {
            assert forall|i: int|
                0 <= i < source.len() implies crate::ticket::record_of(
                source[i],
                #[trigger] tickets@[i],
            ) by {
                if i < b.len() {
                    assert(crate::ticket::record_of(b[i], v1[i]));
                    assert(v2[i] == v1[i]);
                    assert(v3[i] == v2[i]);
                    assert(v4[i] == v3[i]);
                    assert(tickets@[i] == v4[i]);
                    assert(source[i] == b[i]);
                } else if i < b.len() + op.len() {
                    assert(crate::ticket::record_of(op[i - b.len()], v2[i]));
                    assert(v3[i] == v2[i]);
                    assert(v4[i] == v3[i]);
                    assert(tickets@[i] == v4[i]);
                    assert(source[i] == op[i - b.len()]);
                } else if i < b.len() + op.len() + ot.len() {
                    assert(crate::ticket::record_of(ot[i - b.len() - op.len()], v3[i]));
                    assert(v4[i] == v3[i]);
                    assert(tickets@[i] == v4[i]);
                    assert(source[i] == ot[i - b.len() - op.len()]);
                } else if i < b.len() + op.len() + ot.len() + ct.len() {
                    assert(crate::ticket::record_of(
                        ct[i - b.len() - op.len() - ot.len()],
                        v4[i],
                    ));
                    assert(tickets@[i] == v4[i]);
                    assert(source[i] == ct[i - b.len() - op.len() - ot.len()]);
                } else {
                    assert(crate::ticket::record_of(
                        df[i - b.len() - op.len() - ot.len() - ct.len()],
                        tickets@[i],
                    ));
                    assert(source[i] == df[i - b.len() - op.len() - ot.len() - ct.len()]);
                }
            }
        }
        DailyTicketContexts { tickets }
    }
}

/// Membership under goal-priority insertion: the bucket gains exactly `x`.
proof fn lemma_prio_insert_contains(bucket: Seq<Ticket>, x: Ticket, y: Ticket)
    ensures
        prio_insert(bucket, x).contains(y) <==> (y == x || bucket.contains(y)),
{
    let after = prio_insert(bucket, x);
    if x.spec_is_goal() {
        assert(after[0] == x);
        if bucket.contains(y) {
            let i = choose|i: int| 0 <= i < bucket.len() && bucket[i] == y;
            assert(after[i + 1] == y);
        }
        if after.contains(y) {
            let i = choose|i: int| 0 <= i < after.len() && after[i] == y;
            if i > 0 {
                assert(bucket[i - 1] == y);
            }
        }
    } else {
        assert(after[bucket.len() as int] == x);
        if bucket.contains(y) {
            let i = choose|i: int| 0 <= i < bucket.len() && bucket[i] == y;
            assert(after[i] == y);
        }
        if after.contains(y) {
            let i = choose|i: int| 0 <= i < after.len() && after[i] == y;
            if i < bucket.len() {
                assert(bucket[i] == y);
            }
        }
    }
}

/// A bucket holds only tickets the classification rule sends to it.
proof fn lemma_bucket_seq_elems(s: Seq<Ticket>, k: BucketKind, y: Ticket)
    requires
        bucket_seq(s, k).contains(y),
    ensures
        bucket_of(y) == k,
        s.contains(y),
    decreases s.len(),
{
    if s.len() > 0 {
        let prev = bucket_seq(s.drop_last(), k);
        if bucket_of(s.last()) == k {
            lemma_prio_insert_contains(prev, s.last(), y);
            if y == s.last() {
                assert(s[s.len() - 1] == y);
            } else {
                lemma_bucket_seq_elems(s.drop_last(), k, y);
                let i = choose|i: int| 0 <= i < s.drop_last().len() && s.drop_last()[i] == y;
                assert(s[i] == y);
            }
        } else {
            lemma_bucket_seq_elems(s.drop_last(), k, y);
            let i = choose|i: int| 0 <= i < s.drop_last().len() && s.drop_last()[i] == y;
            assert(s[i] == y);
        }
    }
}

/// A classified ticket reaches the bucket the rule names.
proof fn lemma_bucket_seq_reaches(s: Seq<Ticket>, t: Ticket)
    requires
        s.contains(t),
    ensures
        bucket_seq(s, bucket_of(t)).contains(t),
    decreases s.len(),
{
    let k = bucket_of(t);
    let prev = bucket_seq(s.drop_last(), k);
    if s.last() == t {
        lemma_prio_insert_contains(prev, s.last(), t);
    } else {
        let i = choose|i: int| 0 <= i < s.len() && s[i] == t;
        assert(s.drop_last()[i] == t);
        lemma_bucket_seq_reaches(s.drop_last(), t);
        if bucket_of(s.last()) == k {
            lemma_prio_insert_contains(prev, s.last(), t);
        }
    }
}

/// Bucket completeness: a classified ticket appears in the bucket the
/// classification rule sends it to, and in no other. In particular every
/// ticket whose state has left the backlog and which has not moved out of
/// the sprint lands in exactly one of the completed, demo, blocked, open-PR
/// and open-ticket buckets.
pub proof fn lemma_bucket_completeness(s: Seq<Ticket>, t: Ticket)
    requires
        s.contains(t),
    ensures
        bucket_seq(s, bucket_of(t)).contains(t),
        forall|k: BucketKind| k != bucket_of(t) ==> !bucket_seq(s, k).contains(t),
{
    lemma_bucket_seq_reaches(s, t);
    assert forall|k: BucketKind| k != bucket_of(t) implies !bucket_seq(s, k).contains(t) by {
        if bucket_seq(s, k).contains(t) {
            lemma_bucket_seq_elems(s, k, t);
        }
    }
}

/// Goal priority: push a ticket without the goal label, then one with it,
/// into any bucket; the goal ticket stands at the front and the other at the
/// back, so the goal ticket precedes it.
pub proof fn lemma_goal_priority(bucket: Seq<Ticket>, plain: Ticket, goal: Ticket)
    requires
        !plain.spec_is_goal(),
        goal.spec_is_goal(),
    ensures
        prio_insert(prio_insert(bucket, plain), goal) == seq![goal] + bucket + seq![plain],
        prio_insert(prio_insert(bucket, plain), goal)[0] == goal,
        prio_insert(prio_insert(bucket, plain), goal).last() == plain,
{
    assert(prio_insert(prio_insert(bucket, plain), goal) =~= seq![goal] + bucket + seq![plain]);
}

/// Appends one snapshot record per ticket of `bucket`, in order.
fn append_records(out: &mut VecDeque<DailyTicketContext>, bucket: &VecDeque<Ticket>)
    ensures
        final(out)@.len() == old(out)@.len() + bucket@.len(),
        forall|j: int| 0 <= j < old(out)@.len() ==> final(out)@[j] == old(out)@[j],
        forall|j: int|
            old(out)@.len() <= j < final(out)@.len() ==> crate::ticket::record_of(
                bucket@[j - old(out)@.len()],
                #[trigger] final(out)@[j],
            ),
{
    let mut i: usize = 0;
    while i < bucket.len()
        invariant
            i <= bucket@.len(),
            out@.len() == old(out)@.len() + i,
            forall|j: int| 0 <= j < old(out)@.len() ==> out@[j] == old(out)@[j],
            forall|j: int|
                old(out)@.len() <= j < out@.len() ==> crate::ticket::record_of(
                    bucket@[j - old(out)@.len()],
                    #[trigger] out@[j],
                ),
        decreases bucket@.len() - i,
    {
        let record = crate::ticket::to_daily_context(&bucket[i]);
        out.push_back(record);
        i += 1;
    }
}

} // verus!

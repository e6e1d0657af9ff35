//! The reconciler: merges each live tracker record with its prior persisted
//! snapshot (if any) into a working ticket, computing the derived temporal
//! fields, and materializes snapshots the tracker no longer reports.

use vstd::prelude::*;

use crate::records::{CumulativeSprintContexts, DailyTicketContext, DailyTicketContexts};
use crate::strutil::str_eq;
use crate::summary::TicketSummary;
use crate::ticket::{orphan_of, PullRequest, Ticket, TicketDetails};
use crate::ticket_state::TicketState;

verus! {

/// The name resolved for `key` by the first matching pair.
pub open spec fn spec_lookup(pairs: Seq<(String, String)>, key: Seq<char>) -> Option<Seq<char>>
    decreases pairs.len(),
{
    if pairs.len() == 0 {
        None
    } else if pairs[0].0@ == key {
        Some(pairs[0].1@)
    } else {
        spec_lookup(pairs.subrange(1, pairs.len() as int), key)
    }
}

/// Skipping pairs that do not match leaves the lookup unchanged.
proof fn lemma_lookup_skip(pairs: Seq<(String, String)>, key: Seq<char>, i: int)
    requires
        0 <= i <= pairs.len(),
        forall|j: int| 0 <= j < i ==> pairs[j].0@ != key,
    ensures
        spec_lookup(pairs, key) == spec_lookup(pairs.subrange(i, pairs.len() as int), key),
    decreases i,
{
    if i == 0 {
        assert(pairs.subrange(0, pairs.len() as int) =~= pairs);
    } else {
        let rest = pairs.subrange(1, pairs.len() as int);
        assert(forall|j: int| 0 <= j < i - 1 ==> #[trigger] rest[j].0@ != key);
        lemma_lookup_skip(rest, key, i - 1);
        assert(rest.subrange(i - 1, rest.len() as int) =~= pairs.subrange(
            i,
            pairs.len() as int,
        ));
    }
}

/// Resolves a member id through the id-to-name pairs, first match wins.
fn lookup_member<'a>(mapping: &'a Vec<(String, String)>, id: &str) -> (r: Option<&'a String>)
    ensures
        r is Some <==> spec_lookup(mapping@, id@) is Some,
        r matches Some(name) ==> spec_lookup(mapping@, id@) == Some(name@),
{
    let mut i: usize = 0;
    while i < mapping.len()
        invariant
            i <= mapping@.len(),
            forall|j: int| 0 <= j < i ==> #[trigger] mapping@[j].0@ != id@,
        decreases mapping@.len() - i,
    {
        if str_eq(mapping[i].0.as_str(), id) {
            proof {
                lemma_lookup_skip(mapping@, id@, i as int);
                assert(mapping@.subrange(i as int, mapping@.len() as int)[0] == mapping@[
                i as int]);
            }
            return Some(&mapping[i].1);
        }
        i += 1;
    }
    proof {
        lemma_lookup_skip(mapping@, id@, mapping@.len() as int);
    }
    None
}

/// The member names resolved for `ids`, in order, unresolved ids silently
/// dropped.
pub open spec fn resolved_members(ids: Seq<String>, pairs: Seq<(String, String)>) -> Seq<Seq<char>>
    decreases ids.len(),
{
    if ids.len() == 0 {
        Seq::empty()
    } else {
        resolved_members(ids.drop_last(), pairs) + match spec_lookup(pairs, ids.last()@) {
            Some(name) => seq![name],
            None => Seq::empty(),
        }
    }
}

/// The views of a list of strings.
pub open spec fn string_views(ms: Seq<String>) -> Seq<Seq<char>> {
    ms.map_values(|m: String| m@)
}

/// Resolves every member id of `ids`, dropping those the mapping does not
/// know.
fn resolve_members(ids: &Vec<String>, mapping: &Vec<(String, String)>) -> (r: Vec<String>)
    ensures
        string_views(r@) == resolved_members(ids@, mapping@),
{
    let mut r: Vec<String> = Vec::new();
    let mut i: usize = 0;
    while i < ids.len()
        invariant
            i <= ids@.len(),
            string_views(r@) =~= resolved_members(ids@.subrange(0, i as int), mapping@),
        decreases ids@.len() - i,
    {
        proof {
            assert(ids@.subrange(0, i + 1 as int).drop_last() =~= ids@.subrange(0, i as int));
            assert(ids@.subrange(0, i + 1 as int).last() == ids@[i as int]);
        }
        match lookup_member(mapping, ids[i].as_str()) {
            Some(name) => {
                let owned = name.clone();
                r.push(owned);
            },
            None => {},
        }
        proof {
            assert(string_views(r@) =~= resolved_members(
                ids@.subrange(0, i + 1 as int),
                mapping@,
            ));
        }
        i += 1;
    }
    proof {
        assert(ids@.subrange(0, ids@.len() as int) =~= ids@);
    }
    r
}

/// Everything reconciliation promises of the ticket built for one live
/// record: the live fields and pull request carried through unchanged; for a
/// ticket never snapshotted, first-day temporal fields; for a snapshotted
/// one, the carried-over fields, the sprint age read from the history, and a
/// move date touched only by a real state change; and the regression flag set
/// exactly for a snapshotted ticket back at or below the in-scope column.
pub open spec fn reconciles(
    details: TicketDetails,
    pr: Option<PullRequest>,
    previous: Option<DailyTicketContext>,
    sprint_name: Seq<char>,
    history: Seq<crate::records::CumulativeSprintContext>,
    mapping: Seq<(String, String)>,
    today: Seq<char>,
    t: Ticket,
) -> bool {
    &&& t.details == details
    &&& t.pr == pr
    &&& string_views(t.members@) == resolved_members(details.member_ids@, mapping)
    &&& t.moved_out_of_sprint == (previous is Some && details.state.idx()
        <= TicketState::InScope.idx())
    &&& (previous is None ==> {
        &&& t.sprint_age == 0
        &&& t.is_new == true
        &&& t.added_on@ == today
        &&& t.added_in_sprint@ == sprint_name
        &&& t.last_moved_on@ == today
    })
    &&& (previous matches Some(p) ==> {
        &&& t.sprint_age as int == CumulativeSprintContexts::spec_count_since(
            history,
            p.added_in_sprint@,
        )
        &&& t.is_new == false
        &&& t.added_on@ == p.added_on@
        &&& t.added_in_sprint@ == p.added_in_sprint@
        &&& (p.state == details.state ==> t.last_moved_on@ == p.last_moved_on@)
        &&& (p.state != details.state ==> t.last_moved_on@ == today)
    })
}

/// Merges one live record with its prior snapshot into a working ticket.
///
/// With no prior snapshot the ticket is brand new: age zero, added today in
/// the current sprint. With one, the added-on fields carry over unchanged and
/// the move date is touched exactly when the state changed since the
/// snapshot.
pub fn reconcile_ticket(
    details: TicketDetails,
    pr: Option<PullRequest>,
    previous: Option<&DailyTicketContext>,
    current_sprint_name: &str,
    history: &CumulativeSprintContexts,
    user_mapping: &Vec<(String, String)>,
    today: &str,
) -> (t: Ticket)
    ensures
        reconciles(
            details,
            pr,
            match previous {
                Some(p) => Some(*p),
                None => None,
            },
            current_sprint_name@,
            history.history@,
            user_mapping@,
            today@,
            t,
        ),
{
    let moved_out_of_sprint = previous.is_some() && details.state.le(TicketState::InScope);
    let members = resolve_members(&details.member_ids, user_mapping);
    match previous {
        Some(prev) => {
            let last_moved_on = if prev.state != details.state {
                today.to_owned()
            } else {
                prev.last_moved_on.clone()
            };
            Ticket {
                sprint_age: history.count_sprints_since(prev.added_in_sprint.as_str()),
                is_new: false,
                added_in_sprint: prev.added_in_sprint.clone(),
                added_on: prev.added_on.clone(),
                last_moved_on,
                moved_out_of_sprint,
                members,
                details,
                pr,
            }
        },
        None => Ticket {
            sprint_age: 0,
            is_new: true,
            added_in_sprint: current_sprint_name.to_owned(),
            added_on: today.to_owned(),
            last_moved_on: today.to_owned(),
            moved_out_of_sprint,
            members,
            details,
            pr,
        },
    }
}

/// New-ticket invariant: a record with no prior snapshot reconciles to a
/// ticket of sprint age zero, added today, in the current sprint.
pub proof fn lemma_new_ticket_invariant(
    details: TicketDetails,
    pr: Option<PullRequest>,
    sprint_name: Seq<char>,
    history: Seq<crate::records::CumulativeSprintContext>,
    mapping: Seq<(String, String)>,
    today: Seq<char>,
    t: Ticket,
)
    requires
        reconciles(details, pr, None, sprint_name, history, mapping, today, t),
    ensures
        t.sprint_age == 0,
        t.added_on@ == today,
        t.added_in_sprint@ == sprint_name,
{
}

/// Carry-over invariant: a ticket whose state has not changed since its
/// snapshot keeps the snapshot's move date exactly; no spurious touch.
pub proof fn lemma_carry_over_invariant(
    details: TicketDetails,
    pr: Option<PullRequest>,
    prev: DailyTicketContext,
    sprint_name: Seq<char>,
    history: Seq<crate::records::CumulativeSprintContext>,
    mapping: Seq<(String, String)>,
    today: Seq<char>,
    t: Ticket,
)
    requires
        reconciles(details, pr, Some(prev), sprint_name, history, mapping, today, t),
        prev.state == details.state,
    ensures
        t.last_moved_on@ == prev.last_moved_on@,
{
}

/// Deferred on regression: a ticket with a prior snapshot, now reported at
/// or below the in-scope column, reconciles as moved out of the sprint, and
/// any classification of a run holding it puts it in the deferred bucket:
/// it is not silently dropped.
pub proof fn lemma_deferred_on_regression(
    details: TicketDetails,
    pr: Option<PullRequest>,
    prev: DailyTicketContext,
    sprint_name: Seq<char>,
    history: Seq<crate::records::CumulativeSprintContext>,
    mapping: Seq<(String, String)>,
    today: Seq<char>,
    t: Ticket,
    run: Seq<Ticket>,
)
    requires
        reconciles(details, pr, Some(prev), sprint_name, history, mapping, today, t),
        details.state.idx() <= TicketState::InScope.idx(),
        run.contains(t),
    ensures
        t.moved_out_of_sprint,
        crate::summary::bucket_of(t) == crate::summary::BucketKind::Deferred,
        crate::summary::bucket_seq(run, crate::summary::BucketKind::Deferred).contains(t),
{
    crate::summary::lemma_bucket_completeness(run, t);
}

/// The first snapshot whose id is `id`, if any.
pub open spec fn find_record(records: Seq<DailyTicketContext>, id: Seq<char>) -> Option<
    DailyTicketContext,
>
    decreases records.len(),
{
    if records.len() == 0 {
        None
    } else if records[0].id@ == id {
        Some(records[0])
    } else {
        find_record(records.subrange(1, records.len() as int), id)
    }
}

/// Skipping snapshots that do not match leaves the search unchanged.
proof fn lemma_find_record_skip(records: Seq<DailyTicketContext>, id: Seq<char>, i: int)
    requires
        0 <= i <= records.len(),
        forall|j: int| 0 <= j < i ==> records[j].id@ != id,
    ensures
        find_record(records, id) == find_record(
            records.subrange(i, records.len() as int),
            id,
        ),
    decreases i,
{
    if i == 0 {
        assert(records.subrange(0, records.len() as int) =~= records);
    } else {
        let rest = records.subrange(1, records.len() as int);
        assert(forall|j: int| 0 <= j < i - 1 ==> #[trigger] rest[j].id@ != id);
        lemma_find_record_skip(rest, id, i - 1);
        assert(rest.subrange(i - 1, rest.len() as int) =~= records.subrange(
            i,
            records.len() as int,
        ));
    }
}

/// The prior snapshot persisted for ticket id `id`, if one exists.
fn find_previous<'a>(records: &'a DailyTicketContexts, id: &str) -> (r: Option<
    &'a DailyTicketContext,
>)
    ensures
        r is Some <==> find_record(records.tickets@, id@) is Some,
        r matches Some(rec) ==> find_record(records.tickets@, id@) == Some(*rec),
{
    let mut i: usize = 0;
    while i < records.tickets.len()
        invariant
            i <= records.tickets@.len(),
            forall|j: int| 0 <= j < i ==> #[trigger] records.tickets@[j].id@ != id@,
        decreases records.tickets@.len() - i,
    {
        if str_eq(records.tickets[i].id.as_str(), id) {
            proof {
                lemma_find_record_skip(records.tickets@, id@, i as int);
                assert(records.tickets@.subrange(i as int, records.tickets@.len() as int)[0]
                    == records.tickets@[i as int]);
            }
            return Some(&records.tickets[i]);
        }
        i += 1;
    }
    proof {
        lemma_find_record_skip(records.tickets@, id@, records.tickets@.len() as int);
    }
    None
}

/// Whether some live record carries this id.
pub open spec fn live_has_id(details_list: Seq<TicketDetails>, id: Seq<char>) -> bool {
    exists|j: int| 0 <= j < details_list.len() && details_list[j].id@ == id
}

/// The snapshots with no matching live record, in snapshot order.
pub open spec fn orphan_records(
    records: Seq<DailyTicketContext>,
    details_list: Seq<TicketDetails>,
) -> Seq<DailyTicketContext>
    decreases records.len(),
{
    if records.len() == 0 {
        Seq::empty()
    } else {
        orphan_records(records.drop_last(), details_list) + if live_has_id(
            details_list,
            records.last().id@,
        ) {
            Seq::<DailyTicketContext>::empty()
        } else {
            seq![records.last()]
        }
    }
}

/// Reconciles every live record against the persisted snapshots, then
/// materializes each snapshot the tracker no longer reports as a ticket
/// moved out of the sprint: nothing once snapshotted is silently dropped.
///
/// `prs` is aligned with `details_list`: the pull-request status fetched for
/// each live record, `None` where the record names none.
pub fn reconcile_tickets(
    details_list: Vec<TicketDetails>,
    prs: Vec<Option<PullRequest>>,
    previous: &DailyTicketContexts,
    current_sprint_name: &str,
    history: &CumulativeSprintContexts,
    user_mapping: &Vec<(String, String)>,
    today: &str,
) -> (r: Vec<Ticket>)
    requires
        prs@.len() == details_list@.len(),
    ensures
        r@.len() == details_list@.len() + orphan_records(previous.tickets@, details_list@).len(),
        forall|i: int|
            0 <= i < details_list@.len() ==> reconciles(
                details_list@[i],
                prs@[i],
                find_record(previous.tickets@, details_list@[i].id@),
                current_sprint_name@,
                history.history@,
                user_mapping@,
                today@,
                #[trigger] r@[i],
            ),
        forall|k: int|
            details_list@.len() <= k < r@.len() ==> orphan_of(
                orphan_records(previous.tickets@, details_list@)[k - details_list@.len()],
                #[trigger] r@[k],
            ),
{
    let ghost orig_details = details_list@;
    let ghost orig_prs = prs@;
    let ghost n = orig_details.len() as int;
    let mut details_rest = details_list;
    let mut prs_rest = prs;
    let mut result: Vec<Ticket> = Vec::new();
    let mut ids: Vec<String> = Vec::new();

    while details_rest.len() > 0
        invariant
            n == orig_details.len(),
            n == orig_prs.len(),
            prs_rest@.len() == details_rest@.len(),
            result@.len() + details_rest@.len() == n,
            result@.len() == ids@.len(),
            forall|i: int|
                0 <= i < details_rest@.len() ==> #[trigger] details_rest@[i] == orig_details[
                    result@.len() + i
                ],
            forall|i: int|
                0 <= i < prs_rest@.len() ==> #[trigger] prs_rest@[i] == orig_prs[result@.len()
                    + i],
            forall|i: int| 0 <= i < ids@.len() ==> #[trigger] ids@[i]@ == orig_details[i].id@,
            forall|i: int|
                0 <= i < result@.len() ==> reconciles(
                    orig_details[i],
                    orig_prs[i],
                    find_record(previous.tickets@, orig_details[i].id@),
                    current_sprint_name@,
                    history.history@,
                    user_mapping@,
                    today@,
                    #[trigger] result@[i],
                ),
        decreases details_rest@.len(),
    {
        let ghost done = result@.len() as int;
        proof {
            assert(details_rest@[0] == orig_details[done]);
            assert(prs_rest@[0] == orig_prs[done]);
        }
        let details = details_rest.remove(0);
        let pr = prs_rest.remove(0);
        let ghost gdetails = details;
        let ghost gpr = pr;
        let id = details.id.clone();
        ids.push(id);
        let prev = find_previous(previous, details.id.as_str());
        let ticket = reconcile_ticket(
            details,
            pr,
            prev,
            current_sprint_name,
            history,
            user_mapping,
            today,
        );
        proof {
            assert(gdetails == orig_details[done]);
            assert(gpr == orig_prs[done]);
            assert(reconciles(
                orig_details[done],
                orig_prs[done],
                find_record(previous.tickets@, orig_details[done].id@),
                current_sprint_name@,
                history.history@,
                user_mapping@,
                today@,
                ticket,
            ));
        }
        result.push(ticket);
    }

    let mut oi: usize = 0;
    let ghost base = orig_details.len() as int;
    while oi < previous.tickets.len()
        invariant
            oi <= previous.tickets@.len(),
            base == orig_details.len(),
            result@.len() == base + orphan_records(
                previous.tickets@.subrange(0, oi as int),
                orig_details,
            ).len(),
            ids@.len() == orig_details.len(),
            forall|i: int| 0 <= i < ids@.len() ==> #[trigger] ids@[i]@ == orig_details[i].id@,
            forall|i: int|
                0 <= i < base ==> reconciles(
                    orig_details[i],
                    orig_prs[i],
                    find_record(previous.tickets@, orig_details[i].id@),
                    current_sprint_name@,
                    history.history@,
                    user_mapping@,
                    today@,
                    #[trigger] result@[i],
                ),
            forall|k: int|
                base <= k < result@.len() ==> orphan_of(
                    orphan_records(previous.tickets@.subrange(0, oi as int), orig_details)[k
                        - base],
                    #[trigger] result@[k],
                ),
        decreases previous.tickets@.len() - oi,
    {
        let record = &previous.tickets[oi];
        let mut found = false;
        let mut j: usize = 0;
        while j < ids.len()
            invariant
                j <= ids@.len(),
                ids@.len() == orig_details.len(),
                forall|i: int| 0 <= i < ids@.len() ==> #[trigger] ids@[i]@ == orig_details[i].id@,
                found ==> live_has_id(orig_details, record.id@),
                !found ==> forall|i: int| 0 <= i < j ==> #[trigger] ids@[i]@ != record.id@,
            decreases ids@.len() - j,
        {
            if str_eq(ids[j].as_str(), record.id.as_str()) {
                proof {
                    assert(orig_details[j as int].id@ == record.id@);
                }
                found = true;
            }
            j += 1;
        }
        proof {
            if !found {
                assert forall|i: int|
                    0 <= i < orig_details.len() implies #[trigger] orig_details[i].id@
                    != record.id@ by {
                    assert(ids@[i]@ == orig_details[i].id@);
                    assert(ids@[i]@ != record.id@);
                }
                assert(!live_has_id(orig_details, record.id@));
            }
            assert(previous.tickets@.subrange(0, oi + 1 as int).drop_last() =~= previous.tickets@
                .subrange(0, oi as int));
            assert(previous.tickets@.subrange(0, oi + 1 as int).last() == previous.tickets@[
            oi as int]);
        }
        if !found {
            let orphan = crate::ticket::from_daily_context(record);
            result.push(orphan);
        }
        oi += 1;
    }
    proof {
        assert(previous.tickets@.subrange(0, previous.tickets@.len() as int)
            =~= previous.tickets@);
    }
    result
}

/// One reconciliation run end to end: reconcile the live records against the
/// snapshots, then classify what came out.
pub fn build_ticket_summary(
    details_list: Vec<TicketDetails>,
    prs: Vec<Option<PullRequest>>,
    previous: &DailyTicketContexts,
    current_sprint_name: &str,
    history: &CumulativeSprintContexts,
    user_mapping: &Vec<(String, String)>,
    today: &str,
) -> (r: TicketSummary)
    requires
        prs@.len() == details_list@.len(),
        details_list@.len() + previous.tickets@.len() <= u32::MAX,
    ensures
        exists|tickets: Seq<Ticket>|
            {
                &&& #[trigger] r.classifies(tickets)
                &&& tickets.len() == details_list@.len() + orphan_records(
                    previous.tickets@,
                    details_list@,
                ).len()
                &&& forall|i: int|
                    0 <= i < details_list@.len() ==> reconciles(
                        details_list@[i],
                        prs@[i],
                        find_record(previous.tickets@, details_list@[i].id@),
                        current_sprint_name@,
                        history.history@,
                        user_mapping@,
                        today@,
                        #[trigger] tickets[i],
                    )
                &&& forall|k: int|
                    details_list@.len() <= k < tickets.len() ==> orphan_of(
                        orphan_records(previous.tickets@, details_list@)[k
                            - details_list@.len()],
                        #[trigger] tickets[k],
                    )
            },
{
    let ghost n_details = details_list@.len();
    proof {
        lemma_orphan_records_len(previous.tickets@, details_list@);
    }
    let tickets = reconcile_tickets(
        details_list,
        prs,
        previous,
        current_sprint_name,
        history,
        user_mapping,
        today,
    );
    let ghost tickets_view = tickets@;
    let summary = TicketSummary::from_tickets(tickets);
    proof {
        assert(summary.classifies(tickets_view));
    }
    summary
}

/// There are never more orphans than snapshots.
proof fn lemma_orphan_records_len(
    records: Seq<DailyTicketContext>,
    details_list: Seq<TicketDetails>,
)
    ensures
        orphan_records(records, details_list).len() <= records.len(),
    decreases records.len(),
{
    if records.len() > 0 {
        lemma_orphan_records_len(records.drop_last(), details_list);
    }
}

} // verus!

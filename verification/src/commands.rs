//! The sprint commands and the state changes each one entails. Deciding is
//! separated from doing: `save_sprint_state` applies the in-memory mutations
//! and returns a plan naming the writes and scheduler changes the caller must
//! perform, in the order listed.

use vstd::prelude::*;

use crate::dates::{day_number_of, days_between_strs};
use crate::records::{ActiveSprintContext, CumulativeSprintContext, CumulativeSprintContexts,
    DailyTicketContexts};
use crate::summary::TicketSummary;

verus! {

/// A parsed, validated instruction to the engine.
#[derive(Debug, PartialEq, Eq)]
pub enum SprintCommand {
    SprintPreview { sprint_name: String, end_date: String, channel_id: String },
    SprintKickoff { sprint_name: String, end_date: String, channel_id: String },
    SprintCheckIn,
    SprintEnd,
    SprintCancel,
    DailySummary,
    SprintReview,
}

/// A rejected trigger or command, with the reason shown to the user.
#[derive(Debug, PartialEq, Eq)]
pub enum SprintCommandError {
    SprintAlreadyInProgress { sprint_name: String },
    InvalidCommand,
    NoSprintInProgress,
    NotEnoughArguments,
    InvalidDate,
    SprintNameAlreadyUsed { sprint_name: String },
    MissingActiveContext,
}

impl SprintCommandError {
    /// The user-facing text of each rejection.
    pub open spec fn spec_message(&self) -> Seq<char> {
        match self {
            SprintCommandError::SprintAlreadyInProgress { sprint_name } => "Sprint "@
                + sprint_name@ + " already in progress"@,
            SprintCommandError::InvalidCommand => "Invalid command"@,
            SprintCommandError::NoSprintInProgress => "No sprint in progress"@,
            SprintCommandError::NotEnoughArguments => "Text field does not contain enough parts"@,
            SprintCommandError::InvalidDate => "Failed to parse date"@,
            SprintCommandError::SprintNameAlreadyUsed { sprint_name } => "Sprint name "@
                + sprint_name@ + " was already used"@,
            SprintCommandError::MissingActiveContext => "Active sprint context is required for this operation."@,
        }
    }

    /// Renders the rejection for the user.
    pub fn message(&self) -> (r: String)
        ensures
            r@ == self.spec_message(),
    {
        match self {
            SprintCommandError::SprintAlreadyInProgress { sprint_name } => {
                let mut s = "Sprint ".to_owned();
                s.append(sprint_name.as_str());
                s.append(" already in progress");
                proof {
                    reveal_strlit("Sprint ");
                    reveal_strlit(" already in progress");
                    assert(s@ =~= self.spec_message());
                }
                s
            },
            SprintCommandError::InvalidCommand => "Invalid command".to_owned(),
            SprintCommandError::NoSprintInProgress => "No sprint in progress".to_owned(),
            SprintCommandError::NotEnoughArguments => {
                "Text field does not contain enough parts".to_owned()
            },
            SprintCommandError::InvalidDate => "Failed to parse date".to_owned(),
            SprintCommandError::SprintNameAlreadyUsed { sprint_name } => {
                let mut s = "Sprint name ".to_owned();
                s.append(sprint_name.as_str());
                s.append(" was already used");
                proof {
                    reveal_strlit("Sprint name ");
                    reveal_strlit(" was already used");
                    assert(s@ =~= self.spec_message());
                }
                s
            },
            SprintCommandError::MissingActiveContext => {
                "Active sprint context is required for this operation.".to_owned()
            },
        }
    }
}

/// One scheduler reconfiguration the caller must perform.
#[derive(Clone, Debug, PartialEq, Eq)]
pub enum SchedulerAction {
    CreateRule { rule_name: String, cron: String },
    ChangeRule { rule_name: String, cron: String },
    DeleteRule { rule_name: String },
}

/// The writes and scheduler changes a command entails, to be performed in
/// the order given: scheduler actions may come before or after the writes,
/// but the snapshot write must follow the history write.
#[derive(Debug)]
pub struct SprintStateUpdate {
    pub new_sprint_context: Option<ActiveSprintContext>,
    pub persist_snapshot: Option<DailyTicketContexts>,
    pub persist_history: bool,
    pub clear_sprint_context: bool,
    pub scheduler_actions: Vec<SchedulerAction>,
}

/// Whether exactly one day remains between `today` and the sprint's end.
pub open spec fn one_day_left(ctx: ActiveSprintContext, today: Seq<char>) -> bool {
    &&& day_number_of(today) is Some
    &&& day_number_of(ctx.end_date@) is Some
    &&& day_number_of(ctx.end_date@).unwrap() - day_number_of(today).unwrap() == 1
}

/// The history entry appended when a sprint closes: the sprint's identity,
/// its completion ratio and count, and how far the open and in-scope counts
/// moved against their values at kickoff.
pub open spec fn closing_record(
    summary: TicketSummary,
    ctx: ActiveSprintContext,
    rec: CumulativeSprintContext,
) -> bool {
    &&& rec.name@ == ctx.name@
    &&& rec.start_date@ == ctx.start_date@
    &&& rec.end_date@ == ctx.end_date@
    &&& (summary.sprint_ticket_count == 0 ==> rec.percent_complete_hundredths is None)
    &&& (summary.sprint_ticket_count > 0 ==> (rec.percent_complete_hundredths matches Some(h)
        && h as int == (20000 * summary.completed_tickets@.len() + summary.sprint_ticket_count) / (
        2 * summary.sprint_ticket_count as int)))
    &&& rec.completed_tickets_count == summary.completed_tickets@.len()
    &&& rec.open_tickets_added_count == summary.open_ticket_count
        - ctx.open_tickets_count_beginning
    &&& rec.tickets_added_to_scope_count == summary.sprint_ticket_count
        - ctx.in_scope_tickets_count_beginning
}

/// A plan that touches nothing.
pub open spec fn empty_plan(plan: SprintStateUpdate) -> bool {
    &&& plan.new_sprint_context is None
    &&& plan.persist_snapshot is None
    &&& !plan.persist_history
    &&& !plan.clear_sprint_context
    &&& plan.scheduler_actions@.len() == 0
}

impl SprintCommand {
    /// Decides the persisted-state changes and scheduler reconfiguration a
    /// command entails, applying the in-memory mutations (the history append
    /// at sprint close, and the clearing of the completed and deferred
    /// buckets) on the way.
    ///
    /// A kickoff plans the new context, a daily rule for the sprint, and the
    /// snapshot write; a daily summary plans the snapshot write and, with one
    /// day left, the switch of the rule to the review cadence; cancel, end
    /// and review delete the rule and clear the context, end and review
    /// additionally closing the books: history appended, completed and
    /// deferred buckets cleared, snapshot written. Preview and check-in touch
    /// nothing. Cancel, end and review without an active sprint are rejected,
    /// and nothing changes.
    pub fn save_sprint_state(
        &self,
        ticket_summary: &mut TicketSummary,
        active_sprint_context: &Option<ActiveSprintContext>,
        cumulative_sprint_contexts: &mut CumulativeSprintContexts,
        trello_board: &str,
        today: &str,
    ) -> (r: Result<SprintStateUpdate, SprintCommandError>)
        requires
            old(ticket_summary).completed_tickets@.len() <= old(ticket_summary).sprint_ticket_count,
            *self is DailySummary ==> active_sprint_context is Some,
        ensures
            r is Err <==> ((*self is SprintCancel || *self is SprintEnd
                || *self is SprintReview) && active_sprint_context is None),
            r matches Err(e) ==> e is MissingActiveContext && *final(ticket_summary) == *old(ticket_summary) && final(cumulative_sprint_contexts).history@ == old(cumulative_sprint_contexts).history@,
            (*self is SprintPreview || *self is SprintCheckIn) ==> (r matches Ok(plan)
                && empty_plan(plan) && *final(ticket_summary) == *old(ticket_summary) && final(cumulative_sprint_contexts).history@ == old(cumulative_sprint_contexts).history@),
            (*self matches SprintCommand::SprintKickoff { sprint_name, end_date, channel_id }
                ==> (r matches Ok(plan) && {
                &&& plan.new_sprint_context matches Some(ctx) && {
                    &&& ctx.name@ == sprint_name@
                    &&& ctx.start_date@ == today@
                    &&& ctx.end_date@ == end_date@
                    &&& ctx.channel_id@ == channel_id@
                    &&& ctx.trello_board@ == trello_board@
                    &&& ctx.open_tickets_count_beginning == old(ticket_summary).open_ticket_count
                    &&& ctx.in_scope_tickets_count_beginning == old(ticket_summary).sprint_ticket_count
                }
                &&& plan.persist_snapshot matches Some(sn) && TicketSummary::is_snapshot_of(
                    sn,
                    *old(ticket_summary),
                )
                &&& !plan.persist_history
                &&& !plan.clear_sprint_context
                &&& plan.scheduler_actions@.len() == 1
                &&& (plan.scheduler_actions@[0] matches SchedulerAction::CreateRule {
                    rule_name,
                    cron,
                } && rule_name@ == sprint_name@ && cron@ == "cron(0 3 * * ? *)"@)
                &&& *final(ticket_summary) == *old(ticket_summary)
                &&& final(cumulative_sprint_contexts).history@ == old(cumulative_sprint_contexts).history@
            })),
            (*self is DailySummary ==> (r matches Ok(plan)
                && active_sprint_context matches Some(ctx) && {
                &&& plan.new_sprint_context is None
                &&& plan.persist_snapshot matches Some(sn) && TicketSummary::is_snapshot_of(
                    sn,
                    *old(ticket_summary),
                )
                &&& !plan.persist_history
                &&& !plan.clear_sprint_context
                &&& (one_day_left(*ctx, today@) ==> plan.scheduler_actions@.len() == 1 && (
                plan.scheduler_actions@[0] matches SchedulerAction::ChangeRule { rule_name, cron }
                    && rule_name@ == ctx.name@ && cron@ == "cron(0 4 * * ? *)"@))
                &&& (!one_day_left(*ctx, today@) ==> plan.scheduler_actions@.len() == 0)
                &&& *final(ticket_summary) == *old(ticket_summary)
                &&& final(cumulative_sprint_contexts).history@ == old(cumulative_sprint_contexts).history@
            })),
            ((*self is SprintCancel && active_sprint_context is Some) ==> (r matches Ok(plan)
                && active_sprint_context matches Some(ctx) && {
                &&& plan.new_sprint_context is None
                &&& plan.persist_snapshot is None
                &&& !plan.persist_history
                &&& plan.clear_sprint_context
                &&& plan.scheduler_actions@.len() == 1
                &&& (plan.scheduler_actions@[0] matches SchedulerAction::DeleteRule { rule_name }
                    && rule_name@ == ctx.name@)
                &&& *final(ticket_summary) == *old(ticket_summary)
                &&& final(cumulative_sprint_contexts).history@ == old(cumulative_sprint_contexts).history@
            })),
            (((*self is SprintEnd || *self is SprintReview) && active_sprint_context is Some)
                ==> (r matches Ok(plan) && active_sprint_context matches Some(ctx) && {
                &&& plan.new_sprint_context is None
                &&& plan.persist_history
                &&& plan.clear_sprint_context
                &&& plan.scheduler_actions@.len() == 1
                &&& (plan.scheduler_actions@[0] matches SchedulerAction::DeleteRule { rule_name }
                    && rule_name@ == ctx.name@)
                &&& final(cumulative_sprint_contexts).history@.len() == old(cumulative_sprint_contexts).history@.len() + 1
                &&& final(cumulative_sprint_contexts).history@ == old(cumulative_sprint_contexts).history@.push(final(cumulative_sprint_contexts).history@.last())
                &&& closing_record(
                    *old(ticket_summary),
                    *ctx,
                    final(cumulative_sprint_contexts).history@.last(),
                )
                &&& final(ticket_summary).completed_tickets@.len() == 0
                &&& final(ticket_summary).deferred_tickets@.len() == 0
                &&& final(ticket_summary).demoes == old(ticket_summary).demoes
                &&& final(ticket_summary).blocked_prs == old(ticket_summary).blocked_prs
                &&& final(ticket_summary).open_prs == old(ticket_summary).open_prs
                &&& final(ticket_summary).open_tickets == old(ticket_summary).open_tickets
                &&& final(ticket_summary).sprint_ticket_count == old(ticket_summary).sprint_ticket_count
                &&& final(ticket_summary).open_ticket_count == old(ticket_summary).open_ticket_count
                &&& plan.persist_snapshot matches Some(sn) && TicketSummary::is_snapshot_of(
                    sn,
                    *final(ticket_summary),
                )
            })),
    {
        match self {
            SprintCommand::SprintKickoff { sprint_name, end_date, channel_id } => {
                let new_sprint_context = ActiveSprintContext {
                    name: sprint_name.clone(),
                    start_date: today.to_owned(),
                    end_date: end_date.clone(),
                    channel_id: channel_id.clone(),
                    trello_board: trello_board.to_owned(),
                    open_tickets_count_beginning: ticket_summary.open_ticket_count,
                    in_scope_tickets_count_beginning: ticket_summary.sprint_ticket_count,
                };
                let mut scheduler_actions: Vec<SchedulerAction> = Vec::new();
                scheduler_actions.push(
                    SchedulerAction::CreateRule {
                        rule_name: sprint_name.clone(),
                        cron: "cron(0 3 * * ? *)".to_owned(),
                    },
                );
                let snapshot = ticket_summary.to_daily_contexts();
                Ok(
                    SprintStateUpdate {
                        new_sprint_context: Some(new_sprint_context),
                        persist_snapshot: Some(snapshot),
                        persist_history: false,
                        clear_sprint_context: false,
                        scheduler_actions,
                    },
                )
            },
            SprintCommand::DailySummary => {
                let snapshot = ticket_summary.to_daily_contexts();
                let mut scheduler_actions: Vec<SchedulerAction> = Vec::new();
                let context = match active_sprint_context {
                    Some(c) => c,
                    None => {
                        proof {
                            assert(false);
                        }
                        return Err(SprintCommandError::MissingActiveContext);
                    },
                };
                let one_day = match days_between_strs(today, context.end_date.as_str()) {
                    Some(d) => d == 1,
                    None => false,
                };
                if one_day {
                    scheduler_actions.push(
                        SchedulerAction::ChangeRule {
                            rule_name: context.name.clone(),
                            cron: "cron(0 4 * * ? *)".to_owned(),
                        },
                    );
                }
                Ok(
                    SprintStateUpdate {
                        new_sprint_context: None,
                        persist_snapshot: Some(snapshot),
                        persist_history: false,
                        clear_sprint_context: false,
                        scheduler_actions,
                    },
                )
            },
            SprintCommand::SprintCancel | SprintCommand::SprintEnd | SprintCommand::SprintReview
            => {
                let context = match active_sprint_context {
                    Some(c) => c,
                    None => {
                        return Err(SprintCommandError::MissingActiveContext);
                    },
                };
                let mut scheduler_actions: Vec<SchedulerAction> = Vec::new();
                scheduler_actions.push(
                    SchedulerAction::DeleteRule { rule_name: context.name.clone() },
                );
                let closes_books = matches!(
                    self,
                    SprintCommand::SprintEnd | SprintCommand::SprintReview
                );
                if closes_books {
                    let open_tickets_added_count: i64 = (ticket_summary.open_ticket_count as i64)
                        - (context.open_tickets_count_beginning as i64);
                    let tickets_added_to_scope_count: i64 = (ticket_summary.sprint_ticket_count
                        as i64) - (context.in_scope_tickets_count_beginning as i64);
                    let record = CumulativeSprintContext {
                        name: context.name.clone(),
                        start_date: context.start_date.clone(),
                        end_date: context.end_date.clone(),
                        percent_complete_hundredths:
                            ticket_summary.completed_percentage_hundredths(),
                        completed_tickets_count: ticket_summary.completed_tickets.len() as u32,
                        tickets_added_to_scope_count,
                        open_tickets_added_count,
                    };
                    cumulative_sprint_contexts.history.push(record);
                    ticket_summary.clear_completed_and_deferred();
                    let snapshot = ticket_summary.to_daily_contexts();
                    Ok(
                        SprintStateUpdate {
                            new_sprint_context: None,
                            persist_snapshot: Some(snapshot),
                            persist_history: true,
                            clear_sprint_context: true,
                            scheduler_actions,
                        },
                    )
                } else {
                    Ok(
                        SprintStateUpdate {
                            new_sprint_context: None,
                            persist_snapshot: None,
                            persist_history: false,
                            clear_sprint_context: true,
                            scheduler_actions,
                        },
                    )
                }
            },
            SprintCommand::SprintPreview { .. } | SprintCommand::SprintCheckIn => Ok(
                SprintStateUpdate {
                    new_sprint_context: None,
                    persist_snapshot: None,
                    persist_history: false,
                    clear_sprint_context: false,
                    scheduler_actions: Vec::new(),
                },
            ),
        }
    }
}

} // verus!

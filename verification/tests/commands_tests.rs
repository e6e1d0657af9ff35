//! The lifecycle orchestrator: what each command persists, schedules and
//! clears, and the report each command composes.

use std::collections::VecDeque;

use chrono_tz::US::Pacific;
use sprint_summary::commands::{SchedulerAction, SprintCommand, SprintCommandError};
use sprint_summary::dates::current_date;
use sprint_summary::records::{ActiveSprintContext, CumulativeSprintContexts,
    DailyTicketContexts};
use sprint_summary::report::{ReportBlock, ReportElement};
use sprint_summary::summary::TicketSummary;
use sprint_summary::ticket::{PullRequest, Ticket, TicketDetails};
use sprint_summary::ticket_state::TicketState;

fn default_pr() -> PullRequest {
    PullRequest {
        is_draft: false,
        comments: 3,
        merged: false,
        mergeable: Some(true),
        failing_check_runs: vec![],
        state: "success".to_string(),
        action_required_check_runs: vec![],
    }
}

fn mock_ticket(name: &str) -> Ticket {
    Ticket {
        moved_out_of_sprint: false,
        sprint_age: 1,
        added_on: "04/20/24".to_string(),
        is_new: false,
        details: TicketDetails {
            name: name.to_string(),
            url: "http://example.com/mock_ticket".to_string(),
            state: TicketState::InProgress,
            has_description: false,
            has_labels: false,
            checklist_items: 5,
            checked_checklist_items: 3,
            member_ids: vec![],
            id: "abc123".to_string(),
            labels: vec![],
            pr_url: Some("http://github.com/example".to_string()),
            dependency_of: None,
        },
        members: vec![],
        pr: Some(default_pr()),
        added_in_sprint: "testsprint".to_string(),
        last_moved_on: "03/20/24".to_string(),
    }
}

fn default_summary() -> TicketSummary {
    TicketSummary {
        completed_tickets: VecDeque::from(vec![mock_ticket("Completed Ticket")]),
        demoes: VecDeque::from(vec![mock_ticket("Ticket To Demo")]),
        blocked_prs: VecDeque::from(vec![mock_ticket("Blocked Ticket")]),
        open_prs: VecDeque::from(vec![mock_ticket("Needs Review Ticket")]),
        open_tickets: VecDeque::from(vec![mock_ticket("Open Ticket")]),
        deferred_tickets: VecDeque::from(vec![mock_ticket("Deferred Ticket")]),
        project_ticket_count: 10,
        open_ticket_count: 20,
        sprint_ticket_count: 15,
        project_ticket_count_in_scope: 80,
    }
}

fn default_context() -> ActiveSprintContext {
    ActiveSprintContext {
        start_date: "02/20/23".to_string(),
        end_date: "02/28/23".to_string(),
        name: "Sprint 1".to_string(),
        channel_id: "C123456".to_string(),
        trello_board: "testboard".to_string(),
        open_tickets_count_beginning: 0,
        in_scope_tickets_count_beginning: 0,
    }
}

fn empty_daily() -> DailyTicketContexts {
    DailyTicketContexts { tickets: VecDeque::new() }
}

fn pacific_date(days_from_now: i64) -> String {
    (chrono::Local::now().with_timezone(&Pacific) + chrono::Duration::days(days_from_now))
        .format("%m/%d/%y")
        .to_string()
}

fn block_text(block: &ReportBlock) -> String {
    match block {
        ReportBlock::Header { text } => text.clone(),
        ReportBlock::Section { text } => text.clone(),
        ReportBlock::Context { text } => text.clone(),
        ReportBlock::Divider => String::new(),
        ReportBlock::TicketList { items } => {
            let mut all = String::new();
            for line in items {
                for element in line {
                    match element {
                        ReportElement::Text { text, .. } => all.push_str(text),
                        ReportElement::Link { text, url, .. } => {
                            all.push_str(text);
                            all.push_str(url);
                        },
                        ReportElement::User { user_id } => all.push_str(user_id),
                    }
                }
            }
            all
        },
        ReportBlock::Button { label, action_id, value } => {
            let mut all = label.clone();
            all.push_str(action_id);
            all.push_str(value);
            all
        },
    }
}

fn blocks_contain(blocks: &[ReportBlock], needle: &str) -> bool {
    blocks.iter().any(|b| block_text(b).contains(needle))
}

#[test]
fn test_sprint_preview_message() {
    let ticket_summary = default_summary();
    let history = CumulativeSprintContexts { history: vec![] };
    let active = Some(default_context());
    let daily = empty_daily();
    let event = SprintCommand::SprintPreview {
        sprint_name: "My Sprint".to_string(),
        end_date: "12/31/23".to_string(),
        channel_id: "XYZ123".to_string(),
    };

    let result = event
        .create_sprint_message(&ticket_summary, &active, &history, &daily, "TestBoardID",
            &current_date())
        .unwrap();
    assert!(blocks_contain(&result, "Sprint Preview"));
    assert!(blocks_contain(&result, "View sprint board"));
    assert!(blocks_contain(&result, "tickets will be carried over from last sprint."));
}

#[test]
fn test_sprint_kickoff_saves_data() {
    let mut ticket_summary = default_summary();
    let mut history = CumulativeSprintContexts { history: vec![] };
    let end_date = pacific_date(10);
    let event = SprintCommand::SprintKickoff {
        sprint_name: "New Sprint".to_string(),
        end_date: end_date.clone(),
        channel_id: "XYZ123".to_string(),
    };

    let plan = event
        .save_sprint_state(&mut ticket_summary, &None, &mut history, "YourTrelloBoardID",
            &current_date())
        .unwrap();

    let ctx = plan.new_sprint_context.expect("a kickoff persists a new context");
    assert_eq!(ctx.name, "New Sprint");
    assert_eq!(ctx.start_date, current_date());
    assert_eq!(ctx.end_date, end_date);
    assert_eq!(ctx.channel_id, "XYZ123");
    assert_eq!(ctx.trello_board, "YourTrelloBoardID");
    assert_eq!(ctx.open_tickets_count_beginning, 20);
    assert_eq!(ctx.in_scope_tickets_count_beginning, 15);
    assert!(plan.persist_snapshot.is_some());
    assert_eq!(
        plan.scheduler_actions,
        vec![SchedulerAction::CreateRule {
            rule_name: "New Sprint".to_string(),
            cron: "cron(0 3 * * ? *)".to_string(),
        }]
    );
}

#[test]
fn test_sprint_cancel_clears_data() {
    let mut ticket_summary = default_summary();
    let mut history = CumulativeSprintContexts { history: vec![] };
    let active = Some(default_context());
    let event = SprintCommand::SprintCancel;

    let plan = event
        .save_sprint_state(&mut ticket_summary, &active, &mut history, "testboard",
            &current_date())
        .unwrap();

    assert!(plan.clear_sprint_context);
    let mut stored_context = active.clone();
    if plan.clear_sprint_context {
        stored_context = None;
    }
    assert_eq!(stored_context.map(|c| c.name), None);
    assert!(plan.persist_snapshot.is_none(), "A cancelled sprint saves no progress");
    assert_eq!(
        plan.scheduler_actions,
        vec![SchedulerAction::DeleteRule { rule_name: "Sprint 1".to_string() }]
    );
}

#[test]
fn test_daily_summary_saves_ticket_data() {
    let mut ticket_summary = default_summary();
    let mut history = CumulativeSprintContexts { history: vec![] };
    let active = Some(default_context());
    let event = SprintCommand::DailySummary;

    let plan = event
        .save_sprint_state(&mut ticket_summary, &active, &mut history, "testboard",
            &current_date())
        .unwrap();
    assert!(plan.persist_snapshot.is_some());
}

#[test]
fn test_daily_summary_updates_trigger_rule_before_deadline() {
    let mut ticket_summary = default_summary();
    let mut history = CumulativeSprintContexts { history: vec![] };
    let active = Some(ActiveSprintContext {
        end_date: pacific_date(1),
        ..default_context()
    });
    let action = SprintCommand::DailySummary;

    let plan = action
        .save_sprint_state(&mut ticket_summary, &active, &mut history, "testboard",
            &current_date())
        .unwrap();
    assert_eq!(
        plan.scheduler_actions,
        vec![SchedulerAction::ChangeRule {
            rule_name: "Sprint 1".to_string(),
            cron: "cron(0 4 * * ? *)".to_string(),
        }]
    );
}

#[test]
fn test_sprint_review_clears_current_sprint_data() {
    let mut ticket_summary = default_summary();
    let mut history = CumulativeSprintContexts { history: vec![] };
    let active = Some(default_context());
    let action = SprintCommand::SprintReview;

    let plan = action
        .save_sprint_state(&mut ticket_summary, &active, &mut history, "testboard",
            &current_date())
        .unwrap();

    assert!(plan.clear_sprint_context);
    assert_eq!(
        plan.scheduler_actions,
        vec![SchedulerAction::DeleteRule { rule_name: "Sprint 1".to_string() }]
    );
    assert!(plan.persist_history);
    assert_eq!(history.history.len(), 1, "Closing a sprint appends one history entry");
    let record = &history.history[0];
    assert_eq!(record.name, "Sprint 1");
    assert_eq!(record.completed_tickets_count, 1);
    assert_eq!(record.open_tickets_added_count, 20);
    assert_eq!(record.tickets_added_to_scope_count, 15);
    assert!(ticket_summary.completed_tickets.is_empty());
    assert!(ticket_summary.deferred_tickets.is_empty());
}

#[test]
fn test_preview_and_checkin_touch_nothing() {
    let mut ticket_summary = default_summary();
    let mut history = CumulativeSprintContexts { history: vec![] };
    let active = Some(default_context());
    for event in [
        SprintCommand::SprintPreview {
            sprint_name: "P".to_string(),
            end_date: "12/31/23".to_string(),
            channel_id: "C".to_string(),
        },
        SprintCommand::SprintCheckIn,
    ] {
        let plan = event
            .save_sprint_state(&mut ticket_summary, &active, &mut history, "b", &current_date())
            .unwrap();
        assert!(plan.new_sprint_context.is_none());
        assert!(plan.persist_snapshot.is_none());
        assert!(!plan.persist_history);
        assert!(!plan.clear_sprint_context);
        assert!(plan.scheduler_actions.is_empty());
    }
    assert!(history.history.is_empty());
}

#[test]
fn test_cancel_without_active_sprint_is_rejected() {
    let mut ticket_summary = default_summary();
    let mut history = CumulativeSprintContexts { history: vec![] };
    for event in [SprintCommand::SprintCancel, SprintCommand::SprintEnd, SprintCommand::SprintReview]
    {
        let result = event.save_sprint_state(&mut ticket_summary, &None, &mut history, "b",
            &current_date());
        assert!(matches!(result, Err(SprintCommandError::MissingActiveContext)));
    }
    assert!(history.history.is_empty());
}

#[test]
fn test_sprint_review_message() {
    let ticket_summary = default_summary();
    let history = CumulativeSprintContexts { history: vec![] };
    let daily = empty_daily();
    let action = SprintCommand::SprintReview;

    let active = Some(ActiveSprintContext {
        name: "21-Pascal".to_string(),
        start_date: pacific_date(-14),
        end_date: pacific_date(0),
        ..default_context()
    });

    let result = action
        .create_sprint_message(&ticket_summary, &active, &history, &daily, "TestBoardID",
            &current_date())
        .unwrap();
    assert!(blocks_contain(&result, "Sprint 21-Pascal Review: "));
    assert!(blocks_contain(&result, "completed in 14 days."));
    assert!(blocks_contain(&result, "of sprint scope completed."));
}

#[test]
fn test_daily_summary_message() {
    let ticket_summary = default_summary();
    let active = Some(ActiveSprintContext {
        end_date: pacific_date(5),
        ..default_context()
    });
    let history = CumulativeSprintContexts { history: vec![] };
    let event = SprintCommand::DailySummary;
    let daily = empty_daily();

    let result = event
        .create_sprint_message(&ticket_summary, &active, &history, &daily, "TestBoardID",
            &current_date())
        .unwrap();
    assert!(blocks_contain(&result, "Daily Summary"));
    assert!(blocks_contain(&result, "tickets open* out of"));
    assert!(blocks_contain(&result, "5 days* remain in sprint."));
}

#[test]
fn test_message_with_unparseable_date_is_rejected() {
    let ticket_summary = default_summary();
    let history = CumulativeSprintContexts { history: vec![] };
    let daily = empty_daily();
    let event = SprintCommand::SprintPreview {
        sprint_name: "P".to_string(),
        end_date: "not-a-date".to_string(),
        channel_id: "C".to_string(),
    };
    let result = event.create_sprint_message(&ticket_summary, &None, &history, &daily, "b",
        &current_date());
    assert!(matches!(result, Err(SprintCommandError::InvalidDate)));
}

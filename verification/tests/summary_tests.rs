//! The classifier: bucketing, goal priority, the derived counters, and the
//! snapshot conversion.

use std::collections::VecDeque;

use sprint_summary::summary::{prioritized_push, TicketSummary};
use sprint_summary::ticket::{PullRequest, Ticket, TicketDetails};
use sprint_summary::ticket_label::TicketLabel;
use sprint_summary::ticket_state::TicketState;

fn default_pr() -> PullRequest {
    PullRequest {
        is_draft: false,
        comments: 3,
        merged: false,
        mergeable: Some(true),
        failing_check_runs: vec![],
        state: "success".to_string(),
        action_required_check_runs: vec![],
    }
}

fn default_details() -> TicketDetails {
    TicketDetails {
        name: "Mock Task".to_string(),
        url: "http://example.com/mock_ticket".to_string(),
        state: TicketState::InProgress,
        has_description: false,
        has_labels: false,
        checklist_items: 5,
        checked_checklist_items: 3,
        member_ids: vec![],
        id: "abc123".to_string(),
        labels: vec![],
        pr_url: Some("http://github.com/example".to_string()),
        dependency_of: None,
    }
}

fn default_ticket() -> Ticket {
    Ticket {
        moved_out_of_sprint: false,
        sprint_age: 1,
        added_on: "04/20/24".to_string(),
        is_new: false,
        details: default_details(),
        members: vec![],
        pr: Some(default_pr()),
        added_in_sprint: "testsprint".to_string(),
        last_moved_on: "03/20/24".to_string(),
    }
}

fn named(name: &str, state: TicketState) -> Ticket {
    Ticket {
        details: TicketDetails { name: name.to_string(), state, ..default_details() },
        ..default_ticket()
    }
}

fn names(bucket: &VecDeque<Ticket>) -> Vec<String> {
    bucket.iter().map(|t| t.details.name.clone()).collect()
}

#[test]
fn test_prioritized_push() {
    let mut tickets: VecDeque<Ticket> = VecDeque::new();
    let goal_ticket = Ticket {
        details: TicketDetails { labels: vec![TicketLabel::Goal], ..default_details() },
        ..default_ticket()
    };
    let normal_ticket = Ticket {
        details: TicketDetails { labels: vec![], ..default_details() },
        ..default_ticket()
    };

    prioritized_push(&mut tickets, normal_ticket);
    prioritized_push(&mut tickets, goal_ticket);

    assert_eq!(tickets.front().unwrap().is_goal(), true);
    assert_eq!(tickets.back().unwrap().is_goal(), false);
}

#[test]
fn test_clear_completed_and_deferred() {
    let tickets = vec![
        named("Done Ticket", TicketState::Done),
        Ticket { moved_out_of_sprint: true, ..named("Deferred", TicketState::InScope) },
        Ticket { pr: None, ..named("Open", TicketState::InProgress) },
    ];
    let mut summary = TicketSummary::from_tickets(tickets);
    assert!(!summary.completed_tickets.is_empty());
    assert!(!summary.deferred_tickets.is_empty());

    summary.clear_completed_and_deferred();

    assert!(summary.completed_tickets.is_empty());
    assert!(summary.deferred_tickets.is_empty());
    assert_eq!(summary.open_tickets.len(), 1);
}

#[test]
fn test_ticket_summary_from_empty_vec() {
    let summary = TicketSummary::from_tickets(vec![]);
    assert!(summary.demoes.is_empty());
    assert!(summary.blocked_prs.is_empty());
    assert!(summary.open_prs.is_empty());
    assert!(summary.open_tickets.is_empty());
    assert!(summary.deferred_tickets.is_empty());
    assert!(summary.completed_tickets.is_empty());
    assert_eq!(summary.project_ticket_count, 0);
    assert_eq!(summary.sprint_ticket_count, 0);
    assert_eq!(summary.open_ticket_count, 0);
    assert_eq!(summary.project_ticket_count_in_scope, 0);
    assert_eq!(summary.completed_percentage_hundredths(), None);

    let blocks = summary.into_slack_blocks();
    assert_eq!(blocks, vec![sprint_summary::report::ReportBlock::Divider]);

    let contexts = summary.to_daily_contexts();
    assert!(contexts.tickets.is_empty());
}

#[test]
fn test_ticket_summary_from_vec_into_slack_blocks_and_contexts() {
    let completed_ticket = named("Completed Ticket", TicketState::Done);
    let demo_ticket = named("Ticket To Demo", TicketState::DemoFinalApproval);
    let in_progress_ticket = Ticket { pr: None, ..named("In Progress Ticket", TicketState::InProgress) };
    let in_progress_goal_ticket = Ticket {
        details: TicketDetails {
            name: "In Progress Goal Ticket".to_string(),
            labels: vec![TicketLabel::Goal],
            state: TicketState::InProgress,
            ..default_details()
        },
        pr: None,
        ..default_ticket()
    };
    let draft_pr_ticket = Ticket {
        pr: Some(PullRequest { is_draft: true, ..default_pr() }),
        ..named("Draft PR Open Ticket", TicketState::InProgress)
    };
    let pr_open_ticket = Ticket {
        pr: Some(PullRequest { is_draft: false, ..default_pr() }),
        ..named("PR Open Ticket", TicketState::InProgress)
    };
    let pr_blocked_ticket = Ticket {
        pr: Some(PullRequest {
            is_draft: false,
            mergeable: Some(false),
            merged: false,
            ..default_pr()
        }),
        ..named("PR Blocked Ticket 2", TicketState::InProgress)
    };
    let in_scope_ticket = named("In Scope Ticket", TicketState::InScope);
    let in_scope_and_deferred_ticket = Ticket {
        moved_out_of_sprint: true,
        ..named("Ticket Moved To In Scope", TicketState::InScope)
    };
    let deferred_ticket = Ticket {
        moved_out_of_sprint: true,
        ..named("Deferred Ticket", TicketState::InProgress)
    };

    let tickets = vec![
        completed_ticket,
        demo_ticket,
        in_progress_ticket,
        in_progress_goal_ticket,
        draft_pr_ticket,
        pr_open_ticket,
        pr_blocked_ticket,
        in_scope_and_deferred_ticket,
        deferred_ticket,
        in_scope_ticket,
    ];

    let summary = TicketSummary::from_tickets(tickets);

    assert_eq!(summary.project_ticket_count, 10, "Total number of tickets should be 10");
    assert_eq!(
        summary.project_ticket_count_in_scope, 2,
        "Total number of in-scope tickets should be 2"
    );
    assert_eq!(summary.sprint_ticket_count, 9, "Total number of sprint tickets should be 9");
    assert_eq!(summary.open_ticket_count, 6, "Total number of open tickets should be 6");
    assert_eq!(
        summary.completed_percentage_hundredths(),
        Some(1111),
        "Completed percentage should match completed over sprint scope"
    );
    assert_eq!(names(&summary.completed_tickets), vec!["Completed Ticket"]);
    assert_eq!(names(&summary.demoes), vec!["Ticket To Demo"]);
    assert_eq!(
        names(&summary.open_tickets),
        vec!["In Progress Goal Ticket", "In Progress Ticket", "Draft PR Open Ticket"],
        "Open tickets should match, goal ticket leading"
    );
    assert_eq!(names(&summary.open_prs), vec!["PR Open Ticket"]);
    assert_eq!(names(&summary.blocked_prs), vec!["PR Blocked Ticket 2"]);
    assert_eq!(
        names(&summary.deferred_tickets),
        vec!["Ticket Moved To In Scope", "Deferred Ticket"]
    );

    let contexts = summary.to_daily_contexts();
    let recorded: Vec<String> = contexts.tickets.iter().map(|r| r.name.clone()).collect();
    assert_eq!(
        recorded,
        vec![
            "PR Blocked Ticket 2",
            "PR Open Ticket",
            "In Progress Goal Ticket",
            "In Progress Ticket",
            "Draft PR Open Ticket",
            "Completed Ticket",
            "Ticket Moved To In Scope",
            "Deferred Ticket",
        ],
        "Snapshots should cover the active and closed buckets in report order"
    );
}

#[test]
fn test_bucket_count_equation() {
    let tickets = vec![
        named("a", TicketState::Done),
        named("b", TicketState::DemoFinalApproval),
        named("c", TicketState::InProgress),
        named("d", TicketState::InScope),
        Ticket { moved_out_of_sprint: true, ..named("e", TicketState::InScope) },
        named("f", TicketState::PendingRelease),
    ];
    let summary = TicketSummary::from_tickets(tickets);
    let bucket_total = summary.completed_tickets.len() + summary.demoes.len()
        + summary.blocked_prs.len() + summary.open_prs.len() + summary.open_tickets.len()
        + summary.deferred_tickets.len();
    assert_eq!(summary.sprint_ticket_count as usize, bucket_total);
    assert_eq!(
        summary.open_ticket_count as usize,
        bucket_total - summary.completed_tickets.len() - summary.deferred_tickets.len()
    );
}

//! Reconciliation: merging live records with prior snapshots, orphan
//! materialization, and the end-to-end run into a classified summary.

use std::collections::VecDeque;

use sprint_summary::dates::current_date;
use sprint_summary::reconcile::{build_ticket_summary, reconcile_ticket, reconcile_tickets};
use sprint_summary::records::{
    CumulativeSprintContext, CumulativeSprintContexts, DailyTicketContext, DailyTicketContexts,
};
use sprint_summary::ticket::{PullRequest, TicketDetails};
use sprint_summary::ticket_state::TicketState;

fn default_pr() -> PullRequest {
    PullRequest {
        is_draft: false,
        comments: 3,
        merged: false,
        mergeable: Some(true),
        failing_check_runs: vec![],
        state: "success".to_string(),
        action_required_check_runs: vec![],
    }
}

fn default_details() -> TicketDetails {
    TicketDetails {
        name: "Mock Task".to_string(),
        url: "http://example.com/mock_ticket".to_string(),
        state: TicketState::InProgress,
        has_description: false,
        has_labels: false,
        checklist_items: 5,
        checked_checklist_items: 3,
        member_ids: vec![],
        id: "abc123".to_string(),
        labels: vec![],
        pr_url: Some("http://github.com/example".to_string()),
        dependency_of: None,
    }
}

fn default_record() -> DailyTicketContext {
    DailyTicketContext {
        id: "abc123".to_string(),
        added_on: "04/01/24".to_string(),
        last_moved_on: "04/05/24".to_string(),
        added_in_sprint: "Sprint 101".to_string(),
        state: TicketState::Done,
        name: "Recorded Ticket".to_string(),
        url: "http://example.com/ticket2".to_string(),
        labels: vec![],
        dependency_of: None,
    }
}

fn default_history() -> CumulativeSprintContexts {
    let base = CumulativeSprintContext {
        name: "Sprint 101".to_string(),
        start_date: "01/01/24".to_string(),
        end_date: "02/01/24".to_string(),
        percent_complete_hundredths: Some(90),
        completed_tickets_count: 12,
        tickets_added_to_scope_count: 5,
        open_tickets_added_count: 7,
    };
    CumulativeSprintContexts {
        history: vec![
            CumulativeSprintContext { name: "Sprint 1".to_string(), ..base.clone() },
            base.clone(),
            CumulativeSprintContext { name: "Sprint 102".to_string(), ..base },
        ],
    }
}

#[test]
fn context_with_previous_version() {
    let mut ticket_details = default_details();
    ticket_details.state = TicketState::Done;
    let previous = default_record();
    let historical_records = default_history();
    let today = current_date();

    let ticket = reconcile_ticket(
        ticket_details,
        None,
        Some(&previous),
        "",
        &historical_records,
        &vec![],
        &today,
    );

    assert_eq!(ticket.added_on, "04/01/24");
    assert_eq!(ticket.last_moved_on, "04/05/24");
    assert_eq!(ticket.sprint_age, 2);
    assert_eq!(ticket.added_in_sprint, "Sprint 101");
    assert!(!ticket.is_new);
}

#[test]
fn context_with_previous_version_last_moved_updated() {
    let mut ticket_details = default_details();
    ticket_details.state = TicketState::InProgress;
    let previous = default_record();
    let historical_records = default_history();
    let today = current_date();

    let ticket = reconcile_ticket(
        ticket_details,
        None,
        Some(&previous),
        "",
        &historical_records,
        &vec![],
        &today,
    );

    assert_eq!(ticket.added_on, "04/01/24");
    assert_eq!(ticket.last_moved_on, current_date());
    assert_eq!(ticket.sprint_age, 2);
    assert_eq!(ticket.added_in_sprint, "Sprint 101");
}

#[test]
fn context_without_previous_version() {
    let ticket_details = default_details();
    let historical_records = default_history();
    let today = current_date();

    let ticket = reconcile_ticket(
        ticket_details,
        None,
        None,
        "Sprint 103",
        &historical_records,
        &vec![],
        &today,
    );

    assert_eq!(ticket.added_on, current_date());
    assert_eq!(ticket.last_moved_on, current_date());
    assert_eq!(ticket.sprint_age, 0);
    assert_eq!(ticket.added_in_sprint, "Sprint 103");
    assert!(ticket.is_new);
}

#[test]
fn reconcile_resolves_members_and_drops_unknown_ids() {
    let mut details = default_details();
    details.member_ids = vec!["trello_user1".to_string(), "stranger".to_string()];
    let mapping = vec![
        ("trello_user1".to_string(), "slack_user1".to_string()),
        ("trello_user2".to_string(), "slack_user2".to_string()),
    ];
    let today = current_date();
    let ticket = reconcile_ticket(
        details,
        None,
        None,
        "S",
        &CumulativeSprintContexts { history: vec![] },
        &mapping,
        &today,
    );
    assert_eq!(ticket.members, vec!["slack_user1".to_string()]);
}

#[test]
fn fetch_summary_combines_data_correctly() {
    let details = vec![
        TicketDetails {
            name: "Mock Task No PR".to_string(),
            pr_url: None,
            id: "mockid".to_string(),
            state: TicketState::InProgress,
            ..default_details()
        },
        TicketDetails {
            name: "Mock Task Default".to_string(),
            pr_url: Some("https://default-url.com".to_string()),
            ..default_details()
        },
        TicketDetails {
            name: "Mock Task Merged".to_string(),
            pr_url: Some("https://merged-url.com".to_string()),
            ..default_details()
        },
        TicketDetails {
            name: "Mock Task Unmergeable".to_string(),
            pr_url: Some("https://unmergeable-url.com".to_string()),
            ..default_details()
        },
    ];
    let prs = vec![
        None,
        Some(default_pr()),
        Some(PullRequest { merged: true, ..default_pr() }),
        Some(PullRequest { mergeable: None, merged: false, ..default_pr() }),
    ];
    let historical_records = default_history();
    let previous_ticket_data = DailyTicketContexts {
        tickets: VecDeque::from(vec![DailyTicketContext {
            state: TicketState::InProgress,
            last_moved_on: "04/15/24".to_string(),
            id: "mockid".to_string(),
            ..default_record()
        }]),
    };
    let today = current_date();

    let summary = build_ticket_summary(
        details,
        prs,
        &previous_ticket_data,
        "Current Sprint",
        &historical_records,
        &vec![],
        &today,
    );

    assert_eq!(summary.open_ticket_count, 4, "Total number of open tickets should be 4");

    let open_names: Vec<String> =
        summary.open_tickets.iter().map(|t| t.details.name.clone()).collect();
    assert_eq!(open_names, vec!["Mock Task No PR"], "Fetched open tickets should match");
    let carried = &summary.open_tickets[0];
    assert_eq!(carried.added_in_sprint, "Sprint 101");
    assert_eq!(carried.added_on, "04/01/24");
    assert_eq!(carried.last_moved_on, "04/15/24", "Unchanged state keeps its move date");
    assert_eq!(carried.sprint_age, 2);

    let open_pr_names: Vec<String> =
        summary.open_prs.iter().map(|t| t.details.name.clone()).collect();
    assert_eq!(
        open_pr_names,
        vec!["Mock Task Default", "Mock Task Merged"],
        "Fetched open pr tickets should match"
    );
    let fresh = &summary.open_prs[0];
    assert_eq!(fresh.added_in_sprint, "Current Sprint");
    assert_eq!(fresh.added_on, current_date());
    assert_eq!(fresh.last_moved_on, current_date());
    assert_eq!(fresh.sprint_age, 0);

    let blocked_names: Vec<String> =
        summary.blocked_prs.iter().map(|t| t.details.name.clone()).collect();
    assert_eq!(
        blocked_names,
        vec!["Mock Task Unmergeable"],
        "Fetched blocked pr tickets should match"
    );
}

#[test]
fn fetch_summary_handles_orphans_correctly() {
    let historical_records = default_history();
    let previous_ticket_data = DailyTicketContexts {
        tickets: VecDeque::from(vec![DailyTicketContext {
            id: "orphan123".to_string(),
            ..default_record()
        }]),
    };
    let today = current_date();

    let summary = build_ticket_summary(
        vec![],
        vec![],
        &previous_ticket_data,
        "CurrentSprint",
        &historical_records,
        &vec![],
        &today,
    );

    assert!(summary.deferred_tickets.iter().any(|ticket| ticket.details.id == "orphan123"));
}

#[test]
fn deferred_on_regression_lands_in_deferred() {
    let mut details = default_details();
    details.id = "regressed".to_string();
    details.state = TicketState::InScope;
    let previous = DailyTicketContext {
        id: "regressed".to_string(),
        state: TicketState::InProgress,
        ..default_record()
    };
    let previous_set = DailyTicketContexts { tickets: VecDeque::from(vec![previous]) };
    let today = current_date();

    let tickets = reconcile_tickets(
        vec![details],
        vec![None],
        &previous_set,
        "S1",
        &CumulativeSprintContexts { history: vec![] },
        &vec![],
        &today,
    );
    assert_eq!(tickets.len(), 1);
    assert!(tickets[0].moved_out_of_sprint);

    let summary = sprint_summary::summary::TicketSummary::from_tickets(tickets);
    let deferred_ids: Vec<String> =
        summary.deferred_tickets.iter().map(|t| t.details.id.clone()).collect();
    assert_eq!(deferred_ids, vec!["regressed"], "A regressed ticket is deferred, not dropped");
}

#[test]
fn end_to_end_two_ticket_run() {
    let details = vec![
        TicketDetails {
            id: "A".to_string(),
            name: "A".to_string(),
            state: TicketState::Done,
            pr_url: None,
            ..default_details()
        },
        TicketDetails {
            id: "B".to_string(),
            name: "B".to_string(),
            state: TicketState::InProgress,
            pr_url: Some("https://pr-b.example".to_string()),
            ..default_details()
        },
    ];
    let prs = vec![
        None,
        Some(PullRequest {
            is_draft: false,
            mergeable: Some(true),
            merged: false,
            failing_check_runs: vec![],
            ..default_pr()
        }),
    ];
    let empty_previous = DailyTicketContexts { tickets: VecDeque::new() };
    let today = current_date();

    let summary = build_ticket_summary(
        details,
        prs,
        &empty_previous,
        "S1",
        &CumulativeSprintContexts { history: vec![] },
        &vec![],
        &today,
    );

    assert_eq!(summary.sprint_ticket_count, 2);
    let completed: Vec<String> =
        summary.completed_tickets.iter().map(|t| t.details.id.clone()).collect();
    assert_eq!(completed, vec!["A"]);
    let open_prs: Vec<String> = summary.open_prs.iter().map(|t| t.details.id.clone()).collect();
    assert_eq!(open_prs, vec!["B"]);
    assert_eq!(summary.completed_percentage_hundredths(), Some(5000));
    let percentage = 100.0 * summary.completed_tickets.len() as f64
        / summary.sprint_ticket_count as f64;
    assert_eq!(percentage, 50.0);
}

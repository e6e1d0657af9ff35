//! Per-ticket behaviour: pull-request blocking, name annotations, readiness
//! warnings, and the ticket's report elements.

use sprint_summary::report::ReportElement;
use sprint_summary::ticket::{CheckRunDetails, PullRequest, Ticket, TicketDetails, TicketLink};
use sprint_summary::ticket_label::TicketLabel;
use sprint_summary::ticket_state::TicketState;

fn default_pr() -> PullRequest {
    PullRequest {
        is_draft: false,
        comments: 3,
        merged: false,
        mergeable: Some(true),
        failing_check_runs: vec![],
        state: "success".to_string(),
        action_required_check_runs: vec![],
    }
}

fn default_details() -> TicketDetails {
    TicketDetails {
        name: "Mock Task".to_string(),
        url: "http://example.com/mock_ticket".to_string(),
        state: TicketState::InProgress,
        has_description: false,
        has_labels: false,
        checklist_items: 5,
        checked_checklist_items: 3,
        member_ids: vec![],
        id: "abc123".to_string(),
        labels: vec![],
        pr_url: Some("http://github.com/example".to_string()),
        dependency_of: None,
    }
}

fn default_ticket() -> Ticket {
    Ticket {
        moved_out_of_sprint: false,
        sprint_age: 1,
        added_on: "04/20/24".to_string(),
        is_new: false,
        details: default_details(),
        members: vec![],
        pr: Some(default_pr()),
        added_in_sprint: "testsprint".to_string(),
        last_moved_on: "03/20/24".to_string(),
    }
}

#[test]
fn test_pr_is_blocked_merged_failing_checks() {
    let pr = PullRequest {
        failing_check_runs: vec![CheckRunDetails {
            name: "checkrun1".to_string(),
            details_url: "examplecheckrun.com".to_string(),
        }],
        merged: true,
        ..default_pr()
    };
    assert_eq!(pr.is_blocked(), false);
}

#[test]
fn test_pr_is_blocked_failing_checks() {
    let pr = PullRequest {
        failing_check_runs: vec![CheckRunDetails {
            name: "checkrun1".to_string(),
            details_url: "examplecheckrun.com".to_string(),
        }],
        ..default_pr()
    };
    assert_eq!(pr.is_blocked(), true);
}

#[test]
fn test_pr_is_blocked_mergeable() {
    let pr = PullRequest { mergeable: Some(true), merged: false, ..default_pr() };
    assert_eq!(pr.is_blocked(), false);
}

#[test]
fn test_pr_is_blocked_not_mergeable() {
    let pr = PullRequest { mergeable: None, merged: false, ..default_pr() };
    assert_eq!(pr.is_blocked(), true);
}

#[test]
fn test_pr_is_blocked_merged() {
    let pr = PullRequest { mergeable: Some(false), merged: true, ..default_pr() };
    assert_eq!(pr.is_blocked(), false);
}

#[test]
fn test_ticket_name_new_emoji_new() {
    let mut ticket = default_ticket();
    ticket.is_new = true;
    assert_eq!(ticket.ticket_name_new_emoji(), "\u{1F195}");
}

#[test]
fn test_ticket_name_new_emoji_not_new() {
    let mut ticket = default_ticket();
    ticket.is_new = false;
    assert_eq!(ticket.ticket_name_new_emoji(), "");
}

#[test]
fn test_ticket_name_age_emoji_with_age() {
    let mut ticket = default_ticket();
    ticket.sprint_age = 3;
    assert_eq!(ticket.ticket_name_age_emoji(), "\u{1F40C}\u{1F40C}\u{1F40C}");
}

#[test]
fn test_ticket_name_age_emoji_without_age() {
    let mut ticket = default_ticket();
    ticket.sprint_age = 0;
    assert_eq!(ticket.ticket_name_age_emoji(), "");
}

#[test]
fn test_ticket_name_goal_emoji_with_goal() {
    let mut ticket = default_ticket();
    ticket.details.labels = vec![TicketLabel::Goal];
    assert_eq!(ticket.ticket_name_goal_emoji(), "\u{1F3C1}");
}

#[test]
fn test_ticket_name_goal_emoji_without_goal() {
    let mut ticket = default_ticket();
    ticket.details.labels = vec![];
    assert_eq!(ticket.ticket_name_goal_emoji(), "");
}

#[test]
fn test_annotated_ticket_name_with_emojis() {
    let mut ticket = default_ticket();
    ticket.is_new = true;
    ticket.details.labels = vec![TicketLabel::Goal];
    ticket.sprint_age = 2;
    assert_eq!(
        ticket.annotated_ticket_name(),
        "\u{1F195}\u{1F40C}\u{1F40C}\u{1F3C1} Mock Task"
    );
}

#[test]
fn test_annotated_ticket_name_without_emojis() {
    let mut ticket = default_ticket();
    ticket.details.labels = vec![];
    ticket.sprint_age = 0;
    assert_eq!(ticket.annotated_ticket_name(), "Mock Task");
}

#[test]
fn test_ticket_name_block_deferred() {
    let mut ticket = default_ticket();
    ticket.moved_out_of_sprint = true;
    let blocks = ticket.into_slack_blocks();
    assert_eq!(
        blocks[0],
        ReportElement::Link {
            url: "http://example.com/mock_ticket".to_string(),
            text: "\u{1F40C} Mock Task".to_string(),
            bold: true,
            strike: true,
            code: false,
        }
    );
}

#[test]
fn test_ticket_name_block() {
    let ticket = default_ticket();
    let blocks = ticket.into_slack_blocks();
    assert_eq!(
        blocks[0],
        ReportElement::Link {
            url: "http://example.com/mock_ticket".to_string(),
            text: "\u{1F40C} Mock Task".to_string(),
            bold: true,
            strike: false,
            code: false,
        }
    );
}

#[test]
fn test_missing_assignees_warning_ignore_missing_assignees() {
    let mut ticket = default_ticket();
    ticket.details.state = TicketState::InScope;
    ticket.members = vec![];
    assert_eq!(ticket.missing_assignees_warning(), None);
}

#[test]
fn test_missing_assignees_warning_without_missing_assignees() {
    let mut ticket = default_ticket();
    ticket.details.state = TicketState::Done;
    ticket.members.push("User123".to_string());
    assert_eq!(ticket.missing_assignees_warning(), None);
}

#[test]
fn test_missing_assignees_warning_with_missing_assignees() {
    let mut ticket = default_ticket();
    ticket.details.state = TicketState::Done;
    ticket.members = vec![];
    assert_eq!(ticket.missing_assignees_warning(), Some(" | Missing Assignees".to_string()));
}

#[test]
fn test_missing_description_warning_ignore_missing_description() {
    let mut ticket = default_ticket();
    ticket.details.state = TicketState::InScope;
    ticket.details.has_description = false;
    assert_eq!(ticket.missing_description_warning(), None);
}

#[test]
fn test_missing_description_warning_without_missing_description() {
    let mut ticket = default_ticket();
    ticket.details.state = TicketState::Done;
    ticket.details.has_description = true;
    assert_eq!(ticket.missing_description_warning(), None);
}

#[test]
fn test_missing_description_warning_with_missing_description() {
    let mut ticket = default_ticket();
    ticket.details.state = TicketState::Done;
    ticket.details.has_description = false;
    assert_eq!(
        ticket.missing_description_warning(),
        Some(" | Missing Description".to_string())
    );
}

#[test]
fn test_missing_labels_warning_ignore_missing_labels() {
    let mut ticket = default_ticket();
    ticket.details.state = TicketState::InScope;
    ticket.details.has_labels = false;
    assert_eq!(ticket.missing_labels_warning(), None);
}

#[test]
fn test_missing_labels_warning_without_missing_labels() {
    let mut ticket = default_ticket();
    ticket.details.state = TicketState::Done;
    ticket.details.has_labels = true;
    assert_eq!(ticket.missing_labels_warning(), None);
}

#[test]
fn test_missing_labels_warning_with_missing_labels() {
    let mut ticket = default_ticket();
    ticket.details.state = TicketState::Done;
    ticket.details.has_labels = false;
    assert_eq!(ticket.missing_labels_warning(), Some(" | Missing Labels".to_string()));
}

#[test]
fn test_missing_pr_warning_ignore() {
    let mut ticket = default_ticket();
    ticket.details.state = TicketState::InScope;
    ticket.pr = None;
    assert_eq!(ticket.missing_pr_warning(), None);
}

#[test]
fn test_missing_pr_warning_without_missing_pr() {
    let mut ticket = default_ticket();
    ticket.details.state = TicketState::Done;
    ticket.pr = Some(default_pr());
    assert_eq!(ticket.missing_pr_warning(), None);
}

#[test]
fn test_missing_pr_warning_with_missing_pr() {
    let mut ticket = default_ticket();
    ticket.details.state = TicketState::Done;
    ticket.pr = None;
    assert_eq!(ticket.missing_pr_warning(), Some(" | Missing PR".to_string()));
}

#[test]
fn test_unmerged_pr_warning_without_pr_ignore() {
    let mut ticket = default_ticket();
    ticket.details.state = TicketState::InScope;
    ticket.pr = None;
    assert_eq!(ticket.unmerged_pr_warning(), None);
}

#[test]
fn test_unmerged_pr_warning_without_pr() {
    let mut ticket = default_ticket();
    ticket.details.state = TicketState::Done;
    ticket.pr = None;
    assert_eq!(ticket.unmerged_pr_warning(), Some(" | PR not merged".to_string()));
}

#[test]
fn test_unmerged_pr_warning_not_merged() {
    let mut ticket = default_ticket();
    ticket.details.state = TicketState::Done;
    let mut pr = default_pr();
    pr.merged = false;
    ticket.pr = Some(pr);
    assert_eq!(ticket.unmerged_pr_warning(), Some(" | PR not merged".to_string()));
}

#[test]
fn test_unmerged_pr_warning() {
    let mut ticket = default_ticket();
    ticket.details.state = TicketState::Done;
    let mut pr = default_pr();
    pr.merged = true;
    ticket.pr = Some(pr);
    assert_eq!(ticket.unmerged_pr_warning(), None);
}

#[test]
fn test_warning_blocks_with_warnings() {
    let ticket = default_ticket();
    let expected = vec![
        ReportElement::Text { text: "\n\u{26A0}\u{FE0F}".to_string(), bold: true },
        ReportElement::Text { text: " | Missing Description".to_string(), bold: true },
        ReportElement::Text { text: " | Missing Labels".to_string(), bold: true },
        ReportElement::Text { text: " | Missing Assignees".to_string(), bold: true },
    ];
    assert_eq!(ticket.warning_blocks(), expected);
}

#[test]
fn test_warning_blocks_without_warnings() {
    let mut ticket = default_ticket();
    ticket.details.has_description = true;
    ticket.details.has_labels = true;
    ticket.members = vec!["user1".to_string(), "user2".to_string()];
    ticket.pr = Some(default_pr());
    assert!(ticket.warning_blocks().is_empty());
}

#[test]
fn test_pr_link_block_draft() {
    let pr = PullRequest { is_draft: true, ..default_pr() };
    let ticket = default_ticket();
    assert_eq!(
        ticket.pr_link_block(&pr),
        ReportElement::Link {
            url: "http://github.com/example".to_string(),
            text: "\u{1F6A7} View Draft PR".to_string(),
            bold: false,
            strike: false,
            code: false,
        }
    );
}

#[test]
fn test_pr_link_block_not_draft() {
    let pr = PullRequest { is_draft: false, ..default_pr() };
    let ticket = default_ticket();
    assert_eq!(
        ticket.pr_link_block(&pr),
        ReportElement::Link {
            url: "http://github.com/example".to_string(),
            text: "View PR".to_string(),
            bold: false,
            strike: false,
            code: false,
        }
    );
}

#[test]
fn test_pr_comments_block_with_comments() {
    let pr = PullRequest { comments: 5, ..default_pr() };
    let ticket = default_ticket();
    assert_eq!(
        ticket.pr_comments_block(&pr),
        Some(ReportElement::Text { text: " | 5 \u{1F4AC}".to_string(), bold: false })
    );
}

#[test]
fn test_pr_comments_block_no_comments() {
    let pr = PullRequest { comments: 0, ..default_pr() };
    let ticket = default_ticket();
    assert_eq!(ticket.pr_comments_block(&pr), None);
}

#[test]
fn test_pr_merge_status_block_merged() {
    let pr = PullRequest { merged: true, ..default_pr() };
    let ticket = default_ticket();
    assert_eq!(
        ticket.pr_merge_status_block(&pr),
        ReportElement::Text { text: " | PR Merged \u{2714}\u{FE0F}".to_string(), bold: false }
    );
}

#[test]
fn test_pr_merge_status_block_pending_merge() {
    let pr = PullRequest { merged: false, mergeable: Some(true), ..default_pr() };
    let ticket = default_ticket();
    assert_eq!(
        ticket.pr_merge_status_block(&pr),
        ReportElement::Text { text: " | Pending Merge".to_string(), bold: false }
    );
}

#[test]
fn test_pr_merge_status_block_cannot_merge() {
    let pr = PullRequest { merged: false, mergeable: Some(false), ..default_pr() };
    let ticket = default_ticket();
    assert_eq!(
        ticket.pr_merge_status_block(&pr),
        ReportElement::Text {
            text: " | Can't Merge (see GitHub for details)".to_string(),
            bold: true,
        }
    );
}

#[test]
fn test_pr_failing_checks_block_with_failing_checks() {
    let pr = PullRequest {
        failing_check_runs: vec![CheckRunDetails {
            details_url: "http://example-check.com/2".to_string(),
            name: "CI Build Failing".to_string(),
        }],
        ..default_pr()
    };
    let ticket = default_ticket();
    let expected = vec![
        ReportElement::Text { text: " | Failing check runs: ".to_string(), bold: false },
        ReportElement::Link {
            url: "http://example-check.com/2".to_string(),
            text: "CI Build Failing".to_string(),
            bold: true,
            strike: false,
            code: true,
        },
    ];
    assert_eq!(ticket.pr_failing_checks_block(&pr), expected);
}

#[test]
fn test_pr_failing_checks_block_no_failing_checks() {
    let pr = PullRequest { failing_check_runs: vec![], ..default_pr() };
    let ticket = default_ticket();
    assert!(ticket.pr_failing_checks_block(&pr).is_empty());
}

#[test]
fn test_pr_blocks_no_pr() {
    let mut ticket = default_ticket();
    ticket.pr = None;
    assert!(ticket.pr_blocks().is_empty());
}

#[test]
fn test_pr_blocks_with_data() {
    let mut ticket = default_ticket();
    ticket.pr = Some(default_pr());
    let expected = vec![
        ReportElement::Text { text: "\n".to_string(), bold: false },
        ReportElement::Link {
            url: "http://github.com/example".to_string(),
            text: "View PR".to_string(),
            bold: false,
            strike: false,
            code: false,
        },
        ReportElement::Text { text: " | 3 \u{1F4AC}".to_string(), bold: false },
        ReportElement::Text { text: " | Pending Merge".to_string(), bold: false },
    ];
    assert_eq!(ticket.pr_blocks(), expected);
}

#[test]
fn test_dependency_blocks_exist() {
    let mut ticket = default_ticket();
    ticket.details.dependency_of = Some(TicketLink {
        name: "Greater Objective".to_string(),
        url: "test.com".to_string(),
    });
    let expected = vec![
        ReportElement::Text { text: "\n".to_string(), bold: false },
        ReportElement::Text { text: "Part of ".to_string(), bold: false },
        ReportElement::Link {
            url: "test.com".to_string(),
            text: "Greater Objective".to_string(),
            bold: false,
            strike: false,
            code: false,
        },
    ];
    assert_eq!(ticket.dependency_blocks(), expected);
}

#[test]
fn test_dependency_blocks_does_not_exist() {
    let mut ticket = default_ticket();
    ticket.details.dependency_of = None;
    assert!(ticket.dependency_blocks().is_empty());
}

#[test]
fn test_checklist_blocks_with_items() {
    let mut ticket = default_ticket();
    ticket.details.checked_checklist_items = 2;
    ticket.details.checklist_items = 3;
    let expected = vec![
        ReportElement::Text { text: "\n".to_string(), bold: false },
        ReportElement::Text { text: "2/3 completed".to_string(), bold: false },
    ];
    assert_eq!(ticket.checklist_blocks(), expected);
}

#[test]
fn test_checklist_blocks_no_items() {
    let mut ticket = default_ticket();
    ticket.details.checklist_items = 0;
    assert!(ticket.checklist_blocks().is_empty());
}

#[test]
fn test_member_blocks_with_members() {
    let mut ticket = default_ticket();
    ticket.members = vec!["User123".to_string(), "User456".to_string()];
    let expected = vec![
        ReportElement::Text { text: "\n".to_string(), bold: false },
        ReportElement::User { user_id: "User123".to_string() },
        ReportElement::User { user_id: "User456".to_string() },
    ];
    assert_eq!(ticket.member_blocks(), expected);
}

#[test]
fn test_member_blocks_no_members() {
    let mut ticket = default_ticket();
    ticket.members = vec![];
    assert!(ticket.member_blocks().is_empty());
}

#[test]
fn test_into_slack_blocks() {
    let ticket = default_ticket();
    let mut expected = vec![ReportElement::Link {
        url: "http://example.com/mock_ticket".to_string(),
        text: "\u{1F40C} Mock Task".to_string(),
        bold: true,
        strike: false,
        code: false,
    }];
    expected.extend(ticket.warning_blocks());
    expected.extend(ticket.pr_blocks());
    expected.extend(ticket.dependency_blocks());
    expected.extend(ticket.checklist_blocks());
    expected.extend(ticket.member_blocks());
    expected.push(ReportElement::Text { text: "\n\n\n".to_string(), bold: false });
    assert_eq!(ticket.into_slack_blocks(), expected);
}

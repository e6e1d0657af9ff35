//! The shared vocabulary: ticket states, their order, and the labels.

use sprint_summary::ticket_label::TicketLabel;
use sprint_summary::ticket_state::TicketState;

#[test]
fn test_state_from_str_known_names() {
    assert_eq!(TicketState::from_str("In Scope"), Some(TicketState::InScope));
    assert_eq!(
        TicketState::from_str("Investigation/Discussion"),
        Some(TicketState::InvestigationDiscussion)
    );
    assert_eq!(TicketState::from_str("In Progress"), Some(TicketState::InProgress));
    assert_eq!(TicketState::from_str("Pending Release"), Some(TicketState::PendingRelease));
    assert_eq!(
        TicketState::from_str("Demo/Final Approval"),
        Some(TicketState::DemoFinalApproval)
    );
    assert_eq!(TicketState::from_str("Done"), Some(TicketState::Done));
    assert_eq!(TicketState::from_str("Parking Lot"), None);
    assert_eq!(TicketState::from_str(""), None);
}

#[test]
fn test_state_order() {
    let states = [
        TicketState::InScope,
        TicketState::InvestigationDiscussion,
        TicketState::InProgress,
        TicketState::PendingRelease,
        TicketState::DemoFinalApproval,
        TicketState::Done,
    ];
    for pair in states.windows(2) {
        assert!(pair[0].le(pair[1]));
        assert!(pair[1].gt(pair[0]));
    }
    assert!(TicketState::InScope.le(TicketState::InScope));
    assert!(!TicketState::InScope.gt(TicketState::InScope));
}

#[test]
fn test_label_from_str_known_names() {
    assert_eq!(TicketLabel::from_str("Goal"), Some(TicketLabel::Goal));
    assert_eq!(TicketLabel::from_str("Front-End"), Some(TicketLabel::FrontEnd));
    assert_eq!(TicketLabel::from_str("Back-End"), Some(TicketLabel::BackEnd));
    assert_eq!(TicketLabel::from_str("Infra"), Some(TicketLabel::Infra));
    assert_eq!(TicketLabel::from_str("Bug"), Some(TicketLabel::Bug));
    assert_eq!(TicketLabel::from_str("Minor"), Some(TicketLabel::Minor));
    assert_eq!(TicketLabel::from_str("Blocked"), Some(TicketLabel::Blocked));
    assert_eq!(TicketLabel::from_str("Epic"), None);
}

#[test]
fn test_label_emoji() {
    assert_eq!(TicketLabel::Goal.emoji(), "\u{1F3C1}");
    assert_eq!(TicketLabel::FrontEnd.emoji(), "\u{1F4F1}");
    assert_eq!(TicketLabel::BackEnd.emoji(), "\u{1F310}");
    assert_eq!(TicketLabel::Infra.emoji(), "\u{1F527}");
    assert_eq!(TicketLabel::Bug.emoji(), "\u{1F41B}");
    assert_eq!(TicketLabel::Minor.emoji(), "\u{1FAB6}");
    assert_eq!(TicketLabel::Blocked.emoji(), "\u{1F6A7}");
}

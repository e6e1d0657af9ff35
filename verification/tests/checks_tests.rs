//! Classification of code-review check runs.

use sprint_summary::checks::{check_overall_status, GithubCheckRun, GithubCheckRuns};
use sprint_summary::ticket::CheckRunDetails;

#[test]
fn test_all_checks_succeed() {
    let checks = GithubCheckRuns {
        check_runs: vec![GithubCheckRun {
            name: "Build".to_string(),
            details_url: "http://example.com/build".to_string(),
            conclusion: Some("success".to_string()),
        }],
    };
    let (state, failing, action_required) = check_overall_status(&checks);
    assert_eq!(state, "success");
    assert!(failing.is_empty());
    assert!(action_required.is_empty());
}

#[test]
fn test_some_checks_fail() {
    let checks = GithubCheckRuns {
        check_runs: vec![GithubCheckRun {
            name: "Build".to_string(),
            details_url: "http://example.com/build".to_string(),
            conclusion: Some("failure".to_string()),
        }],
    };
    let (state, failing, action_required) = check_overall_status(&checks);
    assert_eq!(state, "failure");
    assert_eq!(
        failing[0],
        CheckRunDetails {
            name: "Build".to_string(),
            details_url: "http://example.com/build".to_string(),
        }
    );
    assert!(action_required.is_empty());
}

#[test]
fn test_some_checks_require_action() {
    let checks = GithubCheckRuns {
        check_runs: vec![GithubCheckRun {
            name: "Deploy".to_string(),
            details_url: "http://example.com/deploy".to_string(),
            conclusion: None,
        }],
    };
    let (state, failing, action_required) = check_overall_status(&checks);
    assert_eq!(state, "action_required");
    assert!(failing.is_empty());
    assert_eq!(
        action_required[0],
        CheckRunDetails {
            name: "Deploy".to_string(),
            details_url: "http://example.com/deploy".to_string(),
        }
    );
}

#[test]
fn test_mixed_results() {
    let checks = GithubCheckRuns {
        check_runs: vec![
            GithubCheckRun {
                name: "Build".to_string(),
                details_url: "http://example.com/build".to_string(),
                conclusion: Some("failure".to_string()),
            },
            GithubCheckRun {
                name: "Deploy".to_string(),
                details_url: "http://example.com/deploy".to_string(),
                conclusion: None,
            },
        ],
    };
    let (state, failing, action_required) = check_overall_status(&checks);
    assert_eq!(state, "failure");
    assert_eq!(
        failing[0],
        CheckRunDetails {
            name: "Build".to_string(),
            details_url: "http://example.com/build".to_string(),
        }
    );
    assert_eq!(
        action_required[0],
        CheckRunDetails {
            name: "Deploy".to_string(),
            details_url: "http://example.com/deploy".to_string(),
        }
    );
}

#[test]
fn test_no_checks() {
    let checks = GithubCheckRuns { check_runs: vec![] };
    let (state, failing, action_required) = check_overall_status(&checks);
    assert_eq!(state, "success");
    assert!(failing.is_empty());
    assert!(action_required.is_empty());
}

#[test]
fn test_action_required_conclusion() {
    let checks = GithubCheckRuns {
        check_runs: vec![GithubCheckRun {
            name: "Review".to_string(),
            details_url: "http://example.com/review".to_string(),
            conclusion: Some("action_required".to_string()),
        }],
    };
    let (state, failing, action_required) = check_overall_status(&checks);
    assert_eq!(state, "action_required");
    assert!(failing.is_empty());
    assert_eq!(action_required.len(), 1);
}

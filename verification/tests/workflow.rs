use git_issue_flow::config::{masked_token, Config};
use git_issue_flow::errors::Error;
use git_issue_flow::inputs::MockInput;
use git_issue_flow::issues::{Issue, Label};
use git_issue_flow::listing::{render_issue_list, render_list_heading};
use git_issue_flow::workflow::{
    finish_step, obtain_text, require_token, start_step, FinishAction, FinishEvent, FinishState,
    StartAction, StartEvent, StartState,
};

fn one_issue() -> Vec<Issue> {
    vec![Issue {
        number: 7,
        title: "Fix crash".to_string(),
        url: "https://github.com/acme/widgets/issues/7".to_string(),
        labels: vec![],
    }]
}

#[test]
fn start_transition_end_to_end() {
    // One open issue #7 "Fix crash" with no labels; selection index 0.
    let (state, action) =
        start_step(StartState::Idle, StartEvent::IssuesListed { issues: one_issue() }).unwrap();
    let lines = match action {
        StartAction::PromptSelection { lines } => lines,
        other => panic!("expected a selection prompt, got {:?}", other),
    };
    assert_eq!(lines, vec!["#7 Fix crash ".to_string()]);

    let (state, action) = start_step(state, StartEvent::IssueChosen { choice: 0 }).unwrap();
    match &action {
        StartAction::AddWorkingLabel { issue_number, label } => {
            assert_eq!(*issue_number, 7);
            assert_eq!(label, "working-on");
        }
        other => panic!("expected the label step, got {:?}", other),
    }

    let (state, action) = start_step(state, StartEvent::LabelAdded).unwrap();
    match &action {
        StartAction::CreateBranch { name } => assert_eq!(name, "feature/7"),
        other => panic!("expected the branch step, got {:?}", other),
    }

    let (state, action) = start_step(state, StartEvent::BranchCreated).unwrap();
    match &action {
        StartAction::ReportSuccess { issue_number, branch } => {
            assert_eq!(*issue_number, 7);
            assert_eq!(branch, "feature/7");
        }
        other => panic!("expected the success report, got {:?}", other),
    }

    let (state, action) = start_step(state, StartEvent::SuccessReported).unwrap();
    assert!(matches!(action, StartAction::Stop));
    assert!(matches!(state, StartState::Done { .. }));
}

#[test]
fn start_transition_fails_on_empty_issue_list() {
    let result = start_step(StartState::Idle, StartEvent::IssuesListed { issues: vec![] });
    assert_eq!(result.err(), Some(Error::NoOpenIssues));
}

#[test]
fn finish_transition_end_to_end() {
    // Current branch feature/7, explicit title, empty description.
    let (state, action) = finish_step(FinishState::Idle, FinishEvent::ResolvedIdentity).unwrap();
    assert!(matches!(action, FinishAction::ReadCurrentBranch));

    let (state, action) =
        finish_step(state, FinishEvent::BranchRead { name: "feature/7".to_string() }).unwrap();
    assert!(matches!(action, FinishAction::CollectTexts));
    match &state {
        FinishState::BranchValidated { issue_number, branch } => {
            assert_eq!(*issue_number, 7);
            assert_eq!(branch, "feature/7");
        }
        other => panic!("expected a validated branch, got {:?}", other),
    }

    let (state, action) = finish_step(
        state,
        FinishEvent::TextsEntered {
            title: "Fix crash".to_string(),
            description: "".to_string(),
        },
    )
    .unwrap();
    match &action {
        FinishAction::OpenRequest { title, body, source, target } => {
            assert_eq!(title, "Fix crash");
            assert_eq!(body, "closes #7");
            assert_eq!(source, "feature/7");
            assert_eq!(target, "main");
        }
        other => panic!("expected the request step, got {:?}", other),
    }

    let url = "https://github.com/acme/widgets/pull/81".to_string();
    let (state, action) =
        finish_step(state, FinishEvent::RequestAccepted { url: url.clone() }).unwrap();
    match &action {
        FinishAction::RemoveWorkingLabel { issue_number, label } => {
            assert_eq!(*issue_number, 7);
            assert_eq!(label, "working-on");
        }
        other => panic!("expected the label removal step, got {:?}", other),
    }

    let (state, action) = finish_step(state, FinishEvent::LabelRemoved).unwrap();
    match &action {
        FinishAction::ReportOutcome { url: reported, label_warning } => {
            assert_eq!(reported, &url);
            assert!(!label_warning);
        }
        other => panic!("expected the outcome report, got {:?}", other),
    }
    assert!(matches!(state, FinishState::Done { label_warning: false, .. }));
}

#[test]
fn finish_label_removal_failure_is_only_a_warning() {
    let state = FinishState::Idle;
    let (state, _) = finish_step(state, FinishEvent::ResolvedIdentity).unwrap();
    let (state, _) =
        finish_step(state, FinishEvent::BranchRead { name: "feature/9".to_string() }).unwrap();
    let (state, _) = finish_step(
        state,
        FinishEvent::TextsEntered {
            title: "t".to_string(),
            description: "d".to_string(),
        },
    )
    .unwrap();
    let (state, _) = finish_step(
        state,
        FinishEvent::RequestAccepted { url: "https://github.com/a/b/pull/1".to_string() },
    )
    .unwrap();
    // The removal failed, but the transition still succeeds, with the
    // warning attached.
    let (state, action) = finish_step(state, FinishEvent::LabelRemovalFailed).unwrap();
    match action {
        FinishAction::ReportOutcome { url, label_warning } => {
            assert_eq!(url, "https://github.com/a/b/pull/1");
            assert!(label_warning);
        }
        other => panic!("expected the outcome report, got {:?}", other),
    }
    assert!(matches!(state, FinishState::Done { label_warning: true, .. }));
}

#[test]
fn finish_rejects_non_issue_branch() {
    let (state, _) = finish_step(FinishState::Idle, FinishEvent::ResolvedIdentity).unwrap();
    let result = finish_step(state, FinishEvent::BranchRead { name: "main".to_string() });
    assert_eq!(result.err(), Some(Error::NotAnIssueBranch));
}

#[test]
fn finish_body_keeps_description_before_closing_line() {
    let (state, _) = finish_step(FinishState::Idle, FinishEvent::ResolvedIdentity).unwrap();
    let (state, _) =
        finish_step(state, FinishEvent::BranchRead { name: "feature/42".to_string() }).unwrap();
    let (_, action) = finish_step(
        state,
        FinishEvent::TextsEntered {
            title: "Title".to_string(),
            description: "This is a test description".to_string(),
        },
    )
    .unwrap();
    match action {
        FinishAction::OpenRequest { body, .. } => {
            assert_eq!(body, "This is a test description\n\ncloses #42");
        }
        other => panic!("expected the request step, got {:?}", other),
    }
}

#[test]
fn token_is_required_for_tracker_commands() {
    let empty = Config { github_token: None };
    assert_eq!(require_token(&empty), Err(Error::MissingCredential));

    let configured = Config { github_token: Some("SECRET-REDACTED".to_string()) };
    assert_eq!(require_token(&configured), Ok("SECRET-REDACTED".to_string()));
}

#[test]
fn set_github_token_stores_the_token() {
    let mut config = Config::default();
    assert!(config.github_token.is_none());
    config.set_github_token("SECRET-REDACTED".to_string());
    assert_eq!(config.github_token, Some("SECRET-REDACTED".to_string()));
}

#[test]
fn masked_token_shows_only_a_short_prefix() {
    assert_eq!(masked_token("ghp_abcdef"), "ghp_****");
}

#[test]
fn obtain_text_prefers_the_given_value() {
    let mut mock = MockInput::new(vec!["typed".to_string()], vec![]);
    let given = obtain_text(Some("given".to_string()), "Title", &mut mock).unwrap();
    assert_eq!(given, "given");
    // The prompt was not consumed; without a given value it is.
    let prompted = obtain_text(None, "Title", &mut mock).unwrap();
    assert_eq!(prompted, "typed");
    assert_eq!(obtain_text(None, "Title", &mut mock), Err(Error::PromptFailed));
}

#[test]
fn listing_renders_issues_and_heading() {
    let issues = vec![
        Issue {
            number: 3,
            title: "First".to_string(),
            url: "https://github.com/acme/widgets/issues/3".to_string(),
            labels: vec![],
        },
        Issue {
            number: 11,
            title: "Second".to_string(),
            url: "https://github.com/acme/widgets/issues/11".to_string(),
            labels: vec![Label { name: "bug".to_string(), color: "red".to_string() }],
        },
    ];
    let lines = render_issue_list(&issues);
    assert_eq!(lines, vec!["#3 First".to_string(), "#11 Second [bug]".to_string()]);
    assert_eq!(
        render_list_heading("acme", "widgets", 2),
        "Open issues in acme/widgets - #2"
    );
}

use git_issue_flow::errors::Error;
use git_issue_flow::inputs::{InputProvider, MockInput};
use git_issue_flow::issues::{Issue, Label};
use git_issue_flow::select::{render_select_lines, resolve_selection, select_issue};

#[test]
fn test_select_issue() {
    // Create mock issues
    let issues = vec![
        Issue {
            number: 1,
            title: "First issue".to_string(),
            url: "https://github.com/test/repo/issues/1".to_string(),
            labels: vec![],
        },
        Issue {
            number: 2,
            title: "Second issue".to_string(),
            url: "https://github.com/test/repo/issues/2".to_string(),
            labels: vec![Label {
                name: "bug".to_string(),
                color: "red".to_string(),
            }],
        },
        Issue {
            number: 3,
            title: "Third issue".to_string(),
            url: "https://github.com/test/repo/issues/3".to_string(),
            labels: vec![Label {
                name: "feature".to_string(),
                color: "green".to_string(),
            }],
        },
    ];

    // Create a mock input provider that will select the second issue (index 1)
    let mut mock_input = MockInput::new(vec![], vec![1]);

    // Call select_issue with the mock
    let result = select_issue(&issues, "Select an issue:", &mut mock_input).unwrap();

    // Verify we got the second issue
    assert_eq!(result.number, 2);
    assert_eq!(result.title, "Second issue");
    assert_eq!(result.labels.len(), 1);
    assert_eq!(result.labels[0].name, "bug");
}

#[test]
fn test_select_issue_with_empty_list() {
    // Test with an empty list of issues
    let issues: Vec<Issue> = vec![];

    // Create a mock input provider
    let mut mock_input = MockInput::new(vec![], vec![0]);

    // Call select_issue with the mock
    let result = select_issue(&issues, "Select an issue:", &mut mock_input);

    // Verify we got an error
    assert!(result.is_err());
}

#[test]
fn empty_list_fails_before_prompting() {
    let issues: Vec<Issue> = vec![];
    let mut mock_input = MockInput::new(vec![], vec![0]);

    let result = select_issue(&issues, "Select an issue:", &mut mock_input);
    assert_eq!(result.err(), Some(Error::NoChoicesAvailable));

    // The prompting path was never invoked: the scripted selection is
    // still available afterwards.
    let untouched = mock_input
        .get_by_select("later", &vec!["a".to_string(), "b".to_string()])
        .unwrap();
    assert_eq!(untouched, 0);
}

#[test]
fn selection_returns_issue_at_chosen_index_unchanged() {
    // The same issues under different label permutations: the chosen
    // index always maps back to the same-ordered input list.
    let make = |labels: Vec<(&str, &str)>| -> Vec<Issue> {
        vec![
            Issue {
                number: 10,
                title: "Alpha".to_string(),
                url: "https://github.com/test/repo/issues/10".to_string(),
                labels: labels
                    .iter()
                    .map(|(n, c)| Label { name: n.to_string(), color: c.to_string() })
                    .collect(),
            },
            Issue {
                number: 20,
                title: "Beta".to_string(),
                url: "https://github.com/test/repo/issues/20".to_string(),
                labels: vec![],
            },
        ]
    };
    for labels in [
        vec![("bug", "red"), ("ui", "blue")],
        vec![("ui", "blue"), ("bug", "red")],
        vec![],
    ] {
        let issues = make(labels.clone());
        let chosen = resolve_selection(&issues, 0).unwrap();
        assert_eq!(chosen.number, 10);
        assert_eq!(chosen.title, "Alpha");
        let names: Vec<String> = chosen.labels.iter().map(|l| l.name.clone()).collect();
        let expected: Vec<String> = labels.iter().map(|(n, _)| n.to_string()).collect();
        assert_eq!(names, expected);

        let second = resolve_selection(&issues, 1).unwrap();
        assert_eq!(second.number, 20);
        assert!(resolve_selection(&issues, 2).is_none());
    }
}

#[test]
fn menu_lines_follow_input_order() {
    let issues = vec![
        Issue {
            number: 7,
            title: "Fix crash".to_string(),
            url: "https://github.com/acme/widgets/issues/7".to_string(),
            labels: vec![],
        },
        Issue {
            number: 12,
            title: "Add docs".to_string(),
            url: "https://github.com/acme/widgets/issues/12".to_string(),
            labels: vec![
                Label { name: "docs".to_string(), color: "blue".to_string() },
                Label { name: "easy".to_string(), color: "green".to_string() },
            ],
        },
    ];
    let lines = render_select_lines(&issues);
    assert_eq!(lines.len(), 2);
    assert_eq!(lines[0], "#7 Fix crash ");
    assert_eq!(lines[1], "#12 Add docs  [docs] [easy]");
}

#[test]
fn out_of_range_choice_is_reported_as_prompt_failure() {
    let issues = vec![Issue {
        number: 1,
        title: "Only".to_string(),
        url: "https://github.com/test/repo/issues/1".to_string(),
        labels: vec![],
    }];
    // The scripted provider answers with an index past the menu.
    let mut mock_input = MockInput::new(vec![], vec![5]);
    let result = select_issue(&issues, "Select an issue:", &mut mock_input);
    assert_eq!(result.err(), Some(Error::PromptFailed));
}

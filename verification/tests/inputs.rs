use git_issue_flow::inputs::{InputProvider, MockInput};

#[test]
fn test_mock_input_provider() {
    // Create mock with predefined responses
    let mut mock = MockInput::new(
        vec!["First response".to_string(), "Second response".to_string()],
        vec![],
    );

    // Test first call returns first response
    let result1 = mock.get_input("Any prompt", None).unwrap();
    assert_eq!(result1, "First response");

    // Test second call returns second response
    let result2 = mock.get_input("Another prompt", None).unwrap();
    assert_eq!(result2, "Second response");

    // Test that trying to get more responses produces an error
    let result3 = mock.get_input("Third prompt", None);
    assert!(result3.is_err());
}

#[test]
fn test_mock_select_provider() {
    // Create mock with predefined selections
    let mut mock = MockInput::new(
        vec!["unused".to_string()], // Text responses
        vec![1, 0],                 // Selection indices
    );

    // Test first selection returns 1
    let result1 = mock
        .get_by_select(
            "Select one:",
            &vec!["Option 1".to_string(), "Option 2".to_string()],
        )
        .unwrap();
    assert_eq!(result1, 1);

    // Test second selection returns 0
    let result2 = mock
        .get_by_select(
            "Select another:",
            &vec!["Option A".to_string(), "Option B".to_string()],
        )
        .unwrap();
    assert_eq!(result2, 0);

    // Test that trying to get more selections produces an error
    let result3 = mock.get_by_select("Select a third:", &vec!["X".to_string(), "Y".to_string()]);
    assert!(result3.is_err());
}

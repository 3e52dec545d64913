use gitlab_tui::action::Action;

#[test]
fn actions_are_named_after_their_variants() {
    assert_eq!(Action::Tick.to_string(), "Tick");
    assert_eq!(Action::Next.to_string(), "Next");
    assert_eq!(Action::Previous.to_string(), "Previous");
    assert_eq!(Action::Enter.to_string(), "Enter");
    assert_eq!(Action::FocusUp.to_string(), "FocusUp");
    assert_eq!(Action::FocusDown.to_string(), "FocusDown");
    assert_eq!(Action::FocusLeft.to_string(), "FocusLeft");
    assert_eq!(Action::FocusRight.to_string(), "FocusRight");
    assert_eq!(Action::Render.to_string(), "Render");
    assert_eq!(Action::Quit.to_string(), "Quit");
    assert_eq!(Action::Error(String::from("no route")).to_string(), "Error");
    assert_eq!(Action::Help.to_string(), "Help");
}

#[test]
fn actions_compare_by_variant_and_message() {
    assert_eq!(Action::Next, Action::Next);
    assert_ne!(Action::Next, Action::Previous);
    assert_eq!(Action::Error(String::from("a")), Action::Error(String::from("a")));
    assert_ne!(Action::Error(String::from("a")), Action::Error(String::from("b")));
    assert_ne!(Action::Error(String::new()), Action::Help);
}

#[test]
fn clone_keeps_the_message() {
    let action = Action::Error(String::from("failed to draw"));
    assert_eq!(action.clone(), action);
    assert_eq!(Action::Render.clone(), Action::Render);
}

use gpui_ai::form::{ChoiceEvent, ChoiceGroup, ChoiceOption, Toggle, ToggleEvent, ToggleRole, ToggleShape};

#[test]
fn choices_report_available_options_only() {
    let group = ChoiceGroup::new("flavours", "How many flavours?")
        .options(vec![
            ChoiceOption::new("three", "Three").description("The core line"),
            ChoiceOption::new("five", "Five"),
            ChoiceOption::new("ten", "Ten").disabled(true),
        ])
        .selected("three");
    assert_eq!(group.set_size(), 3);
    assert!(group.is_chosen(0));
    assert!(!group.is_chosen(1));
    assert_eq!(group.choose_option(1), Some(ChoiceEvent::Chosen { group: "flavours".into(), option: "five".into() }));
    assert_eq!(group.choose_option(2), None);
    let none = ChoiceGroup::unlabelled("g").options(vec![ChoiceOption::new("a", "A")]).selection(None);
    assert!(!none.is_chosen(0));
}

#[test]
fn toggles_ask_for_the_opposite_state() {
    let stream = Toggle::new("stream", "Stream the answer").shape(ToggleShape::Switch).on(true);
    assert_eq!(stream.role(), ToggleRole::Switch);
    assert_eq!(stream.request(), Some(ToggleEvent::Toggled { id: "stream".into(), on: false }));
    let check = Toggle::new("c", "Include").description("Adds it");
    assert_eq!(check.role(), ToggleRole::CheckBox);
    assert_eq!(check.request(), Some(ToggleEvent::Toggled { id: "c".into(), on: true }));
    assert_eq!(check.disabled(true).request(), None);
    assert_eq!(ToggleShape::default(), ToggleShape::Check);
}

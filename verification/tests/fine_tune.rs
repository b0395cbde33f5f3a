use gpui_ai::fine_tune::{typeface_change, typeface_trigger_label, valid_typefaces, FineTuneTypeface};

#[test]
fn malformed_typeface_replacement_is_ignored() {
    let valid = vec![FineTuneTypeface::new("inter", "Inter"), FineTuneTypeface::new("mono", "Inter")];
    assert_eq!(valid_typefaces(valid.clone()), Some(valid));
    assert_eq!(
        valid_typefaces(vec![FineTuneTypeface::new("inter", "Inter"), FineTuneTypeface::new("inter", "Other")]),
        None
    );
    assert_eq!(valid_typefaces(vec![FineTuneTypeface::new("", "Empty")]), None);
    assert_eq!(valid_typefaces(Vec::new()), Some(Vec::new()));
}

#[test]
fn only_a_different_catalogued_typeface_takes_effect() {
    let catalog = vec![FineTuneTypeface::new("inter", "Inter"), FineTuneTypeface::new("mono", "Mono")];
    assert!(typeface_change("inter", &catalog, "mono"));
    assert!(!typeface_change("inter", &catalog, "inter"));
    assert!(!typeface_change("inter", &catalog, "serif"));
    assert_eq!(catalog[1].label(), "Mono");
    assert_eq!(catalog[0].id(), "inter");
}

#[test]
fn the_typeface_trigger_names_the_selection_or_why_there_is_none() {
    let catalog = vec![FineTuneTypeface::new("inter", "Inter"), FineTuneTypeface::new("mono", "JetBrains Mono")];
    assert_eq!(typeface_trigger_label(&catalog, "mono"), "JetBrains Mono");
    assert_eq!(typeface_trigger_label(&catalog, "serif"), "Unavailable typeface: serif");
    assert_eq!(typeface_trigger_label(&Vec::new(), "inter"), "No typefaces available");
}

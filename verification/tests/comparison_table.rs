use gpui_ai::stream::ProgressState;
use gpui_ai::comparison_table::{
    ComparisonStatusRole,
    same_feature_sequence,
    item_control_label, item_header_label, ComparisonFeature, ComparisonItem, ComparisonItemState, ComparisonSnapshot,
    ComparisonSnapshotError, ComparisonTable, ComparisonTableEvent, ComparisonValue, MAX_COMPARISON_FEATURES, MAX_COMPARISON_ITEMS,
};

fn items() -> Vec<ComparisonItem> {
    vec![
        ComparisonItem::new("starter", "Starter"),
        ComparisonItem::new("business", "Business").state(ComparisonItemState::Highlighted),
        ComparisonItem::new("legacy", "Legacy").state(ComparisonItemState::Disabled),
    ]
}

#[test]
fn snapshot_errors_name_the_first_fault() {
    let duplicate = vec![ComparisonItem::new("a", "A"), ComparisonItem::new("a", "B")];
    assert_eq!(
        ComparisonSnapshot::try_new(duplicate, Vec::new()).err(),
        Some(ComparisonSnapshotError::DuplicateItemId("a".into()))
    );
    let too_many: Vec<ComparisonItem> =
        (0..=MAX_COMPARISON_ITEMS).map(|i| ComparisonItem::new(&format!("i{i}"), "Item")).collect();
    assert_eq!(
        ComparisonSnapshot::try_new(too_many, Vec::new()).err(),
        Some(ComparisonSnapshotError::TooManyItems { maximum: MAX_COMPARISON_ITEMS })
    );
    let features = vec![ComparisonFeature::new("f", "F"), ComparisonFeature::new("f", "G")];
    assert_eq!(
        ComparisonSnapshot::try_new(items(), features).err(),
        Some(ComparisonSnapshotError::DuplicateFeatureId("f".into()))
    );
    let unknown = vec![ComparisonFeature::new("f", "F").values(vec![ComparisonValue::new("ghost", "1")])];
    assert_eq!(
        ComparisonSnapshot::try_new(items(), unknown).err(),
        Some(ComparisonSnapshotError::UnknownItemId { feature_id: "f".into(), item_id: "ghost".into() })
    );
    let repeated = vec![ComparisonFeature::new("f", "F")
        .values(vec![ComparisonValue::new("starter", "1"), ComparisonValue::included("starter", true)])];
    assert_eq!(
        ComparisonSnapshot::try_new(items(), repeated).err(),
        Some(ComparisonSnapshotError::DuplicateValueItemId { feature_id: "f".into(), item_id: "starter".into() })
    );
}

#[test]
fn selection_and_focus_only_land_on_enabled_items() {
    let features = vec![ComparisonFeature::new("seats", "Seats")
        .values(vec![ComparisonValue::new("starter", "5"), ComparisonValue::new("business", "50")])];
    let snapshot = ComparisonSnapshot::try_new(items(), features).unwrap();
    assert_eq!(snapshot.feature("seats").and_then(|f| f.value("business")).map(|v| v.display().as_str()), Some("50"));
    let mut table = ComparisonTable::new("plans", "Plans");
    table.set_snapshot(snapshot, ProgressState::Complete);
    assert_eq!(table.focused_item_id().map(|s| s.as_str()), Some("starter"));
    assert!(!table.set_selected_item("legacy"));
    assert!(table.set_selected_item("business"));
    assert_eq!(
        table.request_selection("business"),
        Some(ComparisonTableEvent::SelectionRequested { id: "plans".into(), item_id: "business".into() })
    );
    assert_eq!(table.request_selection("legacy"), None);
    assert_eq!(table.move_item_focus(1), Some(1));
    assert_eq!(table.move_item_focus(1), Some(0));
    assert_eq!(table.move_item_focus(-1), Some(1));
    assert_eq!(table.focus_item("legacy"), None);
    assert_eq!(item_header_label(&items()[1]), "Business; Recommended");
    assert_eq!(item_header_label(&items()[2]), "Legacy; Unavailable");
    assert_eq!(item_control_label(&items()[0]), "Select Starter");
}

#[test]
fn too_many_features_is_refused_with_the_bound() {
    let features: Vec<ComparisonFeature> =
        (0..=MAX_COMPARISON_FEATURES).map(|i| ComparisonFeature::new(&format!("f{i}"), "Row")).collect();
    assert_eq!(
        ComparisonSnapshot::try_new(items(), features).err(),
        Some(ComparisonSnapshotError::TooManyFeatures { maximum: MAX_COMPARISON_FEATURES })
    );
    let at_bound: Vec<ComparisonFeature> =
        (0..MAX_COMPARISON_FEATURES).map(|i| ComparisonFeature::new(&format!("f{i}"), "Row")).collect();
    assert!(ComparisonSnapshot::try_new(items(), at_bound).is_ok());
}

#[test]
fn moving_focus_forward_then_back_returns_to_the_same_item() {
    let mut table = ComparisonTable::new("plans", "Plans");
    let mut all = items();
    all.push(ComparisonItem::new("team", "Team"));
    table.set_snapshot(ComparisonSnapshot::try_new(all, Vec::new()).unwrap(), ProgressState::Complete);
    // Enabled columns are 0, 1 and 3; the disabled column 2 is skipped.
    assert_eq!(table.focus_item("business"), Some(1));
    assert_eq!(table.move_item_focus(1), Some(3));
    assert_eq!(table.move_item_focus(-1), Some(1));
    assert_eq!(table.move_item_focus(5), Some(0));
    assert_eq!(table.move_item_focus(-5), Some(1));
    assert_eq!(table.focused_item_index(), Some(1));
}

#[test]
fn focus_cannot_move_when_every_item_is_disabled() {
    let mut table = ComparisonTable::new("plans", "Plans");
    let disabled = vec![ComparisonItem::new("x", "X").state(ComparisonItemState::Disabled)];
    table.set_snapshot(ComparisonSnapshot::try_new(disabled, Vec::new()).unwrap(), ProgressState::Complete);
    assert_eq!(table.focused_item_id(), None);
    assert_eq!(table.move_item_focus(1), None);
    assert_eq!(table.focused_item_index(), None);
}

#[test]
fn a_streamed_update_keeps_the_reading_position_and_selection() {
    let features = || {
        vec![ComparisonFeature::new("seats", "Seats"), ComparisonFeature::new("storage", "Storage")]
    };
    let mut table = ComparisonTable::new("plans", "Plans");
    assert!(!table.set_snapshot(ComparisonSnapshot::try_new(items(), features()).unwrap(), ProgressState::Complete));
    assert!(table.set_selected_item("business"));
    let filled = vec![
        ComparisonFeature::new("seats", "Seats").values(vec![ComparisonValue::new("starter", "5")]),
        ComparisonFeature::new("storage", "Storage"),
    ];
    assert!(table.set_snapshot(ComparisonSnapshot::try_new(items(), filled).unwrap(), ProgressState::Complete));
    assert_eq!(table.selected_item_id().map(|s| s.as_str()), Some("business"));
    assert_eq!(table.feature_index("storage"), Some(1));
    assert_eq!(table.feature_index("missing"), None);

    // A snapshot in which the selected item is gone clears the selection.
    let fewer = vec![ComparisonItem::new("starter", "Starter")];
    assert!(!table.set_snapshot(ComparisonSnapshot::try_new(fewer, Vec::new()).unwrap(), ProgressState::Complete));
    assert_eq!(table.selected_item_id(), None);
    assert_eq!(table.focused_item_id().map(|s| s.as_str()), Some("starter"));

    let previous = vec!["seats".to_string(), "storage".to_string()];
    assert!(same_feature_sequence(&previous, &features()));
    let reordered = vec![ComparisonFeature::new("storage", "Storage"), ComparisonFeature::new("seats", "Seats")];
    assert!(!same_feature_sequence(&previous, &reordered));
}

#[test]
fn the_status_line_follows_the_snapshot_lifecycle() {
    let mut table = ComparisonTable::new("plans", "Plans");
    assert_eq!(table.status(), Some((ComparisonStatusRole::Progress, "Loading comparison".to_string())));
    let data = || {
        ComparisonSnapshot::try_new(items(), vec![ComparisonFeature::new("seats", "Seats")]).unwrap()
    };
    table.set_snapshot(data(), ProgressState::Running);
    assert_eq!(table.status(), Some((ComparisonStatusRole::Progress, "Updating comparison".to_string())));
    table.set_snapshot(data(), ProgressState::Failed("Pricing unavailable".into()));
    assert_eq!(table.status(), Some((ComparisonStatusRole::Alert, "Pricing unavailable".to_string())));
    table.set_snapshot(data(), ProgressState::Complete);
    assert_eq!(table.status(), None);
    table.set_snapshot(ComparisonSnapshot::try_new(items(), Vec::new()).unwrap(), ProgressState::Complete);
    assert_eq!(table.status(), Some((ComparisonStatusRole::Status, "No comparison data".to_string())));
    assert_eq!(table.progress(), &ProgressState::Complete);
}

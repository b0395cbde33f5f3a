use gpui_ai::diff_table::{DiffColumn, DiffSortDirection};
use gpui_ai::diff_table::{
    decision_cell, diff_record_cell, diff_rows_have_unique_ids, proposal_action_enabled, proposal_action_label,
    proposal_actions_label, row_semantic_label, scoped_diff_id, DiffCell, DiffChangeKind, DiffProposalAction,
    DiffProposalState, DiffRow, DiffTable, DiffTableEvent, RecordStatusTone,
};
use gpui_ai::stream::ProgressState;

#[test]
fn diff_projection_keeps_change_state_in_readable_cell_values() {
    for (cell, expected, tone) in [
        (DiffCell::added("value", "Pistachio"), "Added: Pistachio", RecordStatusTone::Positive),
        (DiffCell::removed("value", "Bubblegum"), "Removed: Bubblegum", RecordStatusTone::Critical),
        (
            DiffCell::changed("value", "Mint Chip", "Pistachio"),
            "Changed: Mint Chip → Pistachio",
            RecordStatusTone::Caution,
        ),
        (DiffCell::unchanged("value", "Classic"), "Unchanged: Classic", RecordStatusTone::Neutral),
    ] {
        let projected = diff_record_cell(&cell);
        assert_eq!(projected.value(), expected);
        assert_eq!(projected.status_tone(), Some(tone));
    }

    for (state, expected, tone) in [
        (DiffProposalState::Pending, "Pending decision", RecordStatusTone::Caution),
        (DiffProposalState::Accepted, "Accepted", RecordStatusTone::Positive),
        (DiffProposalState::Rejected, "Rejected", RecordStatusTone::Critical),
    ] {
        let row = DiffRow::new("proposal", "Proposal", DiffChangeKind::Changed).state(state);
        let decision = decision_cell(&row, "decision");
        assert_eq!(decision.column_id(), "decision");
        assert_eq!(decision.value(), expected);
        assert_eq!(decision.status_tone(), Some(tone));
    }
}

#[test]
fn proposal_controls_expose_names_roles_and_available_actions() {
    let pending = DiffRow::new("pending", "Pistachio", DiffChangeKind::Changed);
    let accepted = DiffRow::new("accepted", "Rocky Road", DiffChangeKind::Removed).state(DiffProposalState::Accepted);
    let rejected = DiffRow::new("rejected", "Bubblegum", DiffChangeKind::Removed).state(DiffProposalState::Rejected);
    assert_eq!(proposal_action_label(&pending, DiffProposalAction::Accept), "Accept Pistachio");
    assert!(proposal_action_enabled(&pending, DiffProposalAction::Accept));
    assert_eq!(proposal_action_label(&pending, DiffProposalAction::Reject), "Reject Pistachio");
    assert!(proposal_action_enabled(&pending, DiffProposalAction::Reject));
    assert_eq!(proposal_action_label(&accepted, DiffProposalAction::Accept), "Already accepted: Rocky Road");
    assert!(!proposal_action_enabled(&accepted, DiffProposalAction::Accept));
    assert_eq!(proposal_action_label(&rejected, DiffProposalAction::Reject), "Already rejected: Bubblegum");
    assert!(!proposal_action_enabled(&rejected, DiffProposalAction::Reject));
}

#[test]
fn disabled_proposals_are_unavailable_and_named_so() {
    let row = DiffRow::new("p", "Mint", DiffChangeKind::Added).disabled(true);
    assert_eq!(proposal_action_label(&row, DiffProposalAction::Accept), "Unavailable: Accept Mint");
    assert!(!proposal_action_enabled(&row, DiffProposalAction::Accept));
    assert_eq!(row_semantic_label(&row), "Mint; Added; Pending decision");
    assert_eq!(proposal_actions_label(&row), "Proposal actions for Mint. Pending decision");
}

#[test]
fn proposal_snapshots_reject_repeated_identities() {
    let valid = vec![
        DiffRow::new("a", "A", DiffChangeKind::Changed)
            .cells(vec![DiffCell::changed("x", "1", "2"), DiffCell::added("y", "3")]),
        DiffRow::new("b", "B", DiffChangeKind::Added),
    ];
    assert!(diff_rows_have_unique_ids(&valid));
    let repeated_row = vec![DiffRow::new("a", "A", DiffChangeKind::Changed), DiffRow::new("a", "B", DiffChangeKind::Added)];
    assert!(!diff_rows_have_unique_ids(&repeated_row));
    let repeated_cell = vec![DiffRow::new("a", "A", DiffChangeKind::Changed)
        .cells(vec![DiffCell::added("x", "1"), DiffCell::removed("x", "2")])];
    assert!(!diff_rows_have_unique_ids(&repeated_cell));

    let mut table = DiffTable::new("cleanup", "Cleanup");
    assert!(table.set_rows(valid, ProgressState::Complete));
    assert!(table.set_selected_row("a"));
    assert!(!table.set_rows(repeated_row, ProgressState::Running));
    assert_eq!(table.rows().len(), 2);
    assert_eq!(table.selected_row_id().map(|s| s.as_str()), Some("a"));
    assert!(table.set_rows(vec![DiffRow::new("a", "A", DiffChangeKind::Changed).disabled(true)], ProgressState::Running));
    assert_eq!(table.selected_row_id(), None);
    assert_eq!(table.progress(), &ProgressState::Running);
}

#[test]
fn decisions_go_only_to_enabled_proposals() {
    let mut table = DiffTable::new("t", "Table");
    table.set_rows(
        vec![
            DiffRow::new("keep", "Keep", DiffChangeKind::Changed),
            DiffRow::new("off", "Off", DiffChangeKind::Changed).disabled(true),
        ],
        ProgressState::Complete,
    );
    assert_eq!(
        table.request_decision("keep", DiffProposalAction::Accept),
        Some(DiffTableEvent::DecisionRequested { id: "t".into(), row_id: "keep".into(), action: DiffProposalAction::Accept })
    );
    assert_eq!(table.request_decision("off", DiffProposalAction::Accept), None);
    assert_eq!(table.request_decision("missing", DiffProposalAction::Reject), None);
    assert!(!table.set_selected_row("off"));
    assert_eq!(table.selected_row().map(|r| r.id().as_str()), None);
    assert!(table.set_selected_row("keep"));
    assert_eq!(table.selected_row().map(|r| r.label().as_str()), Some("Keep"));
    table.clear_selected_row();
    assert_eq!(table.selected_row_id(), None);
    assert_eq!(table.request_review("keep"), DiffTableEvent::ReviewRequested { id: "t".into(), row_id: "keep".into() });
    assert_eq!(table.request_selection("keep"), DiffTableEvent::SelectionRequested { id: "t".into(), row_id: "keep".into() });
}

#[test]
fn scoped_diff_identities_prefix_the_table_length_in_bytes() {
    assert_eq!(scoped_diff_id("root", "lazy", "surface"), "diff-table-root-4:lazysurface");
    assert_eq!(scoped_diff_id("actions", "ünï", "row"), "diff-table-actions-5:ünïrow");
    let table = DiffTable::new("decide", "Decide diff");
    assert_eq!(table.review_column_id(), "diff-table-review-column-6:decideaction");
    assert_eq!(table.decision_column_id(), "diff-table-decision-column-6:decidestate");
    let row = DiffRow::new("r", "R", DiffChangeKind::Unchanged).cells(vec![DiffCell::unchanged("c", "v")]);
    assert_eq!(row.cell("c").map(|c| c.before().cloned()), Some(Some("v".to_owned())));
    assert!(row.cell("missing").is_none());
}

#[test]
fn columns_must_not_reuse_the_review_or_decision_identity() {
    let mut table = DiffTable::new("review", "Review");
    let review = table.review_column_id().clone();
    assert!(!table.set_columns(vec![DiffColumn::new(&review, "Clash")]));
    assert!(table.columns().is_empty());
    assert!(!table.set_columns(vec![DiffColumn::new("a", "A"), DiffColumn::new("a", "B")]));
    assert!(table.set_columns(vec![
        DiffColumn::new("name", "Name").sortable(true),
        DiffColumn::new("note", "Note"),
    ]));
    assert_eq!(table.columns().len(), 2);

    // Only a sortable column accepts a direction.
    assert!(!table.set_sort("note", Some(DiffSortDirection::Ascending)));
    assert_eq!(table.sort(), None);
    assert!(table.set_sort("name", Some(DiffSortDirection::Descending)));
    assert_eq!(table.sort().map(|(id, d)| (id.as_str(), d)), Some(("name", DiffSortDirection::Descending)));
    assert!(table.set_sort("note", None));
    assert_eq!(table.sort(), None);

    // A sort whose column stops being sortable is cleared.
    assert!(table.set_sort("name", Some(DiffSortDirection::Ascending)));
    assert!(table.set_columns(vec![DiffColumn::new("name", "Name").sortable(true)]));
    assert!(table.sort().is_some());
    assert!(table.set_columns(vec![DiffColumn::new("name", "Name")]));
    assert_eq!(table.sort(), None);
}

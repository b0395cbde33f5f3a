use gpui_ai::filter_table::{FilterCell, FilterColumn, FilterRow, FilterSortDirection};
use gpui_ai::stream::ProgressState;
use gpui_ai::filter_table::{
    filter_control_label, filter_controls_label, result_label, scoped_filter_id, FilterDefinition, FilterTable,
    FilterTableEvent,
};

#[test]
fn filter_controls_expose_name_state_and_available_action() {
    let todo = FilterDefinition::new("todo", "To do", 2).active(true);
    let blocked = FilterDefinition::new("blocked", "Blocked", 0).disabled(true);
    assert_eq!(filter_control_label(&todo), "To do 2, active");
    assert_eq!(filter_control_label(&blocked), "Unavailable: Blocked 0, inactive");
    assert_eq!(filter_controls_label("Task board"), "Filters for Task board");
    assert_eq!(result_label(2), "2 results");

    let mut table = FilterTable::new("tasks", "Task board");
    table.set_filters(vec![todo, blocked]);
    assert_eq!(
        table.request_filter("todo"),
        Some(FilterTableEvent::FilterRequested { id: "tasks".into(), filter_id: "todo".into(), active: false })
    );
    assert_eq!(table.request_filter("blocked"), None);
}

#[test]
fn filter_snapshots_with_repeated_ids_are_ignored() {
    let mut table = FilterTable::new("t", "T");
    table.set_filters(vec![FilterDefinition::new("a", "A", 1), FilterDefinition::new("b", "B", 2)]);
    assert_eq!(table.focused_filter_id().map(|s| s.as_str()), Some("a"));
    table.set_filters(vec![FilterDefinition::new("x", "X", 1), FilterDefinition::new("x", "Y", 2)]);
    assert_eq!(table.filters().len(), 2);
    assert_eq!(table.filters()[0].id(), "a");
}

#[test]
fn filter_focus_skips_unavailable_filters_and_wraps() {
    let mut table = FilterTable::new("t", "T");
    table.set_filters(vec![
        FilterDefinition::new("a", "A", 1),
        FilterDefinition::new("b", "B", 0).disabled(true),
        FilterDefinition::new("c", "C", 3),
    ]);
    assert_eq!(table.move_filter_focus(1), Some(3));
    assert_eq!(table.focused_filter_id().map(|s| s.as_str()), Some("c"));
    assert!(table.is_filter_focus_engaged());
    assert_eq!(table.move_filter_focus(1), Some(1));
    assert_eq!(table.focused_filter_id().map(|s| s.as_str()), Some("a"));
    assert_eq!(table.move_filter_focus(-1), Some(3));
    assert_eq!(table.focus_filter("b"), None);
    assert_eq!(table.focus_filter("a"), Some(1));
    assert_eq!(table.scroll_to_filter("b"), Some(2));
    assert_eq!(table.scroll_to_filter("zzz"), None);
    table.focus_lost();
    assert!(!table.is_filter_focus_engaged());
    assert_eq!(table.focus_gained(), Some(1));
    table.set_filters(vec![FilterDefinition::new("a", "A", 1).disabled(true), FilterDefinition::new("d", "D", 1)]);
    assert_eq!(table.focused_filter_id().map(|s| s.as_str()), Some("d"));
    let mut empty = FilterTable::new("e", "E");
    assert_eq!(empty.move_filter_focus(1), None);
    assert_eq!(empty.focused_filter_id(), None);
}

#[test]
fn scoped_filter_identities_prefix_the_table_length() {
    assert_eq!(scoped_filter_id("filter", "tasks", "todo"), "filter-table-filter-5:taskstodo");
    assert_eq!(scoped_filter_id("root", "", "surface"), "filter-table-root-0:surface");
}

#[test]
fn filter_columns_are_unique_and_sorts_need_sortable_columns() {
    let mut table = FilterTable::new("tasks", "Tasks");
    assert!(!table.set_columns(vec![FilterColumn::new("a", "A"), FilterColumn::new("a", "A again")]));
    assert!(table.columns().is_empty());
    assert!(table.set_columns(vec![FilterColumn::new("due", "Due").sortable(true), FilterColumn::new("owner", "Owner")]));
    assert!(!table.set_sort("owner", Some(FilterSortDirection::Ascending)));
    assert!(!table.set_sort("missing", Some(FilterSortDirection::Ascending)));
    assert!(table.set_sort("due", Some(FilterSortDirection::Ascending)));
    assert_eq!(table.sort().map(|(id, d)| (id.as_str(), d)), Some(("due", FilterSortDirection::Ascending)));
    assert!(table.set_columns(vec![FilterColumn::new("owner", "Owner")]));
    assert_eq!(table.sort(), None);
}

#[test]
fn records_with_repeated_identities_are_refused_and_selection_needs_an_enabled_row() {
    let mut table = FilterTable::new("tasks", "Tasks");
    let row = |id: &str| FilterRow::new(id, id).cells(vec![FilterCell::text("title", id)]);
    assert!(!table.set_rows(vec![row("a"), row("a")], ProgressState::Complete));
    let clashing = FilterRow::new("b", "b").cells(vec![FilterCell::text("title", "x"), FilterCell::text("title", "y")]);
    assert!(!table.set_rows(vec![clashing], ProgressState::Complete));
    assert!(table.rows().is_empty());
    assert_eq!(table.progress(), &ProgressState::Pending);

    assert!(table.set_rows(vec![row("a"), row("b").disabled(true)], ProgressState::Running));
    assert_eq!(table.progress(), &ProgressState::Running);
    assert!(!table.set_selected_row("b"));
    assert!(!table.set_selected_row("zzz"));
    assert!(table.set_selected_row("a"));
    assert_eq!(table.selected_row_id().map(|s| s.as_str()), Some("a"));

    // A snapshot in which the selected record is disabled clears the selection.
    assert!(table.set_rows(vec![row("a").disabled(true)], ProgressState::Complete));
    assert_eq!(table.selected_row_id(), None);
    assert!(table.set_rows(vec![row("a")], ProgressState::Complete));
    assert!(table.set_selected_row("a"));
    table.clear_selected_row();
    assert_eq!(table.selected_row_id(), None);
}

use gpui_ai::chip::{ToolChip, ToolChipEvent, ToolStatus};

#[test]
fn accessibility_name_carries_status_and_detail() {
    assert_eq!(
        ToolChip::new("read", "read pricing.md").status(ToolStatus::Running).detail("12 files").accessibility_label(),
        "read pricing.md, running, 12 files"
    );
    assert_eq!(
        ToolChip::new("save", "save changes").status(ToolStatus::Success).accessibility_label(),
        "save changes, completed"
    );
}

#[test]
fn chip_defaults_to_pending_and_reports_its_id() {
    let chip = ToolChip::new("edit-1", "edit main.rs");
    assert_eq!(chip.accessibility_label(), "edit main.rs, pending");
    assert_eq!(ToolStatus::default(), ToolStatus::Pending);
    assert_eq!(ToolStatus::Failed.accessibility_label(), "failed");
    assert_eq!(chip.activate(), ToolChipEvent::Activated { id: "edit-1".into() });
}

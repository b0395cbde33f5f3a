use gpui_ai::artifact::{
    Artifact, ArtifactAction, ArtifactKind, ArtifactPanel, ArtifactPanelEvent, ArtifactVersion, ArtifactView,
    VersionStep,
};
use gpui_ai::stream::StreamedContent;

#[test]
fn the_active_version_defaults_to_the_latest() {
    let artifact = Artifact::new("doc", "Doc", StreamedContent::done("x"))
        .versions(vec![ArtifactVersion::new("v1", "v1"), ArtifactVersion::new("v2", "v2")]);
    assert_eq!(artifact.active_version_index(), Some(1));
    assert_eq!(artifact.clone().active_version("v1").active_version_index(), Some(0));
    assert_eq!(artifact.active_version("missing").active_version_index(), Some(1));
    assert_eq!(Artifact::new("doc", "Doc", StreamedContent::done("x")).active_version_index(), None);
}

#[test]
fn accessible_names_carry_kind_and_lifecycle() {
    let running = Artifact::new("doc", "Plan", StreamedContent::running("…".to_owned())).kind(ArtifactKind::Markdown);
    assert_eq!(running.accessibility_label(), "Artifact: Plan, Document, generating");
    let failed = Artifact::new("doc", "Plan", StreamedContent::failed(String::new(), "Quota exceeded"));
    assert_eq!(failed.accessibility_label(), "Artifact: Plan, Code, failed: Quota exceeded");
}

#[test]
fn panel_pins_kinds_without_preview_to_source() {
    let html = Artifact::new("page", "Page", StreamedContent::done("<p>")).kind(ArtifactKind::Html);
    let panel = ArtifactPanel::new(html).view(ArtifactView::Preview);
    assert_eq!(panel.shown_view(), ArtifactView::Source);
    assert_eq!(panel.select_view(0), None);
    let code = Artifact::new("main", "main.rs", StreamedContent::pending(String::new())).language("rust");
    let panel = ArtifactPanel::new(code).view(ArtifactView::Source);
    assert_eq!(panel.shown_view(), ArtifactView::Source);
    assert!(panel.is_generating());
    assert_eq!(panel.kind_text(), "Code · rust");
    assert_eq!(
        panel.select_view(0),
        Some(ArtifactPanelEvent::ViewSelected { id: "main".into(), view: ArtifactView::Preview })
    );
    assert_eq!(panel.close(), ArtifactPanelEvent::Closed { id: "main".into() });
    assert_eq!(ArtifactView::from_index(5), ArtifactView::Source);
    assert_eq!(ArtifactView::Source.index(), 1);
    assert!(!ArtifactKind::Data.has_preview());
    assert_eq!(ArtifactKind::Other.label(), "Artifact");
}

#[test]
fn version_navigation_stops_at_either_end() {
    let artifact = Artifact::new("doc", "Doc", StreamedContent::done("x"))
        .versions(vec![
            ArtifactVersion::new("v1", "First"),
            ArtifactVersion::new("v2", "Second"),
            ArtifactVersion::new("v3", "Third"),
        ])
        .active_version("v2");
    let panel = ArtifactPanel::new(artifact.clone()).actions(vec![ArtifactAction::new("open", "Open in editor")]);
    assert_eq!(panel.version_label().as_deref(), Some("Version 2 of 3"));
    assert_eq!(
        panel.step_version(VersionStep::Previous),
        Some(ArtifactPanelEvent::VersionSelected { id: "doc".into(), version_id: "v1".into() })
    );
    assert_eq!(
        panel.step_version(VersionStep::Next),
        Some(ArtifactPanelEvent::VersionSelected { id: "doc".into(), version_id: "v3".into() })
    );
    assert_eq!(
        panel.activate_action(0),
        ArtifactPanelEvent::ActionActivated { id: "doc".into(), action_id: "open".into() }
    );
    let latest = ArtifactPanel::new(artifact.active_version("v3"));
    assert_eq!(latest.step_version(VersionStep::Next), None);
    let none = ArtifactPanel::new(Artifact::new("doc", "Doc", StreamedContent::done("x")));
    assert_eq!(none.version_label(), None);
    assert_eq!(none.step_version(VersionStep::Previous), None);
}

use gpui_ai::popup::{installed_or_default, Placement, PopupSide, PopupTokens};

#[test]
fn auto_opens_away_from_the_nearer_edge() {
    let viewport: f32 = 800.;
    assert_eq!(PopupSide::Auto.placement(700.0_f32 > viewport * 0.5), Placement::Top);
    assert_eq!(PopupSide::Auto.placement(100.0_f32 > viewport * 0.5), Placement::Bottom);
}

#[test]
fn a_stated_side_is_reported_as_asked() {
    let viewport: f32 = 800.;
    assert_eq!(PopupSide::Above.placement(100.0_f32 > viewport * 0.5), Placement::Top);
    assert_eq!(PopupSide::Below.placement(700.0_f32 > viewport * 0.5), Placement::Bottom);
}

#[test]
fn hover_surfaces_open_promptly() {
    assert!(installed_or_default(None).hover_open_delay() <= 150);
    assert_eq!(PopupTokens::default().hover_close_delay(), 200);
    assert_eq!(PopupTokens::default().side(), PopupSide::Below);
}

#[test]
fn install_respects_a_policy_the_application_chose_first() {
    let chosen = PopupTokens::default().with_side(PopupSide::Above).with_hover_open_delay(50).with_hover_close_delay(75);
    let policy = installed_or_default(Some(chosen));
    assert_eq!(policy.side(), PopupSide::Above);
    assert_eq!(policy.hover_open_delay(), 50);
    assert_eq!(policy.hover_close_delay(), 75);
    assert_eq!(PopupSide::default(), PopupSide::Below);
}

use gpui_ai::approval::{ApprovalAccent, ApprovalCard, ApprovalChoice, ApprovalDecision, ApprovalEvent, ApprovalTone};
use gpui_ai::status::StatusTone;

#[test]
fn open_requests_offer_their_decisions() {
    let card = ApprovalCard::new("send", "Send order confirmation to 3 suppliers?")
        .description("Emails will go out immediately and cannot be recalled.");
    assert_eq!(card.accent(), ApprovalAccent::Warning);
    assert!(!card.is_decided());
    assert_eq!(card.decide(ApprovalChoice::Approve), Some(ApprovalEvent::Approved { id: "send".into() }));
    assert_eq!(card.decide(ApprovalChoice::Reject), Some(ApprovalEvent::Rejected { id: "send".into() }));
    assert_eq!(card.decide(ApprovalChoice::AlwaysAllow), None);
    let always = card.clone().allow_always(true).tone(ApprovalTone::Destructive);
    assert_eq!(always.accent(), ApprovalAccent::Danger);
    assert!(always.offers(ApprovalChoice::AlwaysAllow));
    assert_eq!(always.decide(ApprovalChoice::AlwaysAllow), Some(ApprovalEvent::ApprovedAlways { id: "send".into() }));
}

#[test]
fn closed_requests_show_their_outcome() {
    let approved = ApprovalCard::new("a", "Deploy?").decision(ApprovalDecision::Approved).note("Approved by Oscar");
    assert_eq!(approved.accent(), ApprovalAccent::Plain);
    assert_eq!(approved.decision_tone(), StatusTone::Success);
    assert_eq!(approved.decide(ApprovalChoice::Approve), None);
    assert_eq!(approved.shown_note().map(|s| s.as_str()), Some("Approved by Oscar"));
    let rejected = ApprovalCard::new("r", "Deploy?").decision(ApprovalDecision::Rejected);
    assert_eq!(rejected.decision_tone(), StatusTone::Neutral);
    assert_eq!(ApprovalDecision::Rejected.label(), "Rejected");
    assert_eq!(ApprovalDecision::default(), ApprovalDecision::Pending);
    assert_eq!(ApprovalTone::default(), ApprovalTone::Default);
    assert_eq!(ApprovalCard::new("p", "Q").note("n").shown_note(), None);
    assert_eq!(ApprovalCard::new("p", "Q").approve_label("Send").title(), "Q");
}

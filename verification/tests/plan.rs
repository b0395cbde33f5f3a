use gpui_ai::plan::{PlanCard, PlanDecision, PlanEvent, PlanState, PlanStep, PlanStepStatus};
use gpui_ai::status::StatusTone;

#[test]
fn plan_state_labels_and_tones_follow_the_lifecycle() {
    assert_eq!(PlanState::Proposed.label(), "Proposed");
    assert_eq!(PlanState::Completed.tone(), StatusTone::Success);
    assert_eq!(PlanState::Failed.tone(), StatusTone::Danger);
    assert_eq!(PlanState::Rejected.tone(), StatusTone::Neutral);
}

#[test]
fn done_steps_are_counted_for_the_accessible_name() {
    let card = PlanCard::new("p", "Plan").steps(vec![
        PlanStep::new("a", "A").status(PlanStepStatus::Done),
        PlanStep::new("b", "B").status(PlanStepStatus::Running),
        PlanStep::new("c", "C"),
    ]);
    assert_eq!(card.done_count(), 1);
}

#[test]
fn plan_names_read_progress_and_state() {
    let card = PlanCard::new("rollout", "Switch suppliers")
        .steps(vec![
            PlanStep::new("compare", "Compare prices").status(PlanStepStatus::Done),
            PlanStep::new("draft", "Draft the order"),
            PlanStep::new("send", "Send confirmations").detail("Emails 3 suppliers").status(PlanStepStatus::Skipped),
        ])
        .state(PlanState::Running);
    assert_eq!(card.accessibility_label(), "Plan: Switch suppliers, 1 of 3 steps done, running");
    assert_eq!(card.progress_text(), "1 / 3");
    assert_eq!(card.step_label(0), "Step 1: Compare prices, done");
    assert_eq!(card.step_label(2), "Step 3: Send confirmations, skipped");
    assert_eq!(PlanState::Running.tone(), StatusTone::Info);
    assert_eq!(PlanState::Approved.tone(), StatusTone::Success);
    assert_eq!(PlanState::default(), PlanState::Proposed);
    assert_eq!(PlanStepStatus::default(), PlanStepStatus::Pending);
    assert_eq!(PlanState::Completed.lower_label(), "completed");
}

#[test]
fn decisions_are_offered_only_while_proposed() {
    let proposed = PlanCard::new("p", "Plan");
    assert!(proposed.offers_decision());
    assert_eq!(proposed.decide(PlanDecision::Approve), Some(PlanEvent::Approved { id: "p".into() }));
    assert_eq!(proposed.decide(PlanDecision::Reject), Some(PlanEvent::Rejected { id: "p".into() }));
    assert_eq!(proposed.decide(PlanDecision::Edit), None);
    let editable = PlanCard::new("p", "Plan").editable(true);
    assert_eq!(editable.decide(PlanDecision::Edit), Some(PlanEvent::EditRequested { id: "p".into() }));
    let decided = PlanCard::new("p", "Plan").state(PlanState::Approved).note("Approved by Oscar").editable(true);
    assert!(!decided.offers_decision());
    assert_eq!(decided.decide(PlanDecision::Approve), None);
    assert_eq!(decided.shown_note().map(|n| n.as_str()), Some("Approved by Oscar"));
    assert_eq!(PlanCard::new("p", "Plan").note("n").shown_note(), None);
    let stepped = PlanCard::new("p", "Plan").steps(vec![PlanStep::new("s", "S")]);
    assert_eq!(stepped.activate_step(0), PlanEvent::StepActivated { id: "p".into(), step_id: "s".into() });
}

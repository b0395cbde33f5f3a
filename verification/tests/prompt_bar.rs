use gpui_ai::attachment::Attachment;
use gpui_ai::prompt_bar::{
    PromptActions, PromptBar, PromptBarEvent, PromptCommand, PromptMention, PromptModel, PromptSubmit, SuggestionKey,
};
use gpui_ai::stream::ProgressState;

fn bar() -> PromptBar {
    let mut bar = PromptBar::new("prompt");
    assert!(bar.set_models(vec![
        PromptModel::new("off", "Offline").disabled(true),
        PromptModel::new("fast", "Fast").provider("Anthropic").context_window(200_000),
        PromptModel::new("deep", "Deep").description("Slower, more careful"),
    ]));
    bar
}

#[test]
fn model_selection_stays_on_a_selectable_model() {
    let mut bar = bar();
    assert_eq!(bar.selected_model().map(|s| s.as_str()), Some("fast"));
    assert_eq!(bar.selected_model_label(), "Model: Fast");
    assert!(!bar.set_selected_model("off"));
    assert!(!bar.set_selected_model("fast"));
    assert!(bar.set_selected_model("deep"));
    assert!(!bar.set_models(vec![PromptModel::new("x", "X"), PromptModel::new("x", "Y")]));
    assert_eq!(bar.models().len(), 3);
    assert!(bar.set_models(vec![PromptModel::new("deep", "Deep").disabled(true), PromptModel::new("new", "New")]));
    assert_eq!(bar.selected_model().map(|s| s.as_str()), Some("new"));
    assert!(bar.set_models(Vec::new()));
    assert_eq!(bar.selected_model(), None);
    assert_eq!(bar.selected_model_label(), "No models available");
    assert_eq!(bar.models().len(), 0);
    assert!(!bar.toggle_model_menu());
}

#[test]
fn submissions_are_trimmed_and_clear_the_draft() {
    let mut bar = bar();
    assert!(bar.set_attachments(vec![Attachment::new("a1", "notes.md"), Attachment::new("a2", "hero.png")]));
    assert!(!bar.set_attachments(vec![Attachment::new("a1", "x"), Attachment::new("a1", "y")]));
    assert_eq!(
        bar.set_draft("  \n\t "),
        Some(PromptBarEvent::DraftChanged { id: "prompt".into(), draft: "  \n\t ".into() })
    );
    assert!(!bar.send_enabled());
    assert_eq!(bar.submit(), None);
    bar.set_draft("\u{3000} Summarise the doc \n");
    assert!(bar.send_enabled());
    let event = bar.submit().expect("a non-empty draft submits");
    match event {
        PromptBarEvent::Submit { id, submission } => {
            assert_eq!(id, "prompt");
            assert_eq!(submission.text(), "Summarise the doc");
            assert_eq!(submission.model_id().map(|s| s.as_str()), Some("fast"));
            assert_eq!(submission.attachment_ids(), &vec!["a1".to_owned(), "a2".to_owned()]);
        }
        other => panic!("unexpected {other:?}"),
    }
    assert_eq!(bar.draft(), "");
    assert_eq!(bar.set_draft(""), None);
}

#[test]
fn running_work_swaps_send_for_cancel() {
    let mut bar = bar();
    bar.set_draft("Go");
    bar.set_progress(ProgressState::Running);
    assert_eq!(bar.submit_label(), "Cancel");
    assert!(!bar.send_enabled());
    assert!(!bar.enhance_enabled());
    assert_eq!(bar.request_enhance(), None);
    assert_eq!(bar.submit(), None);
    assert_eq!(bar.cancel(), Some(PromptBarEvent::CancelRequested { id: "prompt".into() }));
    assert_eq!(bar.progress_text().as_deref(), Some("Running; cancel is available"));
    bar.set_progress(ProgressState::Failed("Quota".into()));
    assert_eq!(bar.progress_text().as_deref(), Some("Failed: Quota"));
    assert_eq!(bar.submit_label(), "Send");
    assert_eq!(bar.cancel(), None);
    assert_eq!(
        bar.request_enhance(),
        Some(PromptBarEvent::EnhanceRequested { id: "prompt".into(), draft: "Go".into() })
    );
    bar.set_progress(ProgressState::Pending);
    assert_eq!(bar.progress_text(), None);
    bar.set_progress(ProgressState::Complete);
    assert_eq!(bar.progress_text().as_deref(), Some("Ready for another prompt"));
}

#[test]
fn suggestions_wrap_and_insert_with_a_separator() {
    let mut bar = bar();
    assert!(bar.set_mentions(vec![PromptMention::new("m1", "pricing.md"), PromptMention::new("m2", "roadmap")]));
    assert!(bar.set_commands(vec![PromptCommand::new("c1", "summarize").description("Summarise")]));
    assert!(!bar.set_mentions(vec![PromptMention::new("d", "a"), PromptMention::new("d", "b")]));
    bar.show_suggestions(vec![
        SuggestionKey::Mention("m1".into()),
        SuggestionKey::Mention("m2".into()),
        SuggestionKey::Command("c1".into()),
    ]);
    assert_eq!(bar.active_suggestion(), Some(&SuggestionKey::Mention("m1".into())));
    bar.move_active_suggestion(-1);
    assert_eq!(bar.active_suggestion(), Some(&SuggestionKey::Command("c1".into())));
    bar.move_active_suggestion(1);
    assert_eq!(bar.active_suggestion(), Some(&SuggestionKey::Mention("m1".into())));
    bar.move_active_suggestion(1);
    let (text, event) = bar.active_insertion(None).expect("mention is catalogued");
    assert_eq!(text, "@roadmap ");
    assert_eq!(event, PromptBarEvent::MentionSelected { id: "prompt".into(), mention_id: "m2".into() });
    let (text, _) = bar.active_insertion(Some(' ')).unwrap();
    assert_eq!(text, "@roadmap");
    bar.move_active_suggestion(1);
    let (text, event) = bar.active_insertion(Some('x')).unwrap();
    assert_eq!(text, "/summarize ");
    assert_eq!(event, PromptBarEvent::CommandSelected { id: "prompt".into(), command_id: "c1".into() });
    assert!(bar.escape());
    assert_eq!(bar.active_suggestion(), None);
    assert!(!bar.escape());
    assert!(bar.toggle_model_menu());
    assert!(bar.escape());
    bar.dismiss_suggestions();
    assert_eq!(bar.active_insertion(None), None);
}

#[test]
fn action_row_preferences_and_events() {
    let mut bar = PromptBar::new("p");
    assert_eq!(bar.actions(), PromptActions::Split);
    assert_eq!(bar.submit_appearance(), PromptSubmit::Label);
    bar.set_actions(PromptActions::Trailing);
    bar.set_submit(PromptSubmit::Glyph);
    assert_eq!(bar.actions(), PromptActions::Trailing);
    assert_eq!(bar.submit_appearance(), PromptSubmit::Glyph);
    assert_eq!(bar.request_attach(), PromptBarEvent::AttachRequested { id: "p".into() });
    assert_eq!(
        bar.remove_attachment("a1"),
        PromptBarEvent::AttachmentRemoved { id: "p".into(), attachment_id: "a1".into() }
    );
    assert_eq!(PromptActions::default(), PromptActions::Split);
    assert_eq!(PromptSubmit::default(), PromptSubmit::Label);
    let model = PromptModel::new("m", "M").provider("P").description("D").context_window(8_000);
    assert_eq!(model.provider_name().map(|s| s.as_str()), Some("P"));
    assert_eq!(model.description_text().map(|s| s.as_str()), Some("D"));
    assert_eq!(model.context_window_tokens(), Some(8_000));
    assert!(!model.is_disabled());
}

use gpui_ai::chat::{ChatWelcome, CitationRef, FollowUp};
use gpui_ai::chat::transcript::{jump_label, message_ids_are_unique, shows_jump, structural_splice, ScrollIntent};
use gpui_ai::chat::{BranchPosition, Chat, ChatEvent, ChatMessage, ChatRole};
use gpui_ai::attachment::Attachment;
use gpui_ai::stream::{ProgressState, StreamedContent};

fn message(id: &str) -> ChatMessage {
    ChatMessage::new(id, ChatRole::Assistant, StreamedContent::done("Message text"))
}

fn ids(list: &[&str]) -> Vec<String> {
    list.iter().map(|s| s.to_string()).collect()
}

#[test]
fn controlled_snapshots_require_unique_stable_message_ids() {
    let valid = ids(&["m0001", "m0002"]);
    assert!(message_ids_are_unique(&valid));

    let duplicate = ids(&["m0001", "m0001"]);
    assert!(!message_ids_are_unique(&duplicate));
}

#[test]
fn failed_message_state_is_not_inferred_from_color() {
    let failed = ChatMessage::new(
        "failed",
        ChatRole::Assistant,
        StreamedContent::failed(String::new(), "Unavailable"),
    );
    assert!(matches!(
        failed.content().state(),
        ProgressState::Failed(reason) if reason == "Unavailable"
    ));
}

#[test]
fn chat_log_list_and_message_expose_direct_named_semantics() {
    let message = ChatMessage::new(
        "semantic-message",
        ChatRole::Assistant,
        StreamedContent::failed(String::new(), "Network unavailable"),
    )
    .author("Mighty");
    assert_eq!(message.accessibility_label(), "Mighty, Assistant message");
    assert_eq!(message.state_description(), "Failed: Network unavailable");
}

#[test]
fn offscreen_appends_count_as_unread_until_the_reader_follows() {
    let mut chat = Chat::new("chat");
    assert!(chat.set_messages(vec![message("a")], true, None).is_some());
    assert_eq!(chat.unread_count(), 0);
    let update = chat.set_messages(vec![message("a"), message("b"), message("c")], false, Some(0)).unwrap();
    assert_eq!(update.arrived, ids(&["b", "c"]));
    assert!(!update.is_replacement);
    assert_eq!(update.splice, (1, 1, 2));
    assert_eq!(chat.unread_count(), 2);
    assert!(shows_jump(chat.unread_count(), false));
    assert!(!shows_jump(chat.unread_count(), true));
    assert_eq!(jump_label(2), "Jump to latest, 2 unread messages");
    assert_eq!(jump_label(1), "Jump to latest, 1 unread message");
    chat.set_messages(vec![message("a"), message("c")], false, Some(0)).unwrap();
    assert_eq!(chat.unread_count(), 1);
    chat.set_messages(vec![message("a"), message("c"), message("d")], true, None).unwrap();
    assert_eq!(chat.unread_count(), 0);
}

#[test]
fn switching_conversations_is_not_a_burst_of_arrivals() {
    let mut chat = Chat::new("chat");
    chat.set_messages(vec![message("a"), message("b")], true, None).unwrap();
    let update = chat.set_messages(vec![message("x"), message("y")], false, Some(0)).unwrap();
    assert!(update.is_replacement);
    assert!(update.arrived.is_empty());
    assert_eq!(chat.unread_count(), 0);
}

#[test]
fn a_snapshot_repeating_an_identity_is_ignored() {
    let mut chat = Chat::new("chat");
    chat.set_messages(vec![message("a")], true, None).unwrap();
    assert!(chat.set_messages(vec![message("b"), message("b")], true, None).is_none());
    assert_eq!(chat.messages().len(), 1);
    assert_eq!(chat.messages()[0].id(), "a");
}

#[test]
fn structural_splice_keeps_shared_prefix_and_suffix() {
    assert_eq!(structural_splice(&ids(&["a", "b", "c"]), &ids(&["a", "x", "c"])), (1, 2, 1));
    assert_eq!(structural_splice(&ids(&["a", "b"]), &ids(&["a", "b", "c"])), (2, 2, 1));
    assert_eq!(structural_splice(&ids(&[]), &ids(&["a"])), (0, 0, 1));
    assert_eq!(structural_splice(&ids(&["a", "b"]), &ids(&["a", "b"])), (2, 2, 0));
}

#[test]
fn per_message_state_does_not_outlive_its_message() {
    let mut chat = Chat::new("chat");
    chat.set_messages(vec![message("a"), message("b")], true, None).unwrap();
    assert!(chat.begin_edit("b").is_some());
    assert_eq!(chat.editing_message().map(|s| s.as_str()), Some("b"));
    let update = chat.set_messages(vec![message("a")], true, None).unwrap();
    assert!(update.editor_closed);
    assert_eq!(chat.editing_message(), None);
}

#[test]
fn branch_positions_read_one_based() {
    let position = BranchPosition::new(1, 3);
    assert_eq!(position.label(), "Version 2 of 3");
    assert_eq!(position.counter(), "2 / 3");
    assert_eq!(position.previous(), Some(0));
    assert_eq!(position.next(), Some(2));
    let last = BranchPosition::new(2, 3);
    assert_eq!(last.next(), None);
    let chat = Chat::new("chat");
    assert_eq!(
        chat.select_branch("m", 2),
        ChatEvent::BranchSelected { message_id: "m".into(), index: 2 }
    );
    assert_eq!(ChatRole::User.label(), "User");
}

#[test]
fn an_in_place_edit_submits_its_trimmed_draft_once() {
    let mut chat = Chat::new("chat");
    chat.set_messages(
        vec![ChatMessage::new("u1", ChatRole::User, StreamedContent::done("First question"))],
        true,
        None,
    )
    .unwrap();
    // Nothing to commit or draft into before an edit begins.
    assert_eq!(chat.submit_edit(), None);
    chat.set_edit_draft("ignored");
    assert_eq!(chat.begin_edit("missing"), None);

    assert_eq!(
        chat.begin_edit("u1"),
        Some(ChatEvent::EditRequested { message_id: "u1".into() })
    );
    // Beginning the same edit again is not a second request.
    assert_eq!(chat.begin_edit("u1"), None);
    // The draft starts from the message text, so submitting it unchanged
    // reports that text.
    chat.set_edit_draft("   \n ");
    assert_eq!(chat.submit_edit(), None, "a blank draft cannot erase a message");
    assert_eq!(chat.editing_message().map(|s| s.as_str()), Some("u1"));

    chat.set_edit_draft("  Revised question \n");
    assert_eq!(
        chat.submit_edit(),
        Some(ChatEvent::EditSubmitted { message_id: "u1".into(), text: "Revised question".into() })
    );
    assert_eq!(chat.editing_message(), None);
    assert_eq!(chat.submit_edit(), None);
}

#[test]
fn an_untouched_draft_submits_the_message_text() {
    let mut chat = Chat::new("chat");
    chat.set_messages(
        vec![ChatMessage::new("u1", ChatRole::User, StreamedContent::done(" Keep me "))],
        true,
        None,
    )
    .unwrap();
    chat.begin_edit("u1").unwrap();
    assert_eq!(
        chat.submit_edit(),
        Some(ChatEvent::EditSubmitted { message_id: "u1".into(), text: "Keep me".into() })
    );
}

#[test]
fn cancelling_an_edit_reports_the_message_once() {
    let mut chat = Chat::new("chat");
    chat.set_messages(vec![message("a")], true, None).unwrap();
    assert_eq!(chat.cancel_edit(), None);
    chat.begin_edit("a").unwrap();
    assert_eq!(chat.cancel_edit(), Some(ChatEvent::EditCancelled { message_id: "a".into() }));
    assert_eq!(chat.cancel_edit(), None);
}

#[test]
fn copying_returns_the_message_text_and_remembers_the_confirmation() {
    let mut chat = Chat::new("chat");
    chat.set_messages(
        vec![ChatMessage::new("a", ChatRole::Assistant, StreamedContent::done("Answer body"))],
        true,
        None,
    )
    .unwrap();
    assert_eq!(chat.copy_message("zzz"), None);
    let (text, event) = chat.copy_message("a").unwrap();
    assert_eq!(text, "Answer body");
    assert_eq!(event, ChatEvent::MessageCopied { message_id: "a".into() });
    assert_eq!(chat.transcript().copied_message().map(|s| s.as_str()), Some("a"));
}

#[test]
fn feedback_is_kept_per_held_message() {
    let mut chat = Chat::new("chat");
    chat.set_messages(vec![message("a")], true, None).unwrap();
    assert_eq!(chat.submit_feedback("b", true), None);
    assert_eq!(
        chat.submit_feedback("a", false),
        Some(ChatEvent::FeedbackSubmitted { message_id: "a".into(), positive: false })
    );
    assert_eq!(chat.transcript().feedback_for(&"a".to_string()), Some(false));
    assert_eq!(chat.retry("a"), ChatEvent::RetryRequested { message_id: "a".into() });
}

#[test]
fn a_message_carries_its_attachments_in_order() {
    let plain = message("a");
    assert!(plain.attachment_refs().is_empty());
    let with_files = message("a")
        .attachments(vec![Attachment::new("f1", "notes.pdf"), Attachment::new("f2", "chart.png")]);
    let ids: Vec<&str> = with_files.attachment_refs().iter().map(|a| a.id().as_str()).collect();
    assert_eq!(ids, vec!["f1", "f2"]);
    assert_eq!(with_files.id(), "a");
}

fn numbered(range: std::ops::Range<usize>) -> Vec<ChatMessage> {
    range.map(|i| message(&format!("m{i:04}"))).collect()
}

#[test]
fn offscreen_append_counts_unread_and_keeps_the_anchor() {
    let mut chat = Chat::new("chat");
    chat.set_messages(numbered(0..60), true, None).unwrap();
    chat.on_scroll(false, 12, 20);
    assert!(!chat.is_pinned_to_bottom(true));
    assert_eq!(chat.visible_range(), (12, 20));
    let update = chat.set_messages(numbered(0..63), false, Some(12)).unwrap();
    assert_eq!(chat.unread_count(), 3);
    assert_eq!(update.scroll, ScrollIntent::Restore { item_ix: 12 });
    assert!(!chat.is_pinned_to_bottom(true));

    // Removing an unread message takes it out of the unread set.
    chat.set_messages(numbered(0..62), false, Some(12)).unwrap();
    assert_eq!(chat.unread_count(), 2);
    assert!(shows_jump(chat.unread_count(), false));

    // Following the tail again reads everything.
    chat.on_scroll(true, 55, 62);
    assert_eq!(chat.unread_count(), 0);
    assert!(chat.is_pinned_to_bottom(true));
}

#[test]
fn prepended_history_keeps_the_top_message_and_is_not_unread() {
    let mut chat = Chat::new("chat");
    chat.set_messages(numbered(10..70), true, None).unwrap();
    chat.on_scroll(false, 20, 30);
    let update = chat.set_messages(numbered(0..70), false, Some(20)).unwrap();
    // m0030 was the top row at index 20; it now sits at index 30.
    assert_eq!(update.scroll, ScrollIntent::Restore { item_ix: 30 });
    assert_eq!(chat.unread_count(), 0);
}

#[test]
fn clearing_the_conversation_clears_unread_state() {
    let mut chat = Chat::new("chat");
    chat.set_messages(numbered(0..5), true, None).unwrap();
    chat.on_scroll(false, 0, 2);
    chat.set_messages(numbered(0..8), false, Some(0)).unwrap();
    assert_eq!(chat.unread_count(), 3);
    let update = chat.set_messages(Vec::new(), false, Some(0)).unwrap();
    assert!(chat.messages().is_empty());
    assert_eq!(chat.unread_count(), 0);
    assert!(chat.is_pinned_to_bottom(true));
    assert_eq!(update.scroll, ScrollIntent::FollowTail);
    assert!(!shows_jump(chat.unread_count(), true));
}

#[test]
fn a_disjoint_conversation_opens_at_its_end_without_arrivals() {
    let mut chat = Chat::new("chat");
    chat.set_messages(numbered(0..12), true, None).unwrap();
    chat.on_scroll(false, 0, 4);
    let update = chat.set_messages(numbered(100..112), false, Some(0)).unwrap();
    assert!(update.is_replacement);
    assert!(update.arrived.is_empty());
    assert!(update.settled.is_empty());
    assert_eq!(update.scroll, ScrollIntent::FollowTail);
    assert_eq!(chat.unread_count(), 0);
    assert!(chat.is_pinned_to_bottom(true));
    assert!(!chat.transcript().is_arrival(&"m0100".to_string()));
}

#[test]
fn per_message_marks_do_not_survive_a_new_conversation() {
    let mut chat = Chat::new("chat");
    chat.set_messages(numbered(0..6), true, None).unwrap();
    chat.submit_feedback("m0001", true).unwrap();
    chat.copy_message("m0002").unwrap();
    chat.begin_edit("m0003").unwrap();
    let update = chat.set_messages(numbered(100..106), true, None).unwrap();
    assert!(update.editor_closed);
    assert_eq!(chat.editing_message(), None);
    assert_eq!(chat.transcript().feedback_for(&"m0001".to_string()), None);
    assert_eq!(chat.transcript().copied_message(), None);
}

#[test]
fn a_stream_settling_is_reported_once_with_its_outcome() {
    let mut chat = Chat::new("chat");
    let running = |id: &str| ChatMessage::new(id, ChatRole::Assistant, StreamedContent::running("Par".into()));
    chat.set_messages(vec![message("q"), running("a"), running("b")], true, None).unwrap();
    let update = chat
        .set_messages(
            vec![
                message("q"),
                ChatMessage::new("a", ChatRole::Assistant, StreamedContent::done("Partial answer")),
                ChatMessage::new("b", ChatRole::Assistant, StreamedContent::failed("Par".into(), "Stopped")),
                message("c"),
            ],
            true,
            None,
        )
        .unwrap();
    let settled: Vec<(&str, bool)> =
        update.settled.iter().map(|m| (m.message_id.as_str(), m.succeeded)).collect();
    assert_eq!(settled, vec![("a", true), ("b", false)]);
    assert_eq!(update.arrived, ids(&["c"]));
    // The stored messages are the new snapshot, content included.
    assert_eq!(chat.messages()[1].content().text(), "Partial answer");
}

#[test]
fn jumping_to_latest_reads_everything_and_pins_when_it_lands() {
    let mut chat = Chat::new("chat");
    chat.set_messages(numbered(0..10), true, None).unwrap();
    chat.on_scroll(false, 0, 3);
    chat.set_messages(numbered(0..12), false, Some(0)).unwrap();
    assert_eq!(chat.unread_count(), 2);

    // An animated jump reads everything at once but pins only on arrival.
    assert_eq!(chat.scroll_to_latest(false), ChatEvent::JumpedToLatest);
    assert_eq!(chat.unread_count(), 0);
    assert!(!chat.is_pinned_to_bottom(true));
    assert!(chat.settle_jump());
    assert!(chat.is_pinned_to_bottom(true));
    assert!(!chat.settle_jump());

    // An interrupted jump leaves the reader where they are.
    chat.on_scroll(false, 0, 3);
    chat.scroll_to_latest(false);
    assert!(chat.cancel_jump());
    assert!(!chat.settle_jump());
    assert!(!chat.is_pinned_to_bottom(true));

    // Under reduced motion, or at the tail already, the jump lands at once.
    assert_eq!(chat.scroll_to_latest(true), ChatEvent::JumpedToLatest);
    assert!(chat.is_pinned_to_bottom(true));

    // An empty conversation has nothing to travel through.
    let mut empty = Chat::new("empty");
    empty.on_scroll(false, 0, 0);
    empty.scroll_to_latest(false);
    assert!(empty.is_pinned_to_bottom(true));
}

#[test]
fn actions_wait_for_settled_content_and_hide_while_editing() {
    let mut chat = Chat::new("chat");
    let streaming = ChatMessage::new("s", ChatRole::Assistant, StreamedContent::running("...".into()));
    let user = ChatMessage::new("u", ChatRole::User, StreamedContent::done("Hello"));
    let system = ChatMessage::new("y", ChatRole::System, StreamedContent::done("Note"));
    chat.set_messages(vec![streaming.clone(), user.clone(), system.clone()], true, None).unwrap();
    assert!(!chat.shows_actions(&streaming));
    assert!(chat.shows_actions(&user));
    assert!(!chat.shows_actions(&system));
    chat.begin_edit("u").unwrap();
    assert!(!chat.shows_actions(&user));
    chat.cancel_edit();
    assert!(chat.shows_actions(&user));
}

#[test]
fn the_copy_confirmation_can_be_hidden() {
    let mut chat = Chat::new("chat");
    chat.set_messages(vec![message("a")], true, None).unwrap();
    chat.copy_message("a").unwrap();
    chat.clear_copied();
    assert_eq!(chat.transcript().copied_message(), None);
}

#[test]
fn messages_carry_citations_and_follow_ups_and_the_chat_a_welcome() {
    let answered = ChatMessage::new("answer", ChatRole::Assistant, StreamedContent::done("See [[cite:pricing]]."))
        .citations(vec![CitationRef::new("pricing", "Pricing", "Open pricing", "app://pricing")])
        .follow_ups(vec![FollowUp::new("compare", "Compare suppliers")]);
    assert_eq!(answered.citation_refs()[0].destination(), "app://pricing");
    assert_eq!(answered.citation_refs()[0].action_label(), "Open pricing");
    assert_eq!(answered.follow_up_suggestions()[0].label(), "Compare suppliers");

    let mut chat = Chat::new("chat");
    assert!(chat.welcome().is_none());
    let welcome = ChatWelcome::new("How can I help?")
        .description("Ask about suppliers")
        .suggestions(vec![FollowUp::new("s1", "Summarise")]);
    chat.set_welcome(Some(welcome));
    let shown = chat.welcome().unwrap();
    assert_eq!(shown.title(), "How can I help?");
    assert_eq!(shown.description_text().map(|s| s.as_str()), Some("Ask about suppliers"));
    assert_eq!(shown.suggestion_items()[0].id(), "s1");
    chat.set_welcome(None);
    assert!(chat.welcome().is_none());
}

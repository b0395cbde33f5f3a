//! A controlled, virtualized chat transcript: messages, their presentation,
//! and the state the transcript keeps across snapshot replacements.

pub mod transcript;

use vstd::prelude::*;
use crate::stream::{ProgressState, StreamedContent};
use crate::attachment::Attachment;
use crate::prompt_bar::PromptBarEvent;
use crate::text::{decimal, push_decimal, trim_spec, trim_white_space};
use crate::ids::{opt_view, views};
use transcript::{
    Transcript, TranscriptEntry, SnapshotUpdate, appended_spec, entry_ids, settled_spec, settled_view, snapshot_applied,
    was_streaming, lemma_message_state_belongs_to_messages,
};

verus! {

/// Where a message sits among its sibling versions (regenerations or edits).
#[derive(Debug, Clone, Copy, PartialEq, Eq, Structural)]
pub struct BranchPosition {
    index: usize,
    count: usize,
}

impl BranchPosition {
    /// A position holds at least one version and points at one of them.
    #[verifier::type_invariant]
    spec fn inv(self) -> bool {
        1 <= self.count && self.index < self.count
    }

    /// Zero-based index of the shown version.
    pub closed spec fn index_spec(self) -> nat {
        self.index as nat
    }

    /// Number of versions.
    pub closed spec fn count_spec(self) -> nat {
        self.count as nat
    }

    /// Creates a position; `index` is zero-based and clamped below `count`
    /// (which is at least one).
    pub fn new(index: usize, count: usize) -> (r: Self)
        ensures
            r.count_spec() == if count == 0 { 1 } else { count as nat },
            r.index_spec() == if index < r.count_spec() { index as nat } else { (r.count_spec() - 1) as nat },
    {
        let count = if count < 1 { 1 } else { count };
        let index = if index < count - 1 { index } else { count - 1 };
        BranchPosition { index, count }
    }

    /// Zero-based index of the shown version.
    pub fn index(self) -> (r: usize)
        ensures
            r == self.index_spec(),
            r < self.count_spec(),
    {
        proof {
            use_type_invariant(&self);
        }
        self.index
    }

    /// Number of versions.
    pub fn count(self) -> (r: usize)
        ensures
            r == self.count_spec(),
            r >= 1,
    {
        proof {
            use_type_invariant(&self);
        }
        self.count
    }

    /// The accessible name of the version switcher: `Version 2 of 3`.
    pub fn label(self) -> (r: String)
        ensures
            r@ == "Version "@ + decimal(self.index_spec() + 1) + " of "@ + decimal(self.count_spec()),
    {
        proof {
            use_type_invariant(&self);
        }
        let mut s = "Version ".to_owned();
        push_decimal(&mut s, (self.index + 1) as u64);
        s.append(" of ");
        push_decimal(&mut s, self.count as u64);
        s
    }

    /// The compact position shown between the arrows: `2 / 3`.
    pub fn counter(self) -> (r: String)
        ensures
            r@ == decimal(self.index_spec() + 1) + " / "@ + decimal(self.count_spec()),
    {
        proof {
            use_type_invariant(&self);
        }
        let mut s = String::new();
        push_decimal(&mut s, (self.index + 1) as u64);
        s.append(" / ");
        push_decimal(&mut s, self.count as u64);
        proof {
            assert(Seq::<char>::empty() + decimal(self.index_spec() + 1) =~= decimal(self.index_spec() + 1));
        }
        s
    }

    /// The version the previous-version control selects, if there is one.
    pub fn previous(self) -> (r: Option<usize>)
        ensures
            r == if self.index_spec() > 0 { Some((self.index_spec() - 1) as usize) } else { None::<usize> },
    {
        if self.index > 0 {
            Some(self.index - 1)
        } else {
            None
        }
    }

    /// The version the next-version control selects, if there is one.
    pub fn next(self) -> (r: Option<usize>)
        ensures
            r == if self.index_spec() + 1 < self.count_spec() {
                Some((self.index_spec() + 1) as usize)
            } else {
                None::<usize>
            },
    {
        proof {
            use_type_invariant(&self);
        }
        if self.index + 1 < self.count {
            Some(self.index + 1)
        } else {
            None
        }
    }
}

/// The semantic speaker or producer of a [`ChatMessage`].
#[derive(Debug, Clone, Copy, PartialEq, Eq, Structural)]
pub enum ChatRole {
    /// A message authored by the person using the application.
    User,
    /// A message authored by the assistant.
    Assistant,
    /// Application or conversation-level guidance.
    System,
    /// Output produced by an application-owned tool invocation.
    Tool,
}

/// The word a role is announced with.
pub open spec fn role_label(role: ChatRole) -> Seq<char> {
    match role {
        ChatRole::User => "User"@,
        ChatRole::Assistant => "Assistant"@,
        ChatRole::System => "System"@,
        ChatRole::Tool => "Tool"@,
    }
}

impl ChatRole {
    /// The word this role is announced with.
    pub fn label(self) -> (r: &'static str)
        ensures
            r@ == role_label(self),
    {
        match self {
            ChatRole::User => "User",
            ChatRole::Assistant => "Assistant",
            ChatRole::System => "System",
            ChatRole::Tool => "Tool",
        }
    }
}

/// Horizontal placement of a message within the transcript.
#[derive(Debug, Clone, Copy, PartialEq, Eq, Structural)]
pub enum MessageAlignment {
    /// Hug the transcript's leading edge (default).
    Leading,
    /// Push toward the transcript's trailing edge.
    Trailing,
}

/// Surface treatment of the message frame.
#[derive(Debug, Clone, Copy, PartialEq, Eq, Structural)]
pub enum MessageBubble {
    /// Card with border and surface background (default).
    Bordered,
    /// Filled tint with no border (chat-bubble look).
    Filled,
    /// No frame at all; content sits directly on the transcript.
    Plain,
}

/// Application-controlled presentation for one message.
#[derive(Debug, Clone, Copy, PartialEq, Eq, Structural)]
pub struct ChatMessageAppearance {
    alignment: MessageAlignment,
    bubble: MessageBubble,
}

impl ChatMessageAppearance {
    /// The placement.
    pub closed spec fn alignment_spec(self) -> MessageAlignment {
        self.alignment
    }

    /// The surface treatment.
    pub closed spec fn bubble_spec(self) -> MessageBubble {
        self.bubble
    }

    /// Creates an appearance with explicit alignment and bubble treatment.
    pub fn new(alignment: MessageAlignment, bubble: MessageBubble) -> (r: Self)
        ensures
            r.alignment_spec() == alignment,
            r.bubble_spec() == bubble,
    {
        ChatMessageAppearance { alignment, bubble }
    }

    /// Horizontal placement of this message.
    pub fn alignment(&self) -> (r: MessageAlignment)
        ensures
            r == self.alignment_spec(),
    {
        self.alignment
    }

    /// Surface treatment of this message.
    pub fn bubble(&self) -> (r: MessageBubble)
        ensures
            r == self.bubble_spec(),
    {
        self.bubble
    }
}

impl Default for ChatMessageAppearance {
    fn default() -> (r: Self)
        ensures
            r.alignment_spec() == MessageAlignment::Leading,
            r.bubble_spec() == MessageBubble::Bordered,
    {
        ChatMessageAppearance { alignment: MessageAlignment::Leading, bubble: MessageBubble::Bordered }
    }
}

/// The per-message actions a transcript row offers.
#[derive(Debug, Clone, Copy, PartialEq, Eq, Structural)]
pub struct MessageActions {
    copy: bool,
    regenerate: bool,
    edit: bool,
    feedback: bool,
}

impl MessageActions {
    /// The conventional `(copy, regenerate, edit, feedback)` set for a role.
    pub open spec fn for_role_spec(role: ChatRole) -> (bool, bool, bool, bool) {
        match role {
            ChatRole::Assistant => (true, true, false, true),
            ChatRole::User => (true, false, true, false),
            ChatRole::Tool => (true, false, false, false),
            ChatRole::System => (false, false, false, false),
        }
    }

    /// `(copy, regenerate, edit, feedback)`.
    pub closed spec fn offered(self) -> (bool, bool, bool, bool) {
        (self.copy, self.regenerate, self.edit, self.feedback)
    }

    /// No actions.
    pub fn none() -> (r: Self)
        ensures
            r.offered() == (false, false, false, false),
    {
        MessageActions { copy: false, regenerate: false, edit: false, feedback: false }
    }

    /// The conventional set for a role: assistant replies can be copied,
    /// regenerated, and rated; user prompts can be copied and edited; tool
    /// output can be copied; system notes offer nothing.
    pub fn for_role(role: ChatRole) -> (r: Self)
        ensures
            r.offered() == Self::for_role_spec(role),
            role == ChatRole::Assistant ==> r.offered() == (true, true, false, true),
            role == ChatRole::User ==> r.offered() == (true, false, true, false),
            role == ChatRole::Tool ==> r.offered() == (true, false, false, false),
            role == ChatRole::System ==> r.offered() == (false, false, false, false),
    {
        match role {
            ChatRole::Assistant => Self::none().copy(true).regenerate(true).feedback(true),
            ChatRole::User => Self::none().copy(true).edit(true),
            ChatRole::Tool => Self::none().copy(true),
            ChatRole::System => Self::none(),
        }
    }

    /// Offers copying the message text to the clipboard.
    pub fn copy(self, enabled: bool) -> (r: Self)
        ensures
            r.offered() == (enabled, self.offered().1, self.offered().2, self.offered().3),
    {
        MessageActions { copy: enabled, ..self }
    }

    /// Offers requesting a new response.
    pub fn regenerate(self, enabled: bool) -> (r: Self)
        ensures
            r.offered() == (self.offered().0, enabled, self.offered().2, self.offered().3),
    {
        MessageActions { regenerate: enabled, ..self }
    }

    /// Offers editing (and resending) the message.
    pub fn edit(self, enabled: bool) -> (r: Self)
        ensures
            r.offered() == (self.offered().0, self.offered().1, enabled, self.offered().3),
    {
        MessageActions { edit: enabled, ..self }
    }

    /// Offers helpful / not-helpful feedback.
    pub fn feedback(self, enabled: bool) -> (r: Self)
        ensures
            r.offered() == (self.offered().0, self.offered().1, self.offered().2, enabled),
    {
        MessageActions { feedback: enabled, ..self }
    }

    /// Whether no action is offered.
    pub fn is_empty(&self) -> (r: bool)
        ensures
            r == !(self.offered().0 || self.offered().1 || self.offered().2 || self.offered().3),
    {
        !(self.copy || self.regenerate || self.edit || self.feedback)
    }
}

impl Default for MessageActions {
    fn default() -> (r: Self)
        ensures
            r.offered() == (false, false, false, false),
    {
        MessageActions::none()
    }
}

/// A message without explicitly chosen actions offers the set for its
/// role, as `(copy, regenerate, edit, feedback)`: an assistant reply can be
/// copied, regenerated and rated but not edited; a user prompt copied and
/// edited; tool output only copied; a system note nothing. Every role but
/// the system offers copying, only assistant replies offer regeneration or
/// feedback, and only user prompts offer editing.
pub proof fn lemma_default_actions_by_role(m: ChatMessage)
    requires
        m.actions_spec() is None,
    ensures
        m.role_spec() == ChatRole::Assistant ==> m.offered_actions() == (true, true, false, true),
        m.role_spec() == ChatRole::User ==> m.offered_actions() == (true, false, true, false),
        m.role_spec() == ChatRole::Tool ==> m.offered_actions() == (true, false, false, false),
        m.role_spec() == ChatRole::System ==> m.offered_actions() == (false, false, false, false),
        m.offered_actions().0 == (m.role_spec() != ChatRole::System),
        m.offered_actions().1 == (m.role_spec() == ChatRole::Assistant),
        m.offered_actions().2 == (m.role_spec() == ChatRole::User),
        m.offered_actions().3 == (m.role_spec() == ChatRole::Assistant),
{
}

/// The announced state of a message: `Pending`, `Streaming`, `Complete`,
/// or `Failed: <reason>`.
pub open spec fn state_description_spec(state: ProgressState) -> Seq<char> {
    match state {
        ProgressState::Pending => "Pending"@,
        ProgressState::Running => "Streaming"@,
        ProgressState::Complete => "Complete"@,
        ProgressState::Failed(reason) => "Failed: "@ + reason@,
    }
}

/// Application-owned metadata for an inline citation: its identity, the
/// label shown, the label announced for activating it, and the opaque
/// destination reported when it is activated.
#[derive(Debug, Clone, PartialEq, Eq)]
pub struct CitationRef {
    id: String,
    label: String,
    action_label: String,
    destination: String,
}

impl CitationRef {
    /// The stable identity.
    pub closed spec fn id_view(self) -> Seq<char> {
        self.id@
    }

    /// The visible label.
    pub closed spec fn label_view(self) -> Seq<char> {
        self.label@
    }

    /// The label announced for activating the citation.
    pub closed spec fn action_label_view(self) -> Seq<char> {
        self.action_label@
    }

    /// The opaque application-owned destination.
    pub closed spec fn destination_view(self) -> Seq<char> {
        self.destination@
    }

    /// Creates citation metadata.
    pub fn new(id: &str, label: &str, action_label: &str, destination: &str) -> (r: Self)
        ensures
            r.id_view() == id@,
            r.label_view() == label@,
            r.action_label_view() == action_label@,
            r.destination_view() == destination@,
    {
        CitationRef {
            id: id.to_owned(),
            label: label.to_owned(),
            action_label: action_label.to_owned(),
            destination: destination.to_owned(),
        }
    }

    /// The stable identity.
    pub fn id(&self) -> (r: &String)
        ensures
            r@ == self.id_view(),
    {
        &self.id
    }

    /// The visible label.
    pub fn label(&self) -> (r: &String)
        ensures
            r@ == self.label_view(),
    {
        &self.label
    }

    /// The label announced for activating the citation.
    pub fn action_label(&self) -> (r: &String)
        ensures
            r@ == self.action_label_view(),
    {
        &self.action_label
    }

    /// The opaque application-owned destination.
    pub fn destination(&self) -> (r: &String)
        ensures
            r@ == self.destination_view(),
    {
        &self.destination
    }
}

/// A suggested next prompt with stable identity and a visible label; the
/// same shape serves the starter prompts of a welcome.
#[derive(Debug, Clone, PartialEq, Eq)]
pub struct FollowUp {
    id: String,
    label: String,
}

impl FollowUp {
    /// The stable identity.
    pub closed spec fn id_view(self) -> Seq<char> {
        self.id@
    }

    /// The visible label.
    pub closed spec fn label_view(self) -> Seq<char> {
        self.label@
    }

    /// Creates a suggestion.
    pub fn new(id: &str, label: &str) -> (r: Self)
        ensures
            r.id_view() == id@,
            r.label_view() == label@,
    {
        FollowUp { id: id.to_owned(), label: label.to_owned() }
    }

    /// The stable identity.
    pub fn id(&self) -> (r: &String)
        ensures
            r@ == self.id_view(),
    {
        &self.id
    }

    /// The visible label.
    pub fn label(&self) -> (r: &String)
        ensures
            r@ == self.label_view(),
    {
        &self.label
    }
}

/// What an empty conversation shows: a headline, optional guidance, and
/// starter prompts reported through [`ChatEvent::SuggestionSelected`].
#[derive(Debug, Clone, PartialEq, Eq)]
pub struct ChatWelcome {
    title: String,
    description: Option<String>,
    suggestions: Vec<FollowUp>,
}

impl ChatWelcome {
    /// The headline.
    pub closed spec fn title_view(self) -> Seq<char> {
        self.title@
    }

    /// The supporting guidance.
    pub closed spec fn description_view(self) -> Option<Seq<char>> {
        opt_view(self.description)
    }

    /// The starter prompts.
    pub closed spec fn suggestions_spec(self) -> Seq<FollowUp> {
        self.suggestions@
    }

    /// Creates a welcome with a headline.
    pub fn new(title: &str) -> (r: Self)
        ensures
            r.title_view() == title@,
            r.description_view() is None,
            r.suggestions_spec() == Seq::<FollowUp>::empty(),
    {
        ChatWelcome { title: title.to_owned(), description: None, suggestions: Vec::new() }
    }

    /// Adds supporting guidance under the headline.
    pub fn description(self, description: &str) -> (r: Self)
        ensures
            r.title_view() == self.title_view(),
            r.description_view() == Some(description@),
            r.suggestions_spec() == self.suggestions_spec(),
    {
        ChatWelcome { description: Some(description.to_owned()), ..self }
    }

    /// Adds starter prompts.
    pub fn suggestions(self, suggestions: Vec<FollowUp>) -> (r: Self)
        ensures
            r.title_view() == self.title_view(),
            r.description_view() == self.description_view(),
            r.suggestions_spec() == suggestions@,
    {
        ChatWelcome { suggestions, ..self }
    }

    /// The headline.
    pub fn title(&self) -> (r: &String)
        ensures
            r@ == self.title_view(),
    {
        &self.title
    }

    /// The supporting guidance.
    pub fn description_text(&self) -> (r: Option<&String>)
        ensures
            match r {
                Some(x) => self.description_view() == Some(x@),
                None => self.description_view() is None,
            },
    {
        self.description.as_ref()
    }

    /// The starter prompts.
    pub fn suggestion_items(&self) -> (r: &Vec<FollowUp>)
        ensures
            r@ == self.suggestions_spec(),
    {
        &self.suggestions
    }
}

/// One application-owned message snapshot rendered by a chat.
///
/// IDs must be unique within a controlled snapshot.
#[derive(Debug, Clone)]
pub struct ChatMessage {
    id: String,
    role: ChatRole,
    author: Option<String>,
    content: StreamedContent,
    sources: Vec<String>,
    branch: Option<BranchPosition>,
    retryable: bool,
    appearance: ChatMessageAppearance,
    actions: Option<MessageActions>,
    attachments: Vec<Attachment>,
    citations: Vec<CitationRef>,
    follow_ups: Vec<FollowUp>,
}

impl ChatMessage {
    /// The stable identifier, as held.
    pub closed spec fn id_string(self) -> String {
        self.id
    }

    /// The stable identifier.
    pub open spec fn id_view(self) -> Seq<char> {
        self.id_string()@
    }

    /// The role.
    pub closed spec fn role_spec(self) -> ChatRole {
        self.role
    }

    /// The optional visible author.
    pub closed spec fn author_view(self) -> Option<Seq<char>> {
        opt_view(self.author)
    }

    /// The progressive content.
    pub closed spec fn content_spec(self) -> StreamedContent {
        self.content
    }

    /// Source labels.
    pub closed spec fn sources_view(self) -> Seq<Seq<char>> {
        views(self.sources@)
    }

    /// Where this message sits among its versions, if branched.
    pub closed spec fn branch_spec(self) -> Option<BranchPosition> {
        self.branch
    }

    /// Whether a failed message may be retried.
    pub closed spec fn retryable_spec(self) -> bool {
        self.retryable
    }

    /// Presentation.
    pub closed spec fn appearance_spec(self) -> ChatMessageAppearance {
        self.appearance
    }

    /// Explicitly chosen actions, if any.
    pub closed spec fn actions_spec(self) -> Option<MessageActions> {
        self.actions
    }

    /// The files carried by this message.
    pub closed spec fn attachments_spec(self) -> Seq<Attachment> {
        self.attachments@
    }

    /// Inline citation metadata.
    pub closed spec fn citations_spec(self) -> Seq<CitationRef> {
        self.citations@
    }

    /// Suggested next prompts.
    pub closed spec fn follow_ups_spec(self) -> Seq<FollowUp> {
        self.follow_ups@
    }

    /// Creates a message with stable application identity and progressive text.
    pub fn new(id: &str, role: ChatRole, content: StreamedContent) -> (r: Self)
        ensures
            r.id_view() == id@,
            r.role_spec() == role,
            r.author_view() is None,
            r.content_spec() == content,
            r.sources_view() == Seq::<Seq<char>>::empty(),
            r.branch_spec() is None,
            !r.retryable_spec(),
            r.appearance_spec().alignment_spec() == MessageAlignment::Leading,
            r.appearance_spec().bubble_spec() == MessageBubble::Bordered,
            r.actions_spec() is None,
            r.attachments_spec() == Seq::<Attachment>::empty(),
            r.citations_spec() == Seq::<CitationRef>::empty(),
            r.follow_ups_spec() == Seq::<FollowUp>::empty(),
    {
        let r = ChatMessage {
            id: id.to_owned(),
            role,
            author: None,
            content,
            sources: Vec::new(),
            branch: None,
            retryable: false,
            appearance: ChatMessageAppearance::default(),
            actions: None,
            attachments: Vec::new(),
            citations: Vec::new(),
            follow_ups: Vec::new(),
        };
        assert(views(r.sources@) =~= Seq::<Seq<char>>::empty());
        r
    }

    /// Overrides the actions this message offers (default: [`MessageActions::for_role`]).
    pub fn actions(self, actions: MessageActions) -> (r: Self)
        ensures
            r.actions_spec() == Some(actions),
            r.id_view() == self.id_view(),
            r.role_spec() == self.role_spec(),
            r.content_spec() == self.content_spec(),
    {
        ChatMessage { actions: Some(actions), ..self }
    }

    /// The actions this message offers.
    pub fn message_actions(&self) -> (r: MessageActions)
        ensures
            self.actions_spec() matches Some(a) ==> r == a,
            self.actions_spec() is None ==> r.offered() == MessageActions::for_role_spec(self.role_spec()),
    {
        match self.actions {
            Some(a) => a,
            None => MessageActions::for_role(self.role),
        }
    }

    /// Sets this message's presentation (alignment and bubble treatment).
    pub fn with_appearance(self, appearance: ChatMessageAppearance) -> (r: Self)
        ensures
            r.appearance_spec() == appearance,
            r.id_view() == self.id_view(),
            r.role_spec() == self.role_spec(),
            r.content_spec() == self.content_spec(),
    {
        ChatMessage { appearance, ..self }
    }

    /// This message's presentation.
    pub fn appearance(&self) -> (r: &ChatMessageAppearance)
        ensures
            *r == self.appearance_spec(),
    {
        &self.appearance
    }

    /// Adds an optional visible author name.
    pub fn author(self, author: &str) -> (r: Self)
        ensures
            r.author_view() == Some(author@),
            r.id_view() == self.id_view(),
            r.role_spec() == self.role_spec(),
            r.content_spec() == self.content_spec(),
    {
        ChatMessage { author: Some(author.to_owned()), ..self }
    }

    /// Adds source labels shown after progressive content settles.
    pub fn sources(self, sources: Vec<String>) -> (r: Self)
        ensures
            r.sources_view() == views(sources@),
            r.id_view() == self.id_view(),
            r.role_spec() == self.role_spec(),
            r.content_spec() == self.content_spec(),
    {
        ChatMessage { sources, ..self }
    }

    /// Attaches files shown read-only above the content; activating one
    /// reports [`ChatEvent::AttachmentActivated`].
    pub fn attachments(self, attachments: Vec<Attachment>) -> (r: Self)
        ensures
            r.attachments_spec() == attachments@,
            r.id_view() == self.id_view(),
            r.role_spec() == self.role_spec(),
            r.content_spec() == self.content_spec(),
            r.sources_view() == self.sources_view(),
    {
        ChatMessage { attachments, ..self }
    }

    /// Returns the attachments carried by this message.
    pub fn attachment_refs(&self) -> (r: &Vec<Attachment>)
        ensures
            r@ == self.attachments_spec(),
    {
        &self.attachments
    }

    /// Adds application-owned inline citation metadata.
    pub fn citations(self, citations: Vec<CitationRef>) -> (r: Self)
        ensures
            r.citations_spec() == citations@,
            r.id_view() == self.id_view(),
            r.role_spec() == self.role_spec(),
            r.content_spec() == self.content_spec(),
            r.follow_ups_spec() == self.follow_ups_spec(),
            r.attachments_spec() == self.attachments_spec(),
    {
        ChatMessage { citations, ..self }
    }

    /// Adds suggested next prompts, shown once the content settles.
    pub fn follow_ups(self, follow_ups: Vec<FollowUp>) -> (r: Self)
        ensures
            r.follow_ups_spec() == follow_ups@,
            r.id_view() == self.id_view(),
            r.role_spec() == self.role_spec(),
            r.content_spec() == self.content_spec(),
            r.citations_spec() == self.citations_spec(),
            r.attachments_spec() == self.attachments_spec(),
    {
        ChatMessage { follow_ups, ..self }
    }

    /// Returns inline citation metadata.
    pub fn citation_refs(&self) -> (r: &Vec<CitationRef>)
        ensures
            r@ == self.citations_spec(),
    {
        &self.citations
    }

    /// Returns the suggested next prompts.
    pub fn follow_up_suggestions(&self) -> (r: &Vec<FollowUp>)
        ensures
            r@ == self.follow_ups_spec(),
    {
        &self.follow_ups
    }

    /// Marks this message as one of several versions.
    pub fn branch(self, position: BranchPosition) -> (r: Self)
        ensures
            r.branch_spec() == Some(position),
            r.id_view() == self.id_view(),
            r.role_spec() == self.role_spec(),
            r.content_spec() == self.content_spec(),
    {
        ChatMessage { branch: Some(position), ..self }
    }

    /// Controls whether a failed message exposes a retry action.
    pub fn retryable(self, retryable: bool) -> (r: Self)
        ensures
            r.retryable_spec() == retryable,
            r.id_view() == self.id_view(),
            r.role_spec() == self.role_spec(),
            r.content_spec() == self.content_spec(),
    {
        ChatMessage { retryable, ..self }
    }

    /// Returns the stable application-level message identifier.
    pub fn id(&self) -> (r: &String)
        ensures
            r@ == self.id_view(),
    {
        &self.id
    }

    /// Returns the message role.
    pub fn role(&self) -> (r: ChatRole)
        ensures
            r == self.role_spec(),
    {
        self.role
    }

    /// Returns the optional visible author.
    pub fn author_name(&self) -> (r: Option<&String>)
        ensures
            match r {
                Some(a) => self.author_view() == Some(a@),
                None => self.author_view() is None,
            },
    {
        self.author.as_ref()
    }

    /// Returns the progressive content snapshot.
    pub fn content(&self) -> (r: &StreamedContent)
        ensures
            *r == self.content_spec(),
    {
        &self.content
    }

    /// Returns source labels.
    pub fn source_labels(&self) -> (r: &Vec<String>)
        ensures
            views(r@) == self.sources_view(),
    {
        &self.sources
    }

    /// Returns where this message sits among its versions, if branched.
    pub fn branch_position(&self) -> (r: Option<BranchPosition>)
        ensures
            r == self.branch_spec(),
    {
        self.branch
    }

    /// Returns whether a failed message may be retried.
    pub fn is_retryable(&self) -> (r: bool)
        ensures
            r == self.retryable_spec(),
    {
        self.retryable
    }

    /// The accessible name: `Mighty, Assistant message` or `User message`.
    pub fn accessibility_label(&self) -> (r: String)
        ensures
            r@ == match self.author_view() {
                Some(a) => a + ", "@ + role_label(self.role_spec()) + " message"@,
                None => role_label(self.role_spec()) + " message"@,
            },
    {
        let mut s = match &self.author {
            Some(author) => {
                let mut s = author.clone();
                s.append(", ");
                s.append(self.role.label());
                s
            },
            None => self.role.label().to_owned(),
        };
        s.append(" message");
        s
    }

    /// The announced lifecycle of the content.
    pub fn state_description(&self) -> (r: String)
        ensures
            r@ == state_description_spec(self.content_spec().progress()),
    {
        match self.content.state() {
            ProgressState::Pending => "Pending".to_owned(),
            ProgressState::Running => "Streaming".to_owned(),
            ProgressState::Complete => "Complete".to_owned(),
            ProgressState::Failed(reason) => {
                let mut s = "Failed: ".to_owned();
                s.append(reason.as_str());
                s
            },
        }
    }

    /// The message as the transcript tracks it: identity and lifecycle.
    pub open spec fn entry_spec(self) -> TranscriptEntry {
        TranscriptEntry { id: self.id_string(), state: self.content_spec().progress() }
    }

    /// The actions this message offers, `(copy, regenerate, edit, feedback)`:
    /// those chosen explicitly, else the conventional set for its role.
    pub open spec fn offered_actions(self) -> (bool, bool, bool, bool) {
        match self.actions_spec() {
            Some(a) => a.offered(),
            None => MessageActions::for_role_spec(self.role_spec()),
        }
    }

    /// The identity and lifecycle the transcript tracks.
    pub fn entry(&self) -> (r: TranscriptEntry)
        ensures
            r == self.entry_spec(),
            r.id@ == self.id_view(),
            (r.state is Running) == (self.content_spec().progress() is Running),
            (r.state is Complete) == (self.content_spec().progress() is Complete),
            (r.state is Failed) == (self.content_spec().progress() is Failed),
    {
        let state = match self.content.state() {
            ProgressState::Pending => ProgressState::Pending,
            ProgressState::Running => ProgressState::Running,
            ProgressState::Complete => ProgressState::Complete,
            ProgressState::Failed(reason) => ProgressState::Failed(reason.clone()),
        };
        TranscriptEntry { id: self.id.clone(), state }
    }
}

/// A typed application intent emitted by a chat.
#[derive(Debug, Clone, PartialEq, Eq)]
pub enum ChatEvent {
    /// An event of the composed prompt bar, passed on.
    Prompt(PromptBarEvent),
    /// The user requested another attempt for a failed message.
    RetryRequested {
        /// Stable message identifier.
        message_id: String,
    },
    /// The user selected a follow-up attached to a message.
    FollowUpSelected {
        /// Stable message identifier.
        message_id: String,
        /// Stable follow-up identifier.
        follow_up_id: String,
    },
    /// The user activated a source chip attached to a message.
    SourceActivated {
        /// Stable message identifier.
        message_id: String,
        /// Stable source identifier.
        source_id: String,
        /// The source location.
        url: String,
    },
    /// The user activated an attachment carried by a message.
    AttachmentActivated {
        /// Stable message identifier.
        message_id: String,
        /// Stable attachment identifier.
        attachment_id: String,
    },
    /// The user activated an inline citation attached to a message.
    CitationActivated {
        /// Stable message identifier.
        message_id: String,
        /// Stable citation identifier.
        citation_id: String,
        /// Opaque application-owned destination.
        destination: String,
    },
    /// The user copied a message; the text is already on the clipboard.
    MessageCopied {
        /// Stable message identifier.
        message_id: String,
    },
    /// The user asked for a new response in place of this one.
    RegenerateRequested {
        /// Stable message identifier.
        message_id: String,
    },
    /// The user opened the in-place editor for this message.
    EditRequested {
        /// Stable message identifier.
        message_id: String,
    },
    /// The user committed an in-place edit.
    EditSubmitted {
        /// Stable message identifier.
        message_id: String,
        /// The edited text.
        text: String,
    },
    /// The user abandoned an in-place edit.
    EditCancelled {
        /// Stable message identifier.
        message_id: String,
    },
    /// The user moved to another version of a branched message.
    BranchSelected {
        /// Stable message identifier.
        message_id: String,
        /// Zero-based index of the chosen version.
        index: usize,
    },
    /// The user rated a response.
    FeedbackSubmitted {
        /// Stable message identifier.
        message_id: String,
        /// `true` for helpful, `false` for not helpful.
        positive: bool,
    },
    /// The user chose a welcome suggestion.
    SuggestionSelected {
        /// Stable suggestion identifier.
        suggestion_id: String,
    },
    /// The user returned the transcript to active tail-following.
    JumpedToLatest,
}

/// A controlled chat: the application-owned message snapshot and the
/// transcript state the chat retains around it.
pub struct Chat {
    id: String,
    messages: Vec<ChatMessage>,
    transcript: Transcript,
    draft: String,
    visible: (usize, usize),
    jumping: bool,
    welcome: Option<ChatWelcome>,
}

/// The entries a transcript tracks for a message snapshot, in order.
pub open spec fn snapshot_entries(messages: Seq<ChatMessage>) -> Seq<TranscriptEntry> {
    messages.map_values(|m: ChatMessage| m.entry_spec())
}

/// Two transcripts agree on every piece of retained state except, perhaps,
/// whether they rest at the tail and which messages are unread.
pub open spec fn same_messages_and_marks(a: Transcript, b: Transcript) -> bool {
    &&& a.message_ids() == b.message_ids()
    &&& a.streaming_flags() == b.streaming_flags()
    &&& a.arrival_ids() == b.arrival_ids()
    &&& a.feedback_pairs() == b.feedback_pairs()
    &&& a.copied_id() == b.copied_id()
    &&& a.editing_id() == b.editing_id()
}

/// Two transcripts agree on all retained state.
pub open spec fn same_transcript(a: Transcript, b: Transcript) -> bool {
    &&& same_messages_and_marks(a, b)
    &&& a.unread_ids() == b.unread_ids()
    &&& a.pinned() == b.pinned()
}

/// Whether content in this lifecycle has ended, successfully or not.
pub open spec fn settled_state(state: ProgressState) -> bool {
    state is Complete || state is Failed
}

/// Whether a held message with this identity is still streaming.
pub open spec fn streaming_in(messages: Seq<ChatMessage>, id: Seq<char>) -> bool {
    exists|k: int|
        0 <= k < messages.len() && messages[k].id_view() == id && #[trigger] messages[k].content_spec().progress() is Running
}

/// The responses a new snapshot settles, in its order: each new message whose
/// content completed or failed while a held message with its identity was
/// streaming, with whether it completed.
pub open spec fn settled_responses(held: Seq<ChatMessage>, incoming: Seq<ChatMessage>) -> Seq<(Seq<char>, bool)>
    decreases incoming.len(),
{
    if incoming.len() == 0 {
        seq![]
    } else {
        let rest = settled_responses(held, incoming.drop_last());
        let m = incoming.last();
        if streaming_in(held, m.id_view()) && settled_state(m.content_spec().progress()) {
            rest.push((m.id_view(), m.content_spec().progress() is Complete))
        } else {
            rest
        }
    }
}

proof fn lemma_settled_responses(
    ids: Seq<Seq<char>>,
    flags: Seq<bool>,
    held: Seq<ChatMessage>,
    incoming: Seq<ChatMessage>,
)
    requires
        ids == held.map_values(|m: ChatMessage| m.id_view()),
        flags.len() == held.len(),
        forall|j: int| 0 <= j < held.len() ==> #[trigger] flags[j] == (held[j].content_spec().progress() is Running),
    ensures
        settled_spec(ids, flags, snapshot_entries(incoming)) == settled_responses(held, incoming),
    decreases incoming.len(),
{
    if incoming.len() > 0 {
        assert(snapshot_entries(incoming).drop_last() =~= snapshot_entries(incoming.drop_last()));
        lemma_settled_responses(ids, flags, held, incoming.drop_last());
        let id = incoming.last().id_view();
        assert(snapshot_entries(incoming).last() == incoming.last().entry_spec());
        if was_streaming(ids, flags, id) {
            let k = choose|k: int| 0 <= k < ids.len() && ids[k] == id && flags[k];
            assert(held[k].id_view() == id && held[k].content_spec().progress() is Running);
        }
        if streaming_in(held, id) {
            let k = choose|k: int|
                0 <= k < held.len() && held[k].id_view() == id && #[trigger] held[k].content_spec().progress() is Running;
            assert(ids[k] == id && flags[k]);
        }
    }
}

impl Chat {
    /// Identities of the messages the chat holds.
    pub closed spec fn message_ids(self) -> Seq<Seq<char>> {
        self.messages@.map_values(|m: ChatMessage| m.id_view())
    }

    /// The held messages.
    pub closed spec fn messages_spec(self) -> Seq<ChatMessage> {
        self.messages@
    }

    /// The retained transcript state.
    pub closed spec fn transcript_spec(self) -> Transcript {
        self.transcript
    }

    /// The chat's stable identifier.
    pub closed spec fn id_view(self) -> Seq<char> {
        self.id@
    }

    /// The text in the in-place editor.
    pub closed spec fn edit_draft(self) -> Seq<char> {
        self.draft@
    }

    /// The last reported visible message range, `(start, end)`.
    pub closed spec fn visible_spec(self) -> (usize, usize) {
        self.visible
    }

    /// Whether an animated jump to the latest message is under way.
    pub closed spec fn jump_in_flight(self) -> bool {
        self.jumping
    }

    /// What an empty conversation shows.
    pub closed spec fn welcome_spec(self) -> Option<ChatWelcome> {
        self.welcome
    }

    /// The held snapshot and the transcript agree, and the transcript is well formed.
    pub closed spec fn wf(self) -> bool {
        &&& self.transcript.wf()
        &&& self.transcript.message_ids() == self.message_ids()
        &&& self.transcript.streaming_flags().len() == self.messages@.len()
        &&& forall|j: int| 0 <= j < self.messages@.len() ==> #[trigger] self.transcript.streaming_flags()[j] == (
            self.messages@[j].content_spec().progress() is Running)
    }

    /// Creates an empty chat resting at its tail.
    pub fn new(id: &str) -> (r: Self)
        ensures
            r.wf(),
            r.id_view() == id@,
            r.messages_spec() == Seq::<ChatMessage>::empty(),
            r.message_ids() == Seq::<Seq<char>>::empty(),
            r.transcript_spec().unread_ids() == Seq::<Seq<char>>::empty(),
            r.transcript_spec().arrival_ids() == Seq::<Seq<char>>::empty(),
            r.transcript_spec().feedback_pairs() == Seq::<(Seq<char>, bool)>::empty(),
            r.transcript_spec().copied_id() is None,
            r.transcript_spec().editing_id() is None,
            r.transcript_spec().pinned(),
            r.edit_draft() == Seq::<char>::empty(),
            r.visible_spec() == (0usize, 0usize),
            !r.jump_in_flight(),
            r.welcome_spec() is None,
    {
        let r = Chat {
            id: id.to_owned(),
            messages: Vec::new(),
            transcript: Transcript::new(),
            draft: String::new(),
            visible: (0, 0),
            jumping: false,
            welcome: None,
        };
        assert(r.message_ids() =~= Seq::<Seq<char>>::empty());
        r
    }

    /// Sets what an empty conversation shows.
    pub fn set_welcome(&mut self, welcome: Option<ChatWelcome>)
        requires
            old(self).wf(),
        ensures
            final(self).wf(),
            final(self).welcome_spec() == welcome,
            final(self).messages_spec() == old(self).messages_spec(),
            final(self).transcript_spec() == old(self).transcript_spec(),
            final(self).edit_draft() == old(self).edit_draft(),
            final(self).visible_spec() == old(self).visible_spec(),
            final(self).jump_in_flight() == old(self).jump_in_flight(),
    {
        self.welcome = welcome;
    }

    /// What an empty conversation shows.
    pub fn welcome(&self) -> (r: Option<&ChatWelcome>)
        ensures
            match r {
                Some(w) => self.welcome_spec() == Some(*w),
                None => self.welcome_spec() is None,
            },
    {
        self.welcome.as_ref()
    }

    /// Replaces the controlled message snapshot; see [`Transcript::set_messages`].
    /// A snapshot containing duplicate IDs is ignored. Otherwise the chat
    /// holds the new messages, its transcript follows them as
    /// [`snapshot_applied`] states, and a jump under way is dropped when the
    /// conversation was cleared or replaced.
    pub fn set_messages(
        &mut self,
        messages: Vec<ChatMessage>,
        was_following: bool,
        anchor: Option<usize>,
    ) -> (r: Option<SnapshotUpdate>)
        requires
            old(self).wf(),
        ensures
            final(self).wf(),
            r is Some <==> messages@.map_values(|m: ChatMessage| m.id_view()).no_duplicates(),
            r is Some ==> final(self).message_ids() == messages@.map_values(|m: ChatMessage| m.id_view()),
            r is None ==> *final(self) == *old(self),
            r matches Some(u) ==> {
                &&& final(self).messages_spec() == messages@
                &&& snapshot_applied(
                    old(self).transcript_spec(),
                    final(self).transcript_spec(),
                    snapshot_entries(messages@),
                    was_following,
                    anchor,
                    u,
                )
                &&& settled_view(u.settled@) == settled_responses(old(self).messages_spec(), messages@)
                &&& views(u.arrived@) == (if old(self).messages_spec().len() == 0 {
                    Seq::<Seq<char>>::empty()
                } else {
                    appended_spec(old(self).message_ids(), messages@.map_values(|m: ChatMessage| m.id_view()))
                })
                &&& final(self).jump_in_flight() == (old(self).jump_in_flight() && !u.cancel_jump)
                &&& final(self).edit_draft() == old(self).edit_draft()
                &&& final(self).visible_spec() == old(self).visible_spec()
                &&& final(self).id_view() == old(self).id_view()
                &&& final(self).welcome_spec() == old(self).welcome_spec()
            },
    {
        let mut entries: Vec<TranscriptEntry> = Vec::new();
        let mut i: usize = 0;
        while i < messages.len()
            invariant
                i <= messages.len(),
                entries@ == snapshot_entries(messages@.take(i as int)),
            decreases messages.len() - i,
        {
            let ghost before = entries@;
            entries.push(messages[i].entry());
            proof {
                assert(snapshot_entries(messages@.take(i + 1)) =~= snapshot_entries(messages@.take(i as int)).push(
                    messages@[i as int].entry_spec(),
                ));
            }
            i = i + 1;
        }
        assert(messages@.take(i as int) =~= messages@);
        assert(entry_ids(entries@) =~= messages@.map_values(|m: ChatMessage| m.id_view()));
        proof {
            lemma_settled_responses(
                self.transcript.message_ids(),
                self.transcript.streaming_flags(),
                self.messages@,
                messages@,
            );
        }
        let update = self.transcript.set_messages(&entries, was_following, anchor);
        match &update {
            Some(u) => {
                self.messages = messages;
                if u.cancel_jump {
                    self.jumping = false;
                }
            },
            None => {},
        }
        update
    }

    /// Returns the current application-owned message snapshot.
    pub fn messages(&self) -> (r: &Vec<ChatMessage>)
        ensures
            r@ == self.messages_spec(),
            r@.map_values(|m: ChatMessage| m.id_view()) == self.message_ids(),
    {
        &self.messages
    }

    /// The retained transcript state.
    pub fn transcript(&self) -> (r: &Transcript)
        ensures
            *r == self.transcript_spec(),
    {
        &self.transcript
    }

    /// Returns the number of messages received while the transcript was offscreen.
    pub fn unread_count(&self) -> (r: usize)
        ensures
            r == self.transcript_spec().unread_ids().len(),
    {
        self.transcript.unread_count()
    }

    /// Returns whether the list is actively following the latest content.
    pub fn is_pinned_to_bottom(&self, list_following_tail: bool) -> (r: bool)
        ensures
            r == (list_following_tail && self.transcript_spec().pinned()),
    {
        self.transcript.is_pinned_to_bottom(list_following_tail)
    }

    /// Records a scroll of the list: the visible range, and whether the
    /// list follows its tail. Following the tail pins the transcript and
    /// reads every unread message; leaving it unpins the transcript.
    pub fn on_scroll(&mut self, following_tail: bool, visible_start: usize, visible_end: usize)
        requires
            old(self).wf(),
        ensures
            final(self).wf(),
            final(self).messages_spec() == old(self).messages_spec(),
            final(self).visible_spec() == (visible_start, visible_end),
            final(self).transcript_spec().pinned() == following_tail,
            final(self).transcript_spec().unread_ids() == (if following_tail {
                Seq::<Seq<char>>::empty()
            } else {
                old(self).transcript_spec().unread_ids()
            }),
            same_messages_and_marks(old(self).transcript_spec(), final(self).transcript_spec()),
            final(self).jump_in_flight() == old(self).jump_in_flight(),
            final(self).edit_draft() == old(self).edit_draft(),
            final(self).welcome_spec() == old(self).welcome_spec(),
    {
        self.transcript.on_scroll(following_tail);
        self.visible = (visible_start, visible_end);
    }

    /// Returns the last reported visible message range, `(start, end)`.
    pub fn visible_range(&self) -> (r: (usize, usize))
        ensures
            r == self.visible_spec(),
    {
        self.visible
    }

    /// Resumes tail-following, clears unread state, and reports the jump.
    ///
    /// `lands_at_once` tells whether the jump has no travel to show: motion
    /// is reduced, the viewport has no height, or the list already rests at
    /// its tail. Then, as with an empty conversation, the transcript is
    /// pinned at once; otherwise an animated jump starts, unpinned until
    /// [`Chat::settle_jump`].
    pub fn scroll_to_latest(&mut self, lands_at_once: bool) -> (r: ChatEvent)
        requires
            old(self).wf(),
        ensures
            final(self).wf(),
            r == ChatEvent::JumpedToLatest,
            final(self).transcript_spec().unread_ids() == Seq::<Seq<char>>::empty(),
            final(self).transcript_spec().pinned() == (lands_at_once || old(self).messages_spec().len() == 0),
            final(self).jump_in_flight() == !(lands_at_once || old(self).messages_spec().len() == 0),
            final(self).messages_spec() == old(self).messages_spec(),
            final(self).message_ids() == old(self).message_ids(),
            same_messages_and_marks(old(self).transcript_spec(), final(self).transcript_spec()),
            final(self).edit_draft() == old(self).edit_draft(),
            final(self).visible_spec() == old(self).visible_spec(),
            final(self).welcome_spec() == old(self).welcome_spec(),
    {
        self.transcript.scroll_to_latest();
        let snap = lands_at_once || self.messages.len() == 0;
        self.transcript.set_pinned(snap);
        self.jumping = !snap;
        ChatEvent::JumpedToLatest
    }

    /// Brings an animated jump to rest at the tail: the transcript is pinned
    /// again. Returns whether a jump was under way; without one nothing changes.
    pub fn settle_jump(&mut self) -> (r: bool)
        requires
            old(self).wf(),
        ensures
            final(self).wf(),
            r == old(self).jump_in_flight(),
            !final(self).jump_in_flight(),
            final(self).transcript_spec().pinned() == (r || old(self).transcript_spec().pinned()),
            final(self).transcript_spec().unread_ids() == old(self).transcript_spec().unread_ids(),
            same_messages_and_marks(old(self).transcript_spec(), final(self).transcript_spec()),
            final(self).messages_spec() == old(self).messages_spec(),
            final(self).edit_draft() == old(self).edit_draft(),
            final(self).visible_spec() == old(self).visible_spec(),
            final(self).welcome_spec() == old(self).welcome_spec(),
    {
        if self.jumping {
            self.jumping = false;
            self.transcript.set_pinned(true);
            true
        } else {
            false
        }
    }

    /// Drops an animated jump that user input interrupted; the transcript
    /// stays where the reader left it. Returns whether a jump was under way.
    pub fn cancel_jump(&mut self) -> (r: bool)
        requires
            old(self).wf(),
        ensures
            final(self).wf(),
            r == old(self).jump_in_flight(),
            !final(self).jump_in_flight(),
            same_transcript(old(self).transcript_spec(), final(self).transcript_spec()),
            final(self).messages_spec() == old(self).messages_spec(),
            final(self).edit_draft() == old(self).edit_draft(),
            final(self).visible_spec() == old(self).visible_spec(),
            final(self).welcome_spec() == old(self).welcome_spec(),
    {
        let was = self.jumping;
        self.jumping = false;
        was
    }

    /// Requests another attempt for a failed message.
    pub fn retry(&self, message_id: &str) -> (r: ChatEvent)
        ensures
            r matches ChatEvent::RetryRequested { message_id: m } && m@ == message_id@,
    {
        ChatEvent::RetryRequested { message_id: message_id.to_owned() }
    }

    /// Whether a message's row offers its action bar: not while that message
    /// is being edited, not before its content has settled, and not when it
    /// offers no action.
    pub fn shows_actions(&self, message: &ChatMessage) -> (r: bool)
        ensures
            r == (self.transcript_spec().editing_id() != Some(message.id_view())
                && settled_state(message.content_spec().progress())
                && (message.offered_actions().0 || message.offered_actions().1
                    || message.offered_actions().2 || message.offered_actions().3)),
    {
        let editing_this = match self.transcript.editing_message() {
            Some(x) => *x == *message.id(),
            None => false,
        };
        if editing_this {
            return false;
        }
        if !message.content().state().is_settled() {
            return false;
        }
        !message.message_actions().is_empty()
    }

    /// Opens the in-place editor on a held message, with the message's text
    /// as the draft, and reports it; nothing happens for an unknown message
    /// or one already being edited.
    pub fn begin_edit(&mut self, message_id: &str) -> (r: Option<ChatEvent>)
        requires
            old(self).wf(),
        ensures
            final(self).wf(),
            final(self).message_ids() == old(self).message_ids(),
            final(self).messages_spec() == old(self).messages_spec(),
            r is Some == (old(self).message_ids().contains(message_id@)
                && old(self).transcript_spec().editing_id() != Some(message_id@)),
            r matches Some(e) ==> e matches ChatEvent::EditRequested { message_id: m } && m@ == message_id@,
            final(self).transcript_spec().editing_id() == (if r is Some {
                Some(message_id@)
            } else {
                old(self).transcript_spec().editing_id()
            }),
            r is Some ==> exists|k: int| 0 <= k < old(self).messages_spec().len()
                && old(self).messages_spec()[k].id_view() == message_id@
                && final(self).edit_draft() == old(self).messages_spec()[k].content_spec().text_view(),
            r is None ==> final(self).edit_draft() == old(self).edit_draft(),
            final(self).visible_spec() == old(self).visible_spec(),
            final(self).jump_in_flight() == old(self).jump_in_flight(),
            final(self).transcript_spec().unread_ids() == old(self).transcript_spec().unread_ids(),
            final(self).transcript_spec().pinned() == old(self).transcript_spec().pinned(),
            final(self).transcript_spec().message_ids() == old(self).transcript_spec().message_ids(),
            final(self).transcript_spec().streaming_flags() == old(self).transcript_spec().streaming_flags(),
            final(self).transcript_spec().arrival_ids() == old(self).transcript_spec().arrival_ids(),
            final(self).transcript_spec().feedback_pairs() == old(self).transcript_spec().feedback_pairs(),
            final(self).transcript_spec().copied_id() == old(self).transcript_spec().copied_id(),
            final(self).welcome_spec() == old(self).welcome_spec(),
    {
        let id = message_id.to_owned();
        let mut i: usize = 0;
        while i < self.messages.len()
            invariant
                i <= self.messages@.len(),
                *self == *old(self),
                old(self).wf(),
                id@ == message_id@,
                forall|k: int| 0 <= k < i ==> self.messages@[k].id_view() != id@,
            decreases self.messages@.len() - i,
        {
            if *self.messages[i].id() == id {
                assert(self.message_ids()[i as int] == id@);
                if self.transcript.begin_edit(&id) {
                    self.draft = self.messages[i].content().text().clone();
                    assert(old(self).messages_spec()[i as int].id_view() == message_id@);
                    assert(self.draft@ == old(self).messages_spec()[i as int].content_spec().text_view());
                    return Some(ChatEvent::EditRequested { message_id: id });
                }
                return None;
            }
            i = i + 1;
        }
        assert(!self.message_ids().contains(id@)) by {
            if self.message_ids().contains(id@) {
                let k = choose|k: int| 0 <= k < self.message_ids().len() && self.message_ids()[k] == id@;
                assert(self.messages@[k].id_view() == id@);
            }
        }
        None
    }

    /// Replaces the in-place editor's draft; nothing happens while no
    /// message is being edited.
    pub fn set_edit_draft(&mut self, draft: &str)
        requires
            old(self).wf(),
        ensures
            final(self).wf(),
            final(self).messages_spec() == old(self).messages_spec(),
            final(self).transcript_spec() == old(self).transcript_spec(),
            final(self).edit_draft() == (if old(self).transcript_spec().editing_id() is Some {
                draft@
            } else {
                old(self).edit_draft()
            }),
            final(self).visible_spec() == old(self).visible_spec(),
            final(self).jump_in_flight() == old(self).jump_in_flight(),
            final(self).welcome_spec() == old(self).welcome_spec(),
    {
        if self.transcript.editing_message().is_some() {
            self.draft = draft.to_owned();
        }
    }

    /// Commits the in-place edit with the draft trimmed of surrounding white
    /// space and reports it. A blank draft is ignored, so a stray Enter
    /// cannot erase a message.
    pub fn submit_edit(&mut self) -> (r: Option<ChatEvent>)
        requires
            old(self).wf(),
        ensures
            final(self).wf(),
            final(self).message_ids() == old(self).message_ids(),
            r is Some == (old(self).transcript_spec().editing_id() is Some
                && trim_spec(old(self).edit_draft()).len() > 0),
            r matches Some(e) ==> e matches ChatEvent::EditSubmitted { message_id: m, text: t }
                && old(self).transcript_spec().editing_id() == Some(m@)
                && t@ == trim_spec(old(self).edit_draft())
                && final(self).transcript_spec().editing_id() is None,
            r is None ==> *final(self) == *old(self),
            final(self).messages_spec() == old(self).messages_spec(),
            final(self).visible_spec() == old(self).visible_spec(),
            final(self).jump_in_flight() == old(self).jump_in_flight(),
            r is Some ==> final(self).edit_draft() == old(self).edit_draft(),
            final(self).transcript_spec().unread_ids() == old(self).transcript_spec().unread_ids(),
            final(self).transcript_spec().pinned() == old(self).transcript_spec().pinned(),
            final(self).transcript_spec().message_ids() == old(self).transcript_spec().message_ids(),
            final(self).transcript_spec().streaming_flags() == old(self).transcript_spec().streaming_flags(),
            final(self).transcript_spec().arrival_ids() == old(self).transcript_spec().arrival_ids(),
            final(self).transcript_spec().feedback_pairs() == old(self).transcript_spec().feedback_pairs(),
            final(self).transcript_spec().copied_id() == old(self).transcript_spec().copied_id(),
            final(self).welcome_spec() == old(self).welcome_spec(),
    {
        if self.transcript.editing_message().is_none() {
            return None;
        }
        let text = trim_white_space(self.draft.as_str());
        if text.as_str().is_empty() {
            return None;
        }
        match self.transcript.end_edit() {
            Some(message_id) => Some(ChatEvent::EditSubmitted { message_id, text }),
            None => None,
        }
    }

    /// Returns the message being edited in place, if any.
    pub fn editing_message(&self) -> (r: Option<&String>)
        ensures
            match r {
                Some(x) => self.transcript_spec().editing_id() == Some(x@),
                None => self.transcript_spec().editing_id() is None,
            },
    {
        self.transcript.editing_message()
    }

    /// Abandons the in-place edit and reports it.
    pub fn cancel_edit(&mut self) -> (r: Option<ChatEvent>)
        requires
            old(self).wf(),
        ensures
            final(self).wf(),
            final(self).message_ids() == old(self).message_ids(),
            final(self).transcript_spec().editing_id() is None,
            r is Some == old(self).transcript_spec().editing_id() is Some,
            r matches Some(e) ==> e matches ChatEvent::EditCancelled { message_id: m }
                && old(self).transcript_spec().editing_id() == Some(m@),
            final(self).messages_spec() == old(self).messages_spec(),
            final(self).visible_spec() == old(self).visible_spec(),
            final(self).jump_in_flight() == old(self).jump_in_flight(),
            final(self).edit_draft() == old(self).edit_draft(),
            final(self).transcript_spec().unread_ids() == old(self).transcript_spec().unread_ids(),
            final(self).transcript_spec().pinned() == old(self).transcript_spec().pinned(),
            final(self).transcript_spec().message_ids() == old(self).transcript_spec().message_ids(),
            final(self).transcript_spec().streaming_flags() == old(self).transcript_spec().streaming_flags(),
            final(self).transcript_spec().arrival_ids() == old(self).transcript_spec().arrival_ids(),
            final(self).transcript_spec().feedback_pairs() == old(self).transcript_spec().feedback_pairs(),
            final(self).transcript_spec().copied_id() == old(self).transcript_spec().copied_id(),
            final(self).welcome_spec() == old(self).welcome_spec(),
    {
        match self.transcript.end_edit() {
            Some(message_id) => Some(ChatEvent::EditCancelled { message_id }),
            None => None,
        }
    }

    /// Reports a helpful / not-helpful rating for a held message and keeps it.
    pub fn submit_feedback(&mut self, message_id: &str, positive: bool) -> (r: Option<ChatEvent>)
        requires
            old(self).wf(),
        ensures
            final(self).wf(),
            final(self).message_ids() == old(self).message_ids(),
            r is Some == old(self).message_ids().contains(message_id@),
            r matches Some(e) ==> e matches ChatEvent::FeedbackSubmitted { message_id: m, positive: p }
                && m@ == message_id@ && p == positive
                && final(self).transcript_spec().feedback_pairs().contains((message_id@, positive)),
            final(self).messages_spec() == old(self).messages_spec(),
            final(self).visible_spec() == old(self).visible_spec(),
            final(self).jump_in_flight() == old(self).jump_in_flight(),
            final(self).edit_draft() == old(self).edit_draft(),
            r is None ==> same_transcript(old(self).transcript_spec(), final(self).transcript_spec()),
            r is Some ==> forall|p: (Seq<char>, bool)|
                p.0 != message_id@ ==> (final(self).transcript_spec().feedback_pairs().contains(p)
                    == old(self).transcript_spec().feedback_pairs().contains(p)),
            r is Some ==> !final(self).transcript_spec().feedback_pairs().contains((message_id@, !positive)),
            final(self).transcript_spec().unread_ids() == old(self).transcript_spec().unread_ids(),
            final(self).transcript_spec().pinned() == old(self).transcript_spec().pinned(),
            final(self).transcript_spec().streaming_flags() == old(self).transcript_spec().streaming_flags(),
            final(self).transcript_spec().arrival_ids() == old(self).transcript_spec().arrival_ids(),
            final(self).transcript_spec().copied_id() == old(self).transcript_spec().copied_id(),
            final(self).transcript_spec().editing_id() == old(self).transcript_spec().editing_id(),
            final(self).welcome_spec() == old(self).welcome_spec(),
    {
        let id = message_id.to_owned();
        if self.transcript.submit_feedback(&id, positive) {
            Some(ChatEvent::FeedbackSubmitted { message_id: id, positive })
        } else {
            None
        }
    }

    /// Shows the copy confirmation for a held message and reports the copy;
    /// returns the text to place on the clipboard with the event.
    pub fn copy_message(&mut self, message_id: &str) -> (r: Option<(String, ChatEvent)>)
        requires
            old(self).wf(),
        ensures
            final(self).wf(),
            final(self).message_ids() == old(self).message_ids(),
            r is Some == old(self).message_ids().contains(message_id@),
            r matches Some(p) ==> p.1 matches ChatEvent::MessageCopied { message_id: m } && m@ == message_id@
                && final(self).transcript_spec().copied_id() == Some(message_id@)
                && exists|k: int| 0 <= k < old(self).messages_spec().len()
                    && old(self).messages_spec()[k].id_view() == message_id@
                    && p.0@ == old(self).messages_spec()[k].content_spec().text_view(),
            final(self).messages_spec() == old(self).messages_spec(),
            final(self).visible_spec() == old(self).visible_spec(),
            final(self).jump_in_flight() == old(self).jump_in_flight(),
            final(self).edit_draft() == old(self).edit_draft(),
            r is None ==> *final(self) == *old(self),
            final(self).transcript_spec().unread_ids() == old(self).transcript_spec().unread_ids(),
            final(self).transcript_spec().pinned() == old(self).transcript_spec().pinned(),
            final(self).transcript_spec().streaming_flags() == old(self).transcript_spec().streaming_flags(),
            final(self).transcript_spec().arrival_ids() == old(self).transcript_spec().arrival_ids(),
            final(self).transcript_spec().feedback_pairs() == old(self).transcript_spec().feedback_pairs(),
            final(self).transcript_spec().editing_id() == old(self).transcript_spec().editing_id(),
            final(self).welcome_spec() == old(self).welcome_spec(),
    {
        let id = message_id.to_owned();
        let mut i: usize = 0;
        while i < self.messages.len()
            invariant
                i <= self.messages@.len(),
                *self == *old(self),
                old(self).wf(),
                id@ == message_id@,
                forall|k: int| 0 <= k < i ==> self.messages@[k].id_view() != id@,
            decreases self.messages@.len() - i,
        {
            if *self.messages[i].id() == id {
                let text = self.messages[i].content().text().clone();
                assert(self.message_ids()[i as int] == id@);
                let marked = self.transcript.mark_copied(&id);
                assert(marked);
                assert(old(self).messages_spec()[i as int].id_view() == message_id@);
                assert(old(self).message_ids().contains(message_id@));
                return Some((text, ChatEvent::MessageCopied { message_id: id }));
            }
            i = i + 1;
        }
        assert(!self.message_ids().contains(id@)) by {
            if self.message_ids().contains(id@) {
                let k = choose|k: int| 0 <= k < self.message_ids().len() && self.message_ids()[k] == id@;
                assert(self.messages@[k].id_view() == id@);
            }
        }
        None
    }

    /// Hides the copy confirmation once its time is up.
    pub fn clear_copied(&mut self)
        requires
            old(self).wf(),
        ensures
            final(self).wf(),
            final(self).transcript_spec().copied_id() is None,
            final(self).transcript_spec().unread_ids() == old(self).transcript_spec().unread_ids(),
            final(self).transcript_spec().pinned() == old(self).transcript_spec().pinned(),
            final(self).transcript_spec().message_ids() == old(self).transcript_spec().message_ids(),
            final(self).transcript_spec().streaming_flags() == old(self).transcript_spec().streaming_flags(),
            final(self).transcript_spec().arrival_ids() == old(self).transcript_spec().arrival_ids(),
            final(self).transcript_spec().feedback_pairs() == old(self).transcript_spec().feedback_pairs(),
            final(self).transcript_spec().editing_id() == old(self).transcript_spec().editing_id(),
            final(self).messages_spec() == old(self).messages_spec(),
            final(self).visible_spec() == old(self).visible_spec(),
            final(self).jump_in_flight() == old(self).jump_in_flight(),
            final(self).edit_draft() == old(self).edit_draft(),
            final(self).welcome_spec() == old(self).welcome_spec(),
    {
        self.transcript.clear_copied();
    }

    /// Reports the choice of another version of a branched message.
    pub fn select_branch(&self, message_id: &str, index: usize) -> (r: ChatEvent)
        ensures
            r matches ChatEvent::BranchSelected { message_id: m, index: i } && m@ == message_id@ && i == index,
    {
        ChatEvent::BranchSelected { message_id: message_id.to_owned(), index }
    }
}

/// Whatever a well-formed chat retains refers to a message it holds:
/// identities are unique; unread messages, arrivals, feedback, the copy
/// confirmation and the message being edited all name held messages; and
/// the transcript counts a message as streaming exactly when its content is.
pub proof fn lemma_chat_state_belongs_to_messages(c: Chat)
    requires
        c.wf(),
    ensures
        c.message_ids().no_duplicates(),
        c.transcript_spec().message_ids() == c.message_ids(),
        c.message_ids() == c.messages_spec().map_values(|m: ChatMessage| m.id_view()),
        forall|x: Seq<char>| c.transcript_spec().unread_ids().contains(x) ==> c.message_ids().contains(x),
        forall|x: Seq<char>| c.transcript_spec().arrival_ids().contains(x) ==> c.message_ids().contains(x),
        forall|p: (Seq<char>, bool)|
            c.transcript_spec().feedback_pairs().contains(p) ==> c.message_ids().contains(p.0),
        forall|x: Seq<char>| c.transcript_spec().copied_id() == Some(x) ==> c.message_ids().contains(x),
        forall|x: Seq<char>| c.transcript_spec().editing_id() == Some(x) ==> c.message_ids().contains(x),
        c.transcript_spec().unread_ids().len() <= c.messages_spec().len(),
        c.transcript_spec().streaming_flags().len() == c.messages_spec().len(),
        forall|j: int| 0 <= j < c.messages_spec().len() ==> #[trigger] c.transcript_spec().streaming_flags()[j] == (
            c.messages_spec()[j].content_spec().progress() is Running),
{
    lemma_message_state_belongs_to_messages(c.transcript);
    let u = c.transcript.unread_ids();
    let ids = c.message_ids();
    assert(u.to_set().subset_of(ids.to_set()));
    vstd::seq_lib::seq_to_set_is_finite(ids);
    vstd::set_lib::lemma_len_subset(u.to_set(), ids.to_set());
    u.unique_seq_to_set();
    ids.unique_seq_to_set();
}

} // verus!

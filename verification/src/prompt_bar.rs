//! Prompt composition: the catalogs a composer offers (models, `@`
//! mentions, `/` commands), the attachments and progress the application
//! hands it, the model selection it keeps valid, keyboard movement through
//! open suggestions, and the trimmed submission it reports. Applications
//! own catalogs, attachments, progress, and every asynchronous operation;
//! the composer owns only its draft and transient overlay state.

use vstd::prelude::*;
use crate::attachment::Attachment;
use crate::focus::{keep_focus, kept_focus_spec};
use crate::ids::{ids_unique, opt_view, views};
use crate::stream::ProgressState;
use crate::text::{is_white_space, trim_spec, trim_white_space, white_space};

verus! {

broadcast use vstd::seq_lib::group_seq_properties;

/// A selectable model offered by a composer: stable ID and label, and
/// optionally a provider (options are grouped by it), a one-line
/// description, and its context window.
#[derive(Debug, Clone, PartialEq, Eq)]
pub struct PromptModel {
    id: String,
    label: String,
    provider: Option<String>,
    description: Option<String>,
    context_window: Option<u64>,
    disabled: bool,
}

impl PromptModel {
    /// The stable model identifier.
    pub closed spec fn id_view(self) -> Seq<char> {
        self.id@
    }

    /// The visible model label.
    pub closed spec fn label_view(self) -> Seq<char> {
        self.label@
    }

    /// The provider, when set.
    pub closed spec fn provider_view(self) -> Option<Seq<char>> {
        opt_view(self.provider)
    }

    /// The description, when set.
    pub closed spec fn description_view(self) -> Option<Seq<char>> {
        opt_view(self.description)
    }

    /// The context window in tokens, when set.
    pub closed spec fn context_window_spec(self) -> Option<u64> {
        self.context_window
    }

    /// Whether the model cannot be selected.
    pub closed spec fn disabled_spec(self) -> bool {
        self.disabled
    }

    /// Creates an enabled model with stable identity and a visible label.
    pub fn new(id: &str, label: &str) -> (r: Self)
        ensures
            r.id_view() == id@,
            r.label_view() == label@,
            r.provider_view() is None,
            r.description_view() is None,
            r.context_window_spec() is None,
            !r.disabled_spec(),
    {
        PromptModel {
            id: id.to_owned(),
            label: label.to_owned(),
            provider: None,
            description: None,
            context_window: None,
            disabled: false,
        }
    }

    /// Sets the provider the model is grouped under (for example "Anthropic").
    pub fn provider(self, provider: &str) -> (r: Self)
        ensures
            r.provider_view() == Some(provider@),
            r.id_view() == self.id_view(),
            r.label_view() == self.label_view(),
            r.description_view() == self.description_view(),
            r.context_window_spec() == self.context_window_spec(),
            r.disabled_spec() == self.disabled_spec(),
    {
        PromptModel { provider: Some(provider.to_owned()), ..self }
    }

    /// Adds a one-line description shown under the label.
    pub fn description(self, description: &str) -> (r: Self)
        ensures
            r.description_view() == Some(description@),
            r.id_view() == self.id_view(),
            r.label_view() == self.label_view(),
            r.provider_view() == self.provider_view(),
            r.context_window_spec() == self.context_window_spec(),
            r.disabled_spec() == self.disabled_spec(),
    {
        PromptModel { description: Some(description.to_owned()), ..self }
    }

    /// Records the context window in tokens, shown compactly (`200K`).
    pub fn context_window(self, tokens: u64) -> (r: Self)
        ensures
            r.context_window_spec() == Some(tokens),
            r.id_view() == self.id_view(),
            r.label_view() == self.label_view(),
            r.provider_view() == self.provider_view(),
            r.description_view() == self.description_view(),
            r.disabled_spec() == self.disabled_spec(),
    {
        PromptModel { context_window: Some(tokens), ..self }
    }

    /// Sets whether the model can be selected.
    pub fn disabled(self, disabled: bool) -> (r: Self)
        ensures
            r.disabled_spec() == disabled,
            r.id_view() == self.id_view(),
            r.label_view() == self.label_view(),
            r.provider_view() == self.provider_view(),
            r.description_view() == self.description_view(),
            r.context_window_spec() == self.context_window_spec(),
    {
        PromptModel { disabled, ..self }
    }

    /// Returns the provider name, when set.
    pub fn provider_name(&self) -> (r: Option<&String>)
        ensures
            match r {
                Some(s) => self.provider_view() == Some(s@),
                None => self.provider_view() is None,
            },
    {
        self.provider.as_ref()
    }

    /// Returns the description, when set.
    pub fn description_text(&self) -> (r: Option<&String>)
        ensures
            match r {
                Some(s) => self.description_view() == Some(s@),
                None => self.description_view() is None,
            },
    {
        self.description.as_ref()
    }

    /// Returns the context window in tokens, when set.
    pub fn context_window_tokens(&self) -> (r: Option<u64>)
        ensures
            r == self.context_window_spec(),
    {
        self.context_window
    }

    /// Returns the stable model identifier.
    pub fn id(&self) -> (r: &String)
        ensures
            r@ == self.id_view(),
    {
        &self.id
    }

    /// Returns the visible model label.
    pub fn label(&self) -> (r: &String)
        ensures
            r@ == self.label_view(),
    {
        &self.label
    }

    /// Returns whether the model cannot be selected.
    pub fn is_disabled(&self) -> (r: bool)
        ensures
            r == self.disabled_spec(),
    {
        self.disabled
    }
}

/// How a composer arranges its action row: the model, attach, and enhance
/// cluster, and the submit control.
#[derive(Debug, Clone, Copy, PartialEq, Eq, Structural)]
pub enum PromptActions {
    /// The cluster leads, the submit control sits at the trailing end.
    Split,
    /// Everything gathers at the leading edge.
    Leading,
    /// Everything gathers at the trailing edge.
    Trailing,
}

impl Default for PromptActions {
    fn default() -> (r: Self)
        ensures
            r == PromptActions::Split,
    {
        PromptActions::Split
    }
}

/// What the composer's submit control shows.
#[derive(Debug, Clone, Copy, PartialEq, Eq, Structural)]
pub enum PromptSubmit {
    /// The words "Send" and "Cancel", in a slot wide enough for both.
    Label,
    /// An arrow, square, at the control's own height.
    Glyph,
}

impl Default for PromptSubmit {
    fn default() -> (r: Self)
        ensures
            r == PromptSubmit::Label,
    {
        PromptSubmit::Label
    }
}

/// One `@`-mention suggestion.
#[derive(Debug, Clone, PartialEq, Eq)]
pub struct PromptMention {
    id: String,
    label: String,
}

impl PromptMention {
    /// The stable mention identifier.
    pub closed spec fn id_view(self) -> Seq<char> {
        self.id@
    }

    /// The insertion text.
    pub closed spec fn label_view(self) -> Seq<char> {
        self.label@
    }

    /// Creates a mention with stable identity and insertion text.
    pub fn new(id: &str, label: &str) -> (r: Self)
        ensures
            r.id_view() == id@,
            r.label_view() == label@,
    {
        PromptMention { id: id.to_owned(), label: label.to_owned() }
    }

    /// Returns the stable mention identifier.
    pub fn id(&self) -> (r: &String)
        ensures
            r@ == self.id_view(),
    {
        &self.id
    }

    /// Returns the visible mention label.
    pub fn label(&self) -> (r: &String)
        ensures
            r@ == self.label_view(),
    {
        &self.label
    }
}

/// One `/` command suggestion.
#[derive(Debug, Clone, PartialEq, Eq)]
pub struct PromptCommand {
    id: String,
    label: String,
    description: Option<String>,
}

impl PromptCommand {
    /// The stable command identifier.
    pub closed spec fn id_view(self) -> Seq<char> {
        self.id@
    }

    /// The insertion text.
    pub closed spec fn label_view(self) -> Seq<char> {
        self.label@
    }

    /// The secondary text, when set.
    pub closed spec fn description_view(self) -> Option<Seq<char>> {
        opt_view(self.description)
    }

    /// Creates a command with stable identity and insertion text.
    pub fn new(id: &str, label: &str) -> (r: Self)
        ensures
            r.id_view() == id@,
            r.label_view() == label@,
            r.description_view() is None,
    {
        PromptCommand { id: id.to_owned(), label: label.to_owned(), description: None }
    }

    /// Adds secondary text used by the suggestion filter and accessible name.
    pub fn description(self, description: &str) -> (r: Self)
        ensures
            r.description_view() == Some(description@),
            r.id_view() == self.id_view(),
            r.label_view() == self.label_view(),
    {
        PromptCommand { description: Some(description.to_owned()), ..self }
    }

    /// Returns the stable command identifier.
    pub fn id(&self) -> (r: &String)
        ensures
            r@ == self.id_view(),
    {
        &self.id
    }

    /// Returns the visible command label.
    pub fn label(&self) -> (r: &String)
        ensures
            r@ == self.label_view(),
    {
        &self.label
    }
}

/// A trimmed prompt snapshot emitted for application-owned submission work.
#[derive(Debug, Clone, PartialEq, Eq)]
pub struct PromptSubmission {
    text: String,
    model_id: Option<String>,
    attachment_ids: Vec<String>,
}

impl PromptSubmission {
    /// The submitted text.
    pub closed spec fn text_view(self) -> Seq<char> {
        self.text@
    }

    /// The selected model, when one is configured.
    pub closed spec fn model_view(self) -> Option<Seq<char>> {
        opt_view(self.model_id)
    }

    /// The identities of the attachments present at submission time.
    pub closed spec fn attachment_ids_view(self) -> Seq<Seq<char>> {
        views(self.attachment_ids@)
    }

    /// Returns the submitted prompt text.
    pub fn text(&self) -> (r: &String)
        ensures
            r@ == self.text_view(),
    {
        &self.text
    }

    /// Returns the selected model, when one is configured.
    pub fn model_id(&self) -> (r: Option<&String>)
        ensures
            match r {
                Some(s) => self.model_view() == Some(s@),
                None => self.model_view() is None,
            },
    {
        self.model_id.as_ref()
    }

    /// Returns stable IDs for the attachments present at submission time.
    pub fn attachment_ids(&self) -> (r: &Vec<String>)
        ensures
            views(r@) == self.attachment_ids_view(),
    {
        &self.attachment_ids
    }
}

/// An interaction emitted by a composer.
#[derive(Debug, Clone, PartialEq, Eq)]
pub enum PromptBarEvent {
    /// The draft changed.
    DraftChanged {
        /// Stable prompt-bar identifier.
        id: String,
        /// Complete current draft.
        draft: String,
    },
    /// The user submitted a non-empty prompt.
    Submit {
        /// Stable prompt-bar identifier.
        id: String,
        /// Immutable submission snapshot.
        submission: PromptSubmission,
    },
    /// The user requested cancellation of running work.
    CancelRequested {
        /// Stable prompt-bar identifier.
        id: String,
    },
    /// The user selected a model.
    ModelChanged {
        /// Stable prompt-bar identifier.
        id: String,
        /// Stable selected-model identifier.
        model_id: String,
    },
    /// The user inserted a mention.
    MentionSelected {
        /// Stable prompt-bar identifier.
        id: String,
        /// Stable selected-mention identifier.
        mention_id: String,
    },
    /// The user inserted a command.
    CommandSelected {
        /// Stable prompt-bar identifier.
        id: String,
        /// Stable selected-command identifier.
        command_id: String,
    },
    /// The user requested an attachment picker.
    AttachRequested {
        /// Stable prompt-bar identifier.
        id: String,
    },
    /// The user removed an attachment.
    AttachmentRemoved {
        /// Stable prompt-bar identifier.
        id: String,
        /// Stable removed-attachment identifier.
        attachment_id: String,
    },
    /// The user requested application-owned prompt enhancement.
    EnhanceRequested {
        /// Stable prompt-bar identifier.
        id: String,
        /// Complete draft to enhance.
        draft: String,
    },
}

/// One entry of the open suggestion list: a mention or a command, by ID.
#[derive(Debug, Clone, PartialEq, Eq)]
pub enum SuggestionKey {
    /// An `@` mention.
    Mention(String),
    /// A `/` command.
    Command(String),
}

/// A suggestion key as plain values: whether it is a command, and its ID.
pub open spec fn key_view(k: SuggestionKey) -> (bool, Seq<char>) {
    match k {
        SuggestionKey::Mention(id) => (false, id@),
        SuggestionKey::Command(id) => (true, id@),
    }
}

/// A list of suggestion keys as plain values.
pub open spec fn keys_view(keys: Seq<SuggestionKey>) -> Seq<(bool, Seq<char>)> {
    keys.map_values(|k: SuggestionKey| key_view(k))
}

fn same_key(a: &SuggestionKey, b: &SuggestionKey) -> (r: bool)
    ensures
        r == (key_view(*a) == key_view(*b)),
{
    match (a, b) {
        (SuggestionKey::Mention(x), SuggestionKey::Mention(y)) => *x == *y,
        (SuggestionKey::Command(x), SuggestionKey::Command(y)) => *x == *y,
        _ => false,
    }
}

fn clone_key(k: &SuggestionKey) -> (r: SuggestionKey)
    ensures
        key_view(r) == key_view(*k),
{
    match k {
        SuggestionKey::Mention(x) => SuggestionKey::Mention(x.clone()),
        SuggestionKey::Command(x) => SuggestionKey::Command(x.clone()),
    }
}

/// The position the active suggestion moves to in a list of `len`:
/// back one (wrapping from the first to the last) for a negative
/// direction, forward one (wrapping from the last to the first) otherwise.
pub open spec fn stepped_suggestion(current: int, len: int, direction: int) -> int {
    if direction < 0 {
        if current == 0 { len - 1 } else { current - 1 }
    } else {
        (current + 1) % len
    }
}

/// The first position holding `key`, or 0 when the list has none.
pub open spec fn suggestion_rank(keys: Seq<(bool, Seq<char>)>, key: Option<(bool, Seq<char>)>) -> int {
    match key {
        Some(k) => match keys.index_of_first(k) {
            Some(i) => i,
            None => 0,
        },
        None => 0,
    }
}

/// The status line a composer shows for its progress.
pub open spec fn progress_text_spec(progress: ProgressState) -> Option<Seq<char>> {
    match progress {
        ProgressState::Pending => None,
        ProgressState::Running => Some("Running; cancel is available"@),
        ProgressState::Complete => Some("Ready for another prompt"@),
        ProgressState::Failed(reason) => Some("Failed: "@ + reason@),
    }
}

/// The identities of a model catalog, in order.
pub open spec fn model_ids(models: Seq<PromptModel>) -> Seq<Seq<char>> {
    models.map_values(|m: PromptModel| m.id_view())
}

/// Which models of a catalog can be selected, in order.
pub open spec fn model_enabled(models: Seq<PromptModel>) -> Seq<bool> {
    models.map_values(|m: PromptModel| !m.disabled_spec())
}

/// The identities of a mention catalog, in order.
pub open spec fn mention_ids(mentions: Seq<PromptMention>) -> Seq<Seq<char>> {
    mentions.map_values(|m: PromptMention| m.id_view())
}

/// The identities of a command catalog, in order.
pub open spec fn command_ids(commands: Seq<PromptCommand>) -> Seq<Seq<char>> {
    commands.map_values(|c: PromptCommand| c.id_view())
}

/// The identities of an attachment snapshot, in order.
pub open spec fn attachment_ids(attachments: Seq<Attachment>) -> Seq<Seq<char>> {
    attachments.map_values(|a: Attachment| a.id_view())
}

/// Whether `id` names a model of the catalog that can be selected.
pub open spec fn selectable_model(models: Seq<PromptModel>, id: Seq<char>) -> bool {
    exists|k: int| 0 <= k < models.len() && models[k].id_view() == id && !models[k].disabled_spec()
}

fn model_keys(models: &Vec<PromptModel>) -> (r: (Vec<String>, Vec<bool>))
    ensures
        views(r.0@) == model_ids(models@),
        r.1@ == model_enabled(models@),
        r.0@.len() == models@.len(),
{
    let mut ids: Vec<String> = Vec::new();
    let mut enabled: Vec<bool> = Vec::new();
    let mut i: usize = 0;
    while i < models.len()
        invariant
            i <= models@.len(),
            ids@.len() == i,
            views(ids@) == model_ids(models@).take(i as int),
            enabled@ == model_enabled(models@).take(i as int),
        decreases models@.len() - i,
    {
        ids.push(models[i].id.clone());
        enabled.push(!models[i].disabled);
        assert(views(ids@) =~= model_ids(models@).take(i + 1));
        assert(enabled@ =~= model_enabled(models@).take(i + 1));
        i = i + 1;
    }
    assert(model_ids(models@).take(i as int) =~= model_ids(models@));
    assert(model_enabled(models@).take(i as int) =~= model_enabled(models@));
    (ids, enabled)
}

fn mention_id_list(mentions: &Vec<PromptMention>) -> (r: Vec<String>)
    ensures
        views(r@) == mention_ids(mentions@),
{
    let mut ids: Vec<String> = Vec::new();
    let mut i: usize = 0;
    while i < mentions.len()
        invariant
            i <= mentions@.len(),
            ids@.len() == i,
            views(ids@) == mention_ids(mentions@).take(i as int),
        decreases mentions@.len() - i,
    {
        ids.push(mentions[i].id.clone());
        assert(views(ids@) =~= mention_ids(mentions@).take(i + 1));
        i = i + 1;
    }
    assert(mention_ids(mentions@).take(i as int) =~= mention_ids(mentions@));
    ids
}

fn command_id_list(commands: &Vec<PromptCommand>) -> (r: Vec<String>)
    ensures
        views(r@) == command_ids(commands@),
{
    let mut ids: Vec<String> = Vec::new();
    let mut i: usize = 0;
    while i < commands.len()
        invariant
            i <= commands@.len(),
            ids@.len() == i,
            views(ids@) == command_ids(commands@).take(i as int),
        decreases commands@.len() - i,
    {
        ids.push(commands[i].id.clone());
        assert(views(ids@) =~= command_ids(commands@).take(i + 1));
        i = i + 1;
    }
    assert(command_ids(commands@).take(i as int) =~= command_ids(commands@));
    ids
}

fn attachment_id_list(attachments: &Vec<Attachment>) -> (r: Vec<String>)
    ensures
        views(r@) == attachment_ids(attachments@),
{
    let mut ids: Vec<String> = Vec::new();
    let mut i: usize = 0;
    while i < attachments.len()
        invariant
            i <= attachments@.len(),
            ids@.len() == i,
            views(ids@) == attachment_ids(attachments@).take(i as int),
        decreases attachments@.len() - i,
    {
        ids.push(attachments[i].id().clone());
        assert(views(ids@) =~= attachment_ids(attachments@).take(i + 1));
        i = i + 1;
    }
    assert(attachment_ids(attachments@).take(i as int) =~= attachment_ids(attachments@));
    ids
}

/// A prompt composer's state: its draft, the catalogs and attachments the
/// application supplied, the selected model, the open suggestion list with
/// its active entry, whether the model menu is open, and how its action
/// row is arranged.
pub struct PromptBar {
    id: String,
    draft: String,
    models: Vec<PromptModel>,
    selected_model: Option<String>,
    mentions: Vec<PromptMention>,
    commands: Vec<PromptCommand>,
    attachments: Vec<Attachment>,
    progress: ProgressState,
    filtered: Vec<SuggestionKey>,
    active_suggestion: Option<SuggestionKey>,
    model_menu_open: bool,
    actions: PromptActions,
    submit: PromptSubmit,
}

impl PromptBar {
    /// The stable composer identifier.
    pub closed spec fn id_view(self) -> Seq<char> {
        self.id@
    }

    /// The current draft.
    pub closed spec fn draft_view(self) -> Seq<char> {
        self.draft@
    }

    /// The model catalog.
    pub closed spec fn models_spec(self) -> Seq<PromptModel> {
        self.models@
    }

    /// The selected model.
    pub closed spec fn selected(self) -> Option<Seq<char>> {
        opt_view(self.selected_model)
    }

    /// The mention catalog.
    pub closed spec fn mentions_spec(self) -> Seq<PromptMention> {
        self.mentions@
    }

    /// The command catalog.
    pub closed spec fn commands_spec(self) -> Seq<PromptCommand> {
        self.commands@
    }

    /// The attachments.
    pub closed spec fn attachments_spec(self) -> Seq<Attachment> {
        self.attachments@
    }

    /// The application-owned progress.
    pub closed spec fn progress_spec(self) -> ProgressState {
        self.progress
    }

    /// The open suggestion list.
    pub closed spec fn suggestions(self) -> Seq<(bool, Seq<char>)> {
        keys_view(self.filtered@)
    }

    /// The active suggestion.
    pub closed spec fn active(self) -> Option<(bool, Seq<char>)> {
        match self.active_suggestion {
            Some(k) => Some(key_view(k)),
            None => None,
        }
    }

    /// Whether the model menu is open.
    pub closed spec fn menu_open(self) -> bool {
        self.model_menu_open
    }

    /// How the action row is arranged.
    pub closed spec fn actions_spec(self) -> PromptActions {
        self.actions
    }

    /// What the submit control shows.
    pub closed spec fn submit_spec(self) -> PromptSubmit {
        self.submit
    }

    /// The same composer with another action-row arrangement.
    pub closed spec fn with_actions(self, actions: PromptActions) -> PromptBar {
        PromptBar { actions, ..self }
    }

    /// The same composer with another submit appearance.
    pub closed spec fn with_submit(self, submit: PromptSubmit) -> PromptBar {
        PromptBar { submit, ..self }
    }

    /// The same composer with another progress snapshot.
    pub closed spec fn with_progress(self, progress: ProgressState) -> PromptBar {
        PromptBar { progress, ..self }
    }

    /// The same composer with the model menu open or closed.
    pub closed spec fn with_menu(self, open: bool) -> PromptBar {
        PromptBar { model_menu_open: open, ..self }
    }

    /// Whether `other` is this composer with at most its draft changed.
    pub closed spec fn same_but_draft(self, other: PromptBar) -> bool {
        other == PromptBar { draft: other.draft, ..self }
    }

    /// Well-formedness: no catalog repeats an identity, and a selected
    /// model is always one that can be selected.
    pub open spec fn wf(self) -> bool {
        &&& model_ids(self.models_spec()).no_duplicates()
        &&& mention_ids(self.mentions_spec()).no_duplicates()
        &&& command_ids(self.commands_spec()).no_duplicates()
        &&& attachment_ids(self.attachments_spec()).no_duplicates()
        &&& forall|x: Seq<char>| self.selected() == Some(x) ==> selectable_model(self.models_spec(), x)
    }

    /// Creates an empty composer.
    pub fn new(id: &str) -> (r: Self)
        ensures
            r.wf(),
            r.id_view() == id@,
            r.draft_view() == Seq::<char>::empty(),
            r.models_spec() == Seq::<PromptModel>::empty(),
            r.selected() is None,
            r.mentions_spec() == Seq::<PromptMention>::empty(),
            r.commands_spec() == Seq::<PromptCommand>::empty(),
            r.attachments_spec() == Seq::<Attachment>::empty(),
            r.progress_spec() is Pending,
            r.suggestions() == Seq::<(bool, Seq<char>)>::empty(),
            r.active() is None,
            !r.menu_open(),
            r.actions_spec() == PromptActions::Split,
            r.submit_spec() == PromptSubmit::Label,
    {
        let r = PromptBar {
            id: id.to_owned(),
            draft: String::new(),
            models: Vec::new(),
            selected_model: None,
            mentions: Vec::new(),
            commands: Vec::new(),
            attachments: Vec::new(),
            progress: ProgressState::Pending,
            filtered: Vec::new(),
            active_suggestion: None,
            model_menu_open: false,
            actions: PromptActions::Split,
            submit: PromptSubmit::Label,
        };
        assert(model_ids(r.models@) =~= Seq::<Seq<char>>::empty());
        assert(mention_ids(r.mentions@) =~= Seq::<Seq<char>>::empty());
        assert(command_ids(r.commands@) =~= Seq::<Seq<char>>::empty());
        assert(attachment_ids(r.attachments@) =~= Seq::<Seq<char>>::empty());
        assert(keys_view(r.filtered@) =~= Seq::<(bool, Seq<char>)>::empty());
        r
    }

    /// Replaces the model catalog while preserving a still-valid selection:
    /// a selection that no longer names a selectable model moves to the
    /// first selectable one. An empty catalog closes the model menu. A
    /// catalog repeating a stable ID is ignored as a whole and `false`
    /// returned.
    pub fn set_models(&mut self, models: Vec<PromptModel>) -> (r: bool)
        requires
            old(self).wf(),
        ensures
            final(self).wf(),
            r == model_ids(models@).no_duplicates(),
            !r ==> *final(self) == *old(self),
            r ==> {
                &&& final(self).models_spec() == models@
                &&& final(self).selected() == kept_focus_spec(model_ids(models@), model_enabled(models@), old(self).selected())
                &&& final(self).menu_open() == (old(self).menu_open() && models@.len() > 0)
                &&& final(self).id_view() == old(self).id_view()
                &&& final(self).draft_view() == old(self).draft_view()
                &&& final(self).mentions_spec() == old(self).mentions_spec()
                &&& final(self).commands_spec() == old(self).commands_spec()
                &&& final(self).attachments_spec() == old(self).attachments_spec()
                &&& final(self).progress_spec() == old(self).progress_spec()
                &&& final(self).suggestions() == old(self).suggestions()
                &&& final(self).active() == old(self).active()
                &&& final(self).actions_spec() == old(self).actions_spec()
                &&& final(self).submit_spec() == old(self).submit_spec()
            },
    {
        let (ids, enabled) = model_keys(&models);
        if !ids_unique(&ids) {
            return false;
        }
        let selected = keep_focus(&ids, &enabled, &self.selected_model);
        if models.len() == 0 {
            self.model_menu_open = false;
        }
        self.models = models;
        self.selected_model = selected;
        proof {
            match self.selected() {
                Some(x) => {
                    let k = choose|k: int| 0 <= k < ids@.len() && views(ids@)[k] == x && enabled@[k];
                    assert(self.models@[k].id_view() == x);
                },
                None => {},
            }
        }
        true
    }

    /// Applies a consumer-controlled model selection when it names a
    /// selectable model other than the selected one; returns whether the
    /// selection changed.
    pub fn set_selected_model(&mut self, model_id: &str) -> (r: bool)
        requires
            old(self).wf(),
        ensures
            final(self).wf(),
            r == (old(self).selected() != Some(model_id@) && selectable_model(old(self).models_spec(), model_id@)),
            r ==> final(self).selected() == Some(model_id@),
            !r ==> *final(self) == *old(self),
            final(self).models_spec() == old(self).models_spec(),
            final(self).draft_view() == old(self).draft_view(),
            final(self).menu_open() == old(self).menu_open(),
    {
        let key = model_id.to_owned();
        let already = match &self.selected_model {
            Some(s) => *s == key,
            None => false,
        };
        if already {
            return false;
        }
        let mut i: usize = 0;
        while i < self.models.len()
            invariant
                *self == *old(self),
                old(self).wf(),
                old(self).selected() != Some(model_id@),
                i <= self.models@.len(),
                key@ == model_id@,
                forall|k: int| 0 <= k < i ==> !(self.models@[k].id_view() == model_id@ && !self.models@[k].disabled_spec()),
            decreases self.models@.len() - i,
        {
            if self.models[i].id == key && !self.models[i].disabled {
                self.selected_model = Some(key);
                return true;
            }
            i = i + 1;
        }
        false
    }

    /// Returns the model catalog.
    pub fn models(&self) -> (r: &Vec<PromptModel>)
        ensures
            r@ == self.models_spec(),
    {
        &self.models
    }

    /// Returns the selected model.
    pub fn selected_model(&self) -> (r: Option<&String>)
        ensures
            match r {
                Some(s) => self.selected() == Some(s@),
                None => self.selected() is None,
            },
    {
        self.selected_model.as_ref()
    }

    /// Replaces the `@` mention catalog; one repeating a stable ID is
    /// ignored as a whole and `false` returned.
    pub fn set_mentions(&mut self, mentions: Vec<PromptMention>) -> (r: bool)
        requires
            old(self).wf(),
        ensures
            final(self).wf(),
            r == mention_ids(mentions@).no_duplicates(),
            r ==> final(self).mentions_spec() == mentions@,
            !r ==> *final(self) == *old(self),
            final(self).models_spec() == old(self).models_spec(),
            final(self).selected() == old(self).selected(),
            final(self).commands_spec() == old(self).commands_spec(),
            final(self).attachments_spec() == old(self).attachments_spec(),
            final(self).draft_view() == old(self).draft_view(),
    {
        let ids = mention_id_list(&mentions);
        if !ids_unique(&ids) {
            return false;
        }
        self.mentions = mentions;
        true
    }

    /// Replaces the `/` command catalog; one repeating a stable ID is
    /// ignored as a whole and `false` returned.
    pub fn set_commands(&mut self, commands: Vec<PromptCommand>) -> (r: bool)
        requires
            old(self).wf(),
        ensures
            final(self).wf(),
            r == command_ids(commands@).no_duplicates(),
            r ==> final(self).commands_spec() == commands@,
            !r ==> *final(self) == *old(self),
            final(self).models_spec() == old(self).models_spec(),
            final(self).selected() == old(self).selected(),
            final(self).mentions_spec() == old(self).mentions_spec(),
            final(self).attachments_spec() == old(self).attachments_spec(),
            final(self).draft_view() == old(self).draft_view(),
    {
        let ids = command_id_list(&commands);
        if !ids_unique(&ids) {
            return false;
        }
        self.commands = commands;
        true
    }

    /// Replaces the application-owned attachments; a snapshot repeating a
    /// stable ID is ignored as a whole and `false` returned.
    pub fn set_attachments(&mut self, attachments: Vec<Attachment>) -> (r: bool)
        requires
            old(self).wf(),
        ensures
            final(self).wf(),
            r == attachment_ids(attachments@).no_duplicates(),
            r ==> final(self).attachments_spec() == attachments@,
            !r ==> *final(self) == *old(self),
            final(self).models_spec() == old(self).models_spec(),
            final(self).selected() == old(self).selected(),
            final(self).mentions_spec() == old(self).mentions_spec(),
            final(self).commands_spec() == old(self).commands_spec(),
            final(self).draft_view() == old(self).draft_view(),
    {
        let ids = attachment_id_list(&attachments);
        if !ids_unique(&ids) {
            return false;
        }
        self.attachments = attachments;
        true
    }

    /// Returns the attachments.
    pub fn attachments(&self) -> (r: &Vec<Attachment>)
        ensures
            r@ == self.attachments_spec(),
    {
        &self.attachments
    }

    /// Chooses how the action row arranges its controls.
    pub fn set_actions(&mut self, actions: PromptActions)
        ensures
            *final(self) == old(self).with_actions(actions),
    {
        self.actions = actions;
    }

    /// Chooses whether the submit control reads as a word or a glyph.
    pub fn set_submit(&mut self, submit: PromptSubmit)
        ensures
            *final(self) == old(self).with_submit(submit),
    {
        self.submit = submit;
    }

    /// Returns how the action row arranges its controls.
    pub fn actions(&self) -> (r: PromptActions)
        ensures
            r == self.actions_spec(),
    {
        self.actions
    }

    /// Returns what the submit control shows.
    pub fn submit_appearance(&self) -> (r: PromptSubmit)
        ensures
            r == self.submit_spec(),
    {
        self.submit
    }

    /// Replaces the application-owned progress snapshot.
    pub fn set_progress(&mut self, progress: ProgressState)
        ensures
            *final(self) == old(self).with_progress(progress),
    {
        self.progress = progress;
    }

    /// Returns the application-owned progress snapshot.
    pub fn progress(&self) -> (r: &ProgressState)
        ensures
            *r == self.progress_spec(),
    {
        &self.progress
    }

    /// Replaces the draft; returns the change notice, or none when the
    /// draft is unchanged.
    pub fn set_draft(&mut self, draft: &str) -> (r: Option<PromptBarEvent>)
        ensures
            final(self).draft_view() == draft@,
            r is Some <==> old(self).draft_view() != draft@,
            r matches Some(e) ==> e matches PromptBarEvent::DraftChanged { id, draft: d } && id@ == old(self).id_view()
                && d@ == draft@,
            old(self).same_but_draft(*final(self)),
    {
        let next = draft.to_owned();
        if self.draft == next {
            return None;
        }
        self.draft = next;
        Some(PromptBarEvent::DraftChanged { id: self.id.clone(), draft: draft.to_owned() })
    }

    /// Returns the complete current draft.
    pub fn draft(&self) -> (r: &String)
        ensures
            r@ == self.draft_view(),
    {
        &self.draft
    }

    /// Opens a suggestion list; the first entry becomes active.
    pub fn show_suggestions(&mut self, keys: Vec<SuggestionKey>)
        ensures
            final(self).suggestions() == keys_view(keys@),
            final(self).active() == if keys@.len() > 0 { Some(key_view(keys@[0])) } else { None },
            final(self).models_spec() == old(self).models_spec(),
            final(self).selected() == old(self).selected(),
            final(self).mentions_spec() == old(self).mentions_spec(),
            final(self).commands_spec() == old(self).commands_spec(),
            final(self).attachments_spec() == old(self).attachments_spec(),
            final(self).draft_view() == old(self).draft_view(),
            final(self).progress_spec() == old(self).progress_spec(),
            final(self).menu_open() == old(self).menu_open(),
            final(self).id_view() == old(self).id_view(),
    {
        self.active_suggestion = if keys.len() > 0 { Some(clone_key(&keys[0])) } else { None };
        self.filtered = keys;
    }

    /// Closes the suggestion list.
    pub fn dismiss_suggestions(&mut self)
        ensures
            final(self).suggestions() == Seq::<(bool, Seq<char>)>::empty(),
            final(self).active() is None,
            final(self).models_spec() == old(self).models_spec(),
            final(self).selected() == old(self).selected(),
            final(self).mentions_spec() == old(self).mentions_spec(),
            final(self).commands_spec() == old(self).commands_spec(),
            final(self).attachments_spec() == old(self).attachments_spec(),
            final(self).draft_view() == old(self).draft_view(),
            final(self).progress_spec() == old(self).progress_spec(),
            final(self).menu_open() == old(self).menu_open(),
            final(self).id_view() == old(self).id_view(),
    {
        self.filtered = Vec::new();
        self.active_suggestion = None;
        assert(keys_view(self.filtered@) =~= Seq::<(bool, Seq<char>)>::empty());
    }

    /// Returns the active suggestion.
    pub fn active_suggestion(&self) -> (r: Option<&SuggestionKey>)
        ensures
            match r {
                Some(k) => self.active() == Some(key_view(*k)),
                None => self.active() is None,
            },
    {
        self.active_suggestion.as_ref()
    }

    /// Moves the active suggestion one entry back (negative direction) or
    /// forward, wrapping at either end, from the active entry (from the
    /// first when none is active or it is not in the list). With no open
    /// list nothing changes.
    pub fn move_active_suggestion(&mut self, direction: isize)
        ensures
            final(self).suggestions() == old(self).suggestions(),
            old(self).suggestions().len() == 0 ==> final(self).active() == old(self).active(),
            old(self).suggestions().len() > 0 ==> final(self).active() == Some(old(self).suggestions()[
                stepped_suggestion(
                    suggestion_rank(old(self).suggestions(), old(self).active()),
                    old(self).suggestions().len() as int,
                    direction as int,
                )]),
            final(self).models_spec() == old(self).models_spec(),
            final(self).selected() == old(self).selected(),
            final(self).mentions_spec() == old(self).mentions_spec(),
            final(self).commands_spec() == old(self).commands_spec(),
            final(self).attachments_spec() == old(self).attachments_spec(),
            final(self).draft_view() == old(self).draft_view(),
            final(self).progress_spec() == old(self).progress_spec(),
            final(self).menu_open() == old(self).menu_open(),
            final(self).id_view() == old(self).id_view(),
    {
        let n = self.filtered.len();
        if n == 0 {
            return;
        }
        let ghost ks = keys_view(self.filtered@);
        let mut current: usize = 0;
        if let Some(active) = &self.active_suggestion {
            let mut i: usize = 0;
            let mut found = false;
            while i < n
                invariant
                    n == self.filtered@.len(),
                    ks == keys_view(self.filtered@),
                    i <= n,
                    !found ==> current == 0 && forall|k: int| 0 <= k < i ==> ks[k] != key_view(*active),
                    found ==> current < n && ks[current as int] == key_view(*active)
                        && forall|k: int| 0 <= k < current ==> ks[k] != key_view(*active),
                decreases n - i,
            {
                if !found && same_key(&self.filtered[i], active) {
                    current = i;
                    found = true;
                }
                i = i + 1;
            }
            proof {
                ks.index_of_first_ensures(key_view(*active));
                if found {
                    assert(ks.contains(key_view(*active)));
                } else {
                    if ks.contains(key_view(*active)) {
                        let j = choose|j: int| 0 <= j < ks.len() && ks[j] == key_view(*active);
                        assert(ks[j] != key_view(*active));
                    }
                }
            }
        }
        let next = if direction < 0 {
            if current == 0 { n - 1 } else { current - 1 }
        } else {
            (current + 1) % n
        };
        self.active_suggestion = Some(clone_key(&self.filtered[next]));
    }

    /// Whether the composer is waiting on running work.
    pub open spec fn running(self) -> bool {
        self.progress_spec() is Running
    }

    /// Whether the send control accepts activation: not while running, and
    /// not with a draft that is only white space.
    pub fn send_enabled(&self) -> (r: bool)
        ensures
            r == (!self.running() && trim_spec(self.draft_view()).len() > 0),
    {
        let trimmed = trim_white_space(self.draft.as_str());
        !self.progress.is_running() && !trimmed.as_str().is_empty()
    }

    /// Whether the enhance control accepts activation: same rule as send.
    pub fn enhance_enabled(&self) -> (r: bool)
        ensures
            r == (!self.running() && trim_spec(self.draft_view()).len() > 0),
    {
        self.send_enabled()
    }

    /// The submit control's word: `Cancel` while running, `Send` otherwise.
    pub fn submit_label(&self) -> (r: &'static str)
        ensures
            r@ == if self.running() { "Cancel"@ } else { "Send"@ },
    {
        if self.progress.is_running() {
            "Cancel"
        } else {
            "Send"
        }
    }

    /// The status line for the progress snapshot, if any.
    pub fn progress_text(&self) -> (r: Option<String>)
        ensures
            opt_view(r) == progress_text_spec(self.progress_spec()),
    {
        match &self.progress {
            ProgressState::Pending => None,
            ProgressState::Running => Some("Running; cancel is available".to_owned()),
            ProgressState::Complete => Some("Ready for another prompt".to_owned()),
            ProgressState::Failed(reason) => {
                let mut s = "Failed: ".to_owned();
                s.append(reason.as_str());
                Some(s)
            },
        }
    }

    /// The model control's text: `Model: <label>` for the selected model,
    /// `No models available` without one.
    pub fn selected_model_label(&self) -> (r: String)
        requires
            self.wf(),
        ensures
            match self.selected() {
                Some(x) => exists|k: int| 0 <= k < self.models_spec().len() && self.models_spec()[k].id_view() == x
                    && r@ == "Model: "@ + self.models_spec()[k].label_view(),
                None => r@ == "No models available"@,
            },
    {
        if let Some(selected) = &self.selected_model {
            let mut i: usize = 0;
            while i < self.models.len()
                invariant
                    i <= self.models@.len(),
                    self.selected() == Some(selected@),
                    selectable_model(self.models@, selected@),
                    forall|k: int| 0 <= k < i ==> self.models@[k].id_view() != selected@,
                decreases self.models@.len() - i,
            {
                if self.models[i].id == *selected {
                    assert(self.models_spec()[i as int].id_view() == selected@);
                    let mut s = "Model: ".to_owned();
                    s.append(self.models[i].label.as_str());
                    return s;
                }
                i = i + 1;
            }
        }
        "No models available".to_owned()
    }

    /// The submission the composer reports when asked to send: none while
    /// running or when the draft is only white space; otherwise the trimmed
    /// draft, the selected model, and the attachments present. A submission
    /// clears the draft and the suggestion list.
    pub fn submit(&mut self) -> (r: Option<PromptBarEvent>)
        requires
            old(self).wf(),
        ensures
            final(self).wf(),
            r is Some <==> (!old(self).running() && trim_spec(old(self).draft_view()).len() > 0),
            r is None ==> *final(self) == *old(self),
            r matches Some(e) ==> e matches PromptBarEvent::Submit { id, submission } && id@ == old(self).id_view()
                && submission.text_view() == trim_spec(old(self).draft_view())
                && submission.model_view() == old(self).selected()
                && submission.attachment_ids_view() == attachment_ids(old(self).attachments_spec()),
            r is Some ==> {
                &&& final(self).draft_view() == Seq::<char>::empty()
                &&& final(self).suggestions() == Seq::<(bool, Seq<char>)>::empty()
                &&& final(self).active() is None
                &&& final(self).models_spec() == old(self).models_spec()
                &&& final(self).selected() == old(self).selected()
                &&& final(self).attachments_spec() == old(self).attachments_spec()
                &&& final(self).progress_spec() == old(self).progress_spec()
            },
    {
        if self.progress.is_running() {
            return None;
        }
        let text = trim_white_space(self.draft.as_str());
        if text.as_str().is_empty() {
            return None;
        }
        let submission = PromptSubmission {
            text,
            model_id: match &self.selected_model {
                Some(m) => Some(m.clone()),
                None => None,
            },
            attachment_ids: attachment_id_list(&self.attachments),
        };
        self.draft = String::new();
        self.filtered = Vec::new();
        self.active_suggestion = None;
        assert(keys_view(self.filtered@) =~= Seq::<(bool, Seq<char>)>::empty());
        Some(PromptBarEvent::Submit { id: self.id.clone(), submission })
    }

    /// The intent the submit control produces while work is running.
    pub fn cancel(&self) -> (r: Option<PromptBarEvent>)
        ensures
            r is Some <==> self.running(),
            r matches Some(e) ==> e matches PromptBarEvent::CancelRequested { id } && id@ == self.id_view(),
    {
        if self.progress.is_running() {
            Some(PromptBarEvent::CancelRequested { id: self.id.clone() })
        } else {
            None
        }
    }

    /// Escape closes the model menu if it is open, and otherwise an open
    /// suggestion list; returns whether it closed anything.
    pub fn escape(&mut self) -> (r: bool)
        ensures
            r == (old(self).menu_open() || old(self).suggestions().len() > 0),
            !final(self).menu_open(),
            old(self).menu_open() ==> final(self).suggestions() == old(self).suggestions()
                && final(self).active() == old(self).active(),
            !old(self).menu_open() ==> final(self).suggestions() == Seq::<(bool, Seq<char>)>::empty()
                && (old(self).suggestions().len() > 0 ==> final(self).active() is None)
                && (old(self).suggestions().len() == 0 ==> final(self).active() == old(self).active()),
            final(self).models_spec() == old(self).models_spec(),
            final(self).selected() == old(self).selected(),
            final(self).draft_view() == old(self).draft_view(),
    {
        if self.model_menu_open {
            self.model_menu_open = false;
            true
        } else if self.filtered.len() > 0 {
            self.filtered = Vec::new();
            self.active_suggestion = None;
            assert(keys_view(self.filtered@) =~= Seq::<(bool, Seq<char>)>::empty());
            true
        } else {
            assert(keys_view(self.filtered@) =~= Seq::<(bool, Seq<char>)>::empty());
            false
        }
    }

    /// Opens or closes the model menu; it only opens over a non-empty
    /// catalog. Returns whether it is open.
    pub fn toggle_model_menu(&mut self) -> (r: bool)
        ensures
            r == final(self).menu_open(),
            r == (!old(self).menu_open() && old(self).models_spec().len() > 0),
            *final(self) == old(self).with_menu(r),
    {
        self.model_menu_open = !self.model_menu_open && self.models.len() > 0;
        self.model_menu_open
    }

    /// The text that replaces the typed token when the active suggestion is
    /// inserted, with the notice it produces: `@label` or `/label`,
    /// followed by a space unless `next` (the character after the token) is
    /// already white space. None when no suggestion is active or its entry
    /// has left the catalog.
    pub fn active_insertion(&self, next: Option<char>) -> (r: Option<(String, PromptBarEvent)>)
        ensures
            r is Some ==> self.active() is Some,
            r matches Some((text, e)) ==> {
                let sep = if next matches Some(c) && is_white_space(c) { Seq::<char>::empty() } else { " "@ };
                match self.active().unwrap() {
                    (false, id) => exists|k: int| 0 <= k < self.mentions_spec().len()
                        && self.mentions_spec()[k].id_view() == id
                        && text@ == "@"@ + self.mentions_spec()[k].label_view() + sep
                        && (e matches PromptBarEvent::MentionSelected { id: bar, mention_id } && bar@ == self.id_view()
                        && mention_id@ == id),
                    (true, id) => exists|k: int| 0 <= k < self.commands_spec().len()
                        && self.commands_spec()[k].id_view() == id
                        && text@ == "/"@ + self.commands_spec()[k].label_view() + sep
                        && (e matches PromptBarEvent::CommandSelected { id: bar, command_id } && bar@ == self.id_view()
                        && command_id@ == id),
                }
            },
            self.active() matches Some((false, id)) && mention_ids(self.mentions_spec()).contains(id) ==> r is Some,
            self.active() matches Some((true, id)) && command_ids(self.commands_spec()).contains(id) ==> r is Some,
    {
        let separate = match next {
            Some(c) => !white_space(c),
            None => true,
        };
        match &self.active_suggestion {
            Some(SuggestionKey::Mention(id)) => {
                let mut i: usize = 0;
                while i < self.mentions.len()
                    invariant
                        i <= self.mentions@.len(),
                        self.active() == Some((false, id@)),
                        separate == !(next matches Some(c) && is_white_space(c)),
                        forall|k: int| 0 <= k < i ==> self.mentions@[k].id_view() != id@,
                    decreases self.mentions@.len() - i,
                {
                    if self.mentions[i].id == *id {
                        assert(self.mentions_spec()[i as int].id_view() == id@);
                        let mut text = "@".to_owned();
                        text.append(self.mentions[i].label.as_str());
                        if separate {
                            text.append(" ");
                        } else {
                            assert(text@ + Seq::<char>::empty() =~= text@);
                        }
                        return Some((text, PromptBarEvent::MentionSelected {
                            id: self.id.clone(),
                            mention_id: id.clone(),
                        }));
                    }
                    i = i + 1;
                }
                proof {
                    if mention_ids(self.mentions@).contains(id@) {
                        let k = choose|k: int| 0 <= k < mention_ids(self.mentions@).len() && mention_ids(self.mentions@)[k] == id@;
                        assert(self.mentions@[k].id_view() == id@);
                    }
                }
                None
            },
            Some(SuggestionKey::Command(id)) => {
                let mut i: usize = 0;
                while i < self.commands.len()
                    invariant
                        i <= self.commands@.len(),
                        self.active() == Some((true, id@)),
                        separate == !(next matches Some(c) && is_white_space(c)),
                        forall|k: int| 0 <= k < i ==> self.commands@[k].id_view() != id@,
                    decreases self.commands@.len() - i,
                {
                    if self.commands[i].id == *id {
                        assert(self.commands_spec()[i as int].id_view() == id@);
                        let mut text = "/".to_owned();
                        text.append(self.commands[i].label.as_str());
                        if separate {
                            text.append(" ");
                        } else {
                            assert(text@ + Seq::<char>::empty() =~= text@);
                        }
                        return Some((text, PromptBarEvent::CommandSelected {
                            id: self.id.clone(),
                            command_id: id.clone(),
                        }));
                    }
                    i = i + 1;
                }
                proof {
                    if command_ids(self.commands@).contains(id@) {
                        let k = choose|k: int| 0 <= k < command_ids(self.commands@).len() && command_ids(self.commands@)[k] == id@;
                        assert(self.commands@[k].id_view() == id@);
                    }
                }
                None
            },
            None => None,
        }
    }

    /// The intent the attach control produces.
    pub fn request_attach(&self) -> (r: PromptBarEvent)
        ensures
            r matches PromptBarEvent::AttachRequested { id } && id@ == self.id_view(),
    {
        PromptBarEvent::AttachRequested { id: self.id.clone() }
    }

    /// The intent the enhance control produces, carrying the whole draft;
    /// none while the control is disabled.
    pub fn request_enhance(&self) -> (r: Option<PromptBarEvent>)
        ensures
            r is Some <==> (!self.running() && trim_spec(self.draft_view()).len() > 0),
            r matches Some(e) ==> e matches PromptBarEvent::EnhanceRequested { id, draft } && id@ == self.id_view()
                && draft@ == self.draft_view(),
    {
        if self.enhance_enabled() {
            Some(PromptBarEvent::EnhanceRequested { id: self.id.clone(), draft: self.draft.clone() })
        } else {
            None
        }
    }

    /// The notice a removal gesture on an attachment tile produces.
    pub fn remove_attachment(&self, attachment_id: &str) -> (r: PromptBarEvent)
        ensures
            r matches PromptBarEvent::AttachmentRemoved { id, attachment_id: a } && id@ == self.id_view()
                && a@ == attachment_id@,
    {
        PromptBarEvent::AttachmentRemoved { id: self.id.clone(), attachment_id: attachment_id.to_owned() }
    }
}

} // verus!

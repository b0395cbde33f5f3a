//! Artifacts: a generated document, code file, or data view shown beside
//! the conversation. An [`Artifact`] carries its source as streamed content
//! (so a panel can show it while the agent is still writing), the kind that
//! picks its preview, and the versions the agent has produced. The panel
//! state decides which face is shown, how versions are navigated, and what
//! every control reports.

use vstd::prelude::*;
use crate::ids::opt_view;
use crate::stream::{ProgressState, StreamedContent};
use crate::text::{decimal, push_decimal};

verus! {

broadcast use vstd::seq_lib::group_seq_properties;

/// What the artifact is, which decides its preview and glyph.
#[derive(Debug, Clone, Copy, PartialEq, Eq, Hash, Structural)]
pub enum ArtifactKind {
    /// Source code; previewed as a highlighted block.
    Code,
    /// Markdown prose; previewed as rendered text.
    Markdown,
    /// HTML; no native preview, so the source is shown.
    Html,
    /// Tabular or structured data; shown as source.
    Data,
    /// Anything else.
    Other,
}

impl Default for ArtifactKind {
    fn default() -> (r: Self)
        ensures
            r == ArtifactKind::Code,
    {
        ArtifactKind::Code
    }
}

/// The short label of a kind.
pub open spec fn artifact_kind_label_spec(kind: ArtifactKind) -> Seq<char> {
    match kind {
        ArtifactKind::Code => "Code"@,
        ArtifactKind::Markdown => "Document"@,
        ArtifactKind::Html => "HTML"@,
        ArtifactKind::Data => "Data"@,
        ArtifactKind::Other => "Artifact"@,
    }
}

impl ArtifactKind {
    /// The short label for the kind.
    pub fn label(self) -> (r: &'static str)
        ensures
            r@ == artifact_kind_label_spec(self),
    {
        match self {
            ArtifactKind::Code => "Code",
            ArtifactKind::Markdown => "Document",
            ArtifactKind::Html => "HTML",
            ArtifactKind::Data => "Data",
            ArtifactKind::Other => "Artifact",
        }
    }

    /// Whether the preview renders something other than the source: only
    /// prose and code have one.
    pub fn has_preview(self) -> (r: bool)
        ensures
            r == (self == ArtifactKind::Markdown || self == ArtifactKind::Code),
    {
        match self {
            ArtifactKind::Markdown | ArtifactKind::Code => true,
            _ => false,
        }
    }
}

/// Which face of the artifact is shown.
#[derive(Debug, Clone, Copy, PartialEq, Eq, Hash, Structural)]
pub enum ArtifactView {
    /// The rendered form.
    Preview,
    /// The raw source.
    Source,
}

impl Default for ArtifactView {
    fn default() -> (r: Self)
        ensures
            r == ArtifactView::Preview,
    {
        ArtifactView::Preview
    }
}

impl ArtifactView {
    /// The position of the face in the Preview / Source switch.
    pub fn index(self) -> (r: usize)
        ensures
            r == if self == ArtifactView::Preview { 0usize } else { 1usize },
    {
        match self {
            ArtifactView::Preview => 0,
            ArtifactView::Source => 1,
        }
    }

    /// The face at a position of the switch; anything past the first is
    /// the source.
    pub fn from_index(index: usize) -> (r: Self)
        ensures
            r == if index == 0 { ArtifactView::Preview } else { ArtifactView::Source },
    {
        if index == 0 {
            ArtifactView::Preview
        } else {
            ArtifactView::Source
        }
    }
}

/// One produced version of an artifact.
#[derive(Debug, Clone, PartialEq, Eq)]
pub struct ArtifactVersion {
    id: String,
    label: String,
}

impl ArtifactVersion {
    /// The stable version identifier.
    pub closed spec fn id_view(self) -> Seq<char> {
        self.id@
    }

    /// The visible label.
    pub closed spec fn label_view(self) -> Seq<char> {
        self.label@
    }

    /// Creates a version with a stable identifier and a short label.
    pub fn new(id: &str, label: &str) -> (r: Self)
        ensures
            r.id_view() == id@,
            r.label_view() == label@,
    {
        ArtifactVersion { id: id.to_owned(), label: label.to_owned() }
    }

    /// Returns the stable version identifier.
    pub fn id(&self) -> (r: &String)
        ensures
            r@ == self.id_view(),
    {
        &self.id
    }

    /// Returns the visible label.
    pub fn label(&self) -> (r: &String)
        ensures
            r@ == self.label_view(),
    {
        &self.label
    }
}

/// An application-defined action offered under the artifact.
#[derive(Debug, Clone, PartialEq, Eq)]
pub struct ArtifactAction {
    id: String,
    label: String,
}

impl ArtifactAction {
    /// The stable action identifier.
    pub closed spec fn id_view(self) -> Seq<char> {
        self.id@
    }

    /// The visible label.
    pub closed spec fn label_view(self) -> Seq<char> {
        self.label@
    }

    /// Creates an action with a stable identifier and its label.
    pub fn new(id: &str, label: &str) -> (r: Self)
        ensures
            r.id_view() == id@,
            r.label_view() == label@,
    {
        ArtifactAction { id: id.to_owned(), label: label.to_owned() }
    }

    /// Returns the stable action identifier.
    pub fn id(&self) -> (r: &String)
        ensures
            r@ == self.id_view(),
    {
        &self.id
    }

    /// Returns the visible label.
    pub fn label(&self) -> (r: &String)
        ensures
            r@ == self.label_view(),
    {
        &self.label
    }
}

/// The first position of the version with identity `id`, if any.
pub open spec fn version_position(versions: Seq<ArtifactVersion>, id: Seq<char>) -> Option<int>
    decreases versions.len(),
{
    if versions.len() == 0 {
        None
    } else {
        let earlier = version_position(versions.drop_last(), id);
        if earlier is Some {
            earlier
        } else if versions.last().id_view() == id {
            Some(versions.len() - 1)
        } else {
            None
        }
    }
}

/// The version shown: the selected one when the artifact has it, the
/// latest otherwise, and none without versions.
pub open spec fn active_index_spec(versions: Seq<ArtifactVersion>, active: Option<Seq<char>>) -> Option<int> {
    if versions.len() == 0 {
        None
    } else {
        match active {
            Some(id) => match version_position(versions, id) {
                Some(k) => Some(k),
                None => Some(versions.len() - 1),
            },
            None => Some(versions.len() - 1),
        }
    }
}

/// The accessible name of an artifact: title and kind, then `generating`
/// while its source is pending or running, or the failure with its reason.
pub open spec fn artifact_label_spec(title: Seq<char>, kind: ArtifactKind, state: ProgressState) -> Seq<char> {
    let base = "Artifact: "@ + title + ", "@ + artifact_kind_label_spec(kind);
    match state {
        ProgressState::Pending | ProgressState::Running => base + ", generating"@,
        ProgressState::Failed(reason) => base + ", failed: "@ + reason@,
        ProgressState::Complete => base,
    }
}

/// The accessible name of an artifact reads `Artifact: <title>, <kind>`
/// and then its lifecycle: `, generating` while the source is pending or
/// running, `, failed: <reason>` once it failed, nothing once complete. So
/// a pending and a running artifact are named alike, and each is the
/// complete name followed by `, generating`.
pub proof fn lemma_artifact_label_lifecycle(title: Seq<char>, kind: ArtifactKind, reason: String)
    ensures
        artifact_label_spec(title, kind, ProgressState::Complete) == "Artifact: "@ + title + ", "@
            + artifact_kind_label_spec(kind),
        artifact_label_spec(title, kind, ProgressState::Pending) == "Artifact: "@ + title + ", "@
            + artifact_kind_label_spec(kind) + ", generating"@,
        artifact_label_spec(title, kind, ProgressState::Running) == "Artifact: "@ + title + ", "@
            + artifact_kind_label_spec(kind) + ", generating"@,
        artifact_label_spec(title, kind, ProgressState::Failed(reason)) == "Artifact: "@ + title + ", "@
            + artifact_kind_label_spec(kind) + ", failed: "@ + reason@,
        artifact_label_spec(title, kind, ProgressState::Pending) == artifact_label_spec(
            title,
            kind,
            ProgressState::Complete,
        ) + ", generating"@,
        artifact_label_spec(title, kind, ProgressState::Running) == artifact_label_spec(
            title,
            kind,
            ProgressState::Pending,
        ),
{
}

/// A generated artifact: title, kind, source, and versions.
#[derive(Debug, Clone)]
pub struct Artifact {
    id: String,
    title: String,
    kind: ArtifactKind,
    language: Option<String>,
    source: StreamedContent,
    versions: Vec<ArtifactVersion>,
    active_version: Option<String>,
}

proof fn lemma_version_position(versions: Seq<ArtifactVersion>, id: Seq<char>)
    ensures
        match version_position(versions, id) {
            Some(k) => 0 <= k < versions.len() && versions[k].id_view() == id
                && forall|j: int| 0 <= j < k ==> versions[j].id_view() != id,
            None => forall|j: int| 0 <= j < versions.len() ==> versions[j].id_view() != id,
        },
    decreases versions.len(),
{
    if versions.len() > 0 {
        let d = versions.drop_last();
        lemma_version_position(d, id);
        assert forall|j: int| 0 <= j < d.len() implies d[j] == versions[j] by {}
    }
}

impl Artifact {
    /// The stable artifact identifier.
    pub closed spec fn id_view(self) -> Seq<char> {
        self.id@
    }

    /// The title.
    pub closed spec fn title_view(self) -> Seq<char> {
        self.title@
    }

    /// The kind.
    pub closed spec fn kind_spec(self) -> ArtifactKind {
        self.kind
    }

    /// The language used to highlight the source, if set.
    pub closed spec fn language_view(self) -> Option<Seq<char>> {
        opt_view(self.language)
    }

    /// The source with its lifecycle.
    pub closed spec fn source_spec(self) -> StreamedContent {
        self.source
    }

    /// The versions, oldest first.
    pub closed spec fn versions_spec(self) -> Seq<ArtifactVersion> {
        self.versions@
    }

    /// The selected version, if one was chosen.
    pub closed spec fn active_view(self) -> Option<Seq<char>> {
        opt_view(self.active_version)
    }

    /// Creates a code artifact with its title and source and no versions.
    pub fn new(id: &str, title: &str, source: StreamedContent) -> (r: Self)
        ensures
            r.id_view() == id@,
            r.title_view() == title@,
            r.kind_spec() == ArtifactKind::Code,
            r.language_view() is None,
            r.source_spec() == source,
            r.versions_spec() == Seq::<ArtifactVersion>::empty(),
            r.active_view() is None,
    {
        Artifact {
            id: id.to_owned(),
            title: title.to_owned(),
            kind: ArtifactKind::Code,
            language: None,
            source,
            versions: Vec::new(),
            active_version: None,
        }
    }

    /// Sets the kind.
    pub fn kind(self, kind: ArtifactKind) -> (r: Self)
        ensures
            r.kind_spec() == kind,
            r.id_view() == self.id_view(),
            r.title_view() == self.title_view(),
            r.language_view() == self.language_view(),
            r.source_spec() == self.source_spec(),
            r.versions_spec() == self.versions_spec(),
            r.active_view() == self.active_view(),
    {
        Artifact { kind, ..self }
    }

    /// Sets the language used to highlight the source.
    pub fn language(self, language: &str) -> (r: Self)
        ensures
            r.language_view() == Some(language@),
            r.id_view() == self.id_view(),
            r.title_view() == self.title_view(),
            r.kind_spec() == self.kind_spec(),
            r.source_spec() == self.source_spec(),
            r.versions_spec() == self.versions_spec(),
            r.active_view() == self.active_view(),
    {
        Artifact { language: Some(language.to_owned()), ..self }
    }

    /// Sets the produced versions, oldest first.
    pub fn versions(self, versions: Vec<ArtifactVersion>) -> (r: Self)
        ensures
            r.versions_spec() == versions@,
            r.id_view() == self.id_view(),
            r.title_view() == self.title_view(),
            r.kind_spec() == self.kind_spec(),
            r.language_view() == self.language_view(),
            r.source_spec() == self.source_spec(),
            r.active_view() == self.active_view(),
    {
        Artifact { versions, ..self }
    }

    /// Selects the shown version by ID.
    pub fn active_version(self, version_id: &str) -> (r: Self)
        ensures
            r.active_view() == Some(version_id@),
            r.id_view() == self.id_view(),
            r.title_view() == self.title_view(),
            r.kind_spec() == self.kind_spec(),
            r.language_view() == self.language_view(),
            r.source_spec() == self.source_spec(),
            r.versions_spec() == self.versions_spec(),
    {
        Artifact { active_version: Some(version_id.to_owned()), ..self }
    }

    /// Returns the stable artifact identifier.
    pub fn id(&self) -> (r: &String)
        ensures
            r@ == self.id_view(),
    {
        &self.id
    }

    /// Returns the title.
    pub fn title(&self) -> (r: &String)
        ensures
            r@ == self.title_view(),
    {
        &self.title
    }

    /// Returns the kind.
    pub fn artifact_kind(&self) -> (r: ArtifactKind)
        ensures
            r == self.kind_spec(),
    {
        self.kind
    }

    /// Returns the source with its lifecycle.
    pub fn source(&self) -> (r: &StreamedContent)
        ensures
            *r == self.source_spec(),
    {
        &self.source
    }

    /// Returns the versions, oldest first.
    pub fn version_refs(&self) -> (r: &Vec<ArtifactVersion>)
        ensures
            r@ == self.versions_spec(),
    {
        &self.versions
    }

    /// Returns the index of the active version (the last one by default).
    pub fn active_version_index(&self) -> (r: Option<usize>)
        ensures
            match r {
                Some(k) => active_index_spec(self.versions_spec(), self.active_view()) == Some(k as int)
                    && k < self.versions_spec().len(),
                None => active_index_spec(self.versions_spec(), self.active_view()) is None,
            },
    {
        let n = self.versions.len();
        if n == 0 {
            return None;
        }
        if let Some(id) = &self.active_version {
            proof {
                lemma_version_position(self.versions@, id@);
            }
            assert(version_position(self.versions@, id@) is None ==> active_index_spec(self.versions_spec(), self.active_view()) == Some(n - 1));
            let mut i: usize = 0;
            while i < n
                invariant
                    n == self.versions@.len(),
                    n > 0,
                    self.active_view() == Some(id@),
                    i <= n,
                    forall|j: int| 0 <= j < i ==> self.versions@[j].id_view() != id@,
                decreases n - i,
            {
                if self.versions[i].id == *id {
                    proof {
                        lemma_version_position(self.versions@, id@);
                        assert(self.versions@[i as int].id_view() == id@);
                    }
                    return Some(i);
                }
                i = i + 1;
            }
        }
        Some(n - 1)
    }

    /// The accessible name: title, kind, and lifecycle.
    pub fn accessibility_label(&self) -> (r: String)
        ensures
            r@ == artifact_label_spec(self.title_view(), self.kind_spec(), self.source_spec().progress()),
            (self.source_spec().progress() is Pending || self.source_spec().progress() is Running) ==> r@
                == "Artifact: "@ + self.title_view() + ", "@ + artifact_kind_label_spec(self.kind_spec())
                + ", generating"@,
            self.source_spec().progress() is Complete ==> r@ == "Artifact: "@ + self.title_view() + ", "@
                + artifact_kind_label_spec(self.kind_spec()),
    {
        let mut s = "Artifact: ".to_owned();
        s.append(self.title.as_str());
        s.append(", ");
        s.append(self.kind.label());
        match self.source.state() {
            ProgressState::Pending | ProgressState::Running => s.append(", generating"),
            ProgressState::Failed(reason) => {
                s.append(", failed: ");
                s.append(reason.as_str());
            },
            ProgressState::Complete => {},
        }
        s
    }
}

/// An interaction emitted by an artifact panel.
#[derive(Debug, Clone, PartialEq, Eq)]
pub enum ArtifactPanelEvent {
    /// The panel's close control was activated.
    Closed {
        /// Stable artifact identifier.
        id: String,
    },
    /// Preview or Source was chosen.
    ViewSelected {
        /// Stable artifact identifier.
        id: String,
        /// The chosen face.
        view: ArtifactView,
    },
    /// Another version was chosen.
    VersionSelected {
        /// Stable artifact identifier.
        id: String,
        /// Stable version identifier.
        version_id: String,
    },
    /// An application action was activated.
    ActionActivated {
        /// Stable artifact identifier.
        id: String,
        /// Stable action identifier.
        action_id: String,
    },
}

/// The direction of a version step.
#[derive(Debug, Clone, Copy, PartialEq, Eq, Structural)]
pub enum VersionStep {
    /// Toward the oldest version.
    Previous,
    /// Toward the latest version.
    Next,
}

/// The side panel for one artifact: which face is asked for, and the
/// application actions offered under the body.
#[derive(Debug, Clone)]
pub struct ArtifactPanel {
    artifact: Artifact,
    view: ArtifactView,
    actions: Vec<ArtifactAction>,
}

impl ArtifactPanel {
    /// The artifact shown.
    pub closed spec fn artifact_spec(self) -> Artifact {
        self.artifact
    }

    /// The face asked for.
    pub closed spec fn view_spec(self) -> ArtifactView {
        self.view
    }

    /// The application actions.
    pub closed spec fn actions_spec(self) -> Seq<ArtifactAction> {
        self.actions@
    }

    /// Creates a panel for an artifact, asking for its preview.
    pub fn new(artifact: Artifact) -> (r: Self)
        ensures
            r.artifact_spec() == artifact,
            r.view_spec() == ArtifactView::Preview,
            r.actions_spec() == Seq::<ArtifactAction>::empty(),
    {
        ArtifactPanel { artifact, view: ArtifactView::Preview, actions: Vec::new() }
    }

    /// Asks for the preview or the source.
    pub fn view(self, view: ArtifactView) -> (r: Self)
        ensures
            r.view_spec() == view,
            r.artifact_spec() == self.artifact_spec(),
            r.actions_spec() == self.actions_spec(),
    {
        ArtifactPanel { view, ..self }
    }

    /// Adds application actions under the body.
    pub fn actions(self, actions: Vec<ArtifactAction>) -> (r: Self)
        ensures
            r.actions_spec() == actions@,
            r.artifact_spec() == self.artifact_spec(),
            r.view_spec() == self.view_spec(),
    {
        ArtifactPanel { actions, ..self }
    }

    /// The face actually shown: kinds without a preview pin to the source.
    pub fn shown_view(&self) -> (r: ArtifactView)
        ensures
            r == if self.artifact_spec().kind_spec() == ArtifactKind::Markdown
                || self.artifact_spec().kind_spec() == ArtifactKind::Code {
                self.view_spec()
            } else {
                ArtifactView::Source
            },
    {
        if self.artifact.kind.has_preview() {
            self.view
        } else {
            ArtifactView::Source
        }
    }

    /// Whether the Generating badge shows: while the source is pending or
    /// running.
    pub fn is_generating(&self) -> (r: bool)
        ensures
            r == (self.artifact_spec().source_spec().progress() is Pending
                || self.artifact_spec().source_spec().progress() is Running),
    {
        match self.artifact.source.state() {
            ProgressState::Pending | ProgressState::Running => true,
            _ => false,
        }
    }

    /// The subtitle under the title: the kind, with the language for code.
    pub fn kind_text(&self) -> (r: String)
        ensures
            r@ == match (self.artifact_spec().language_view(), self.artifact_spec().kind_spec()) {
                (Some(language), ArtifactKind::Code) => artifact_kind_label_spec(ArtifactKind::Code) + " · "@ + language,
                _ => artifact_kind_label_spec(self.artifact_spec().kind_spec()),
            },
    {
        let mut s = self.artifact.kind.label().to_owned();
        match (&self.artifact.language, self.artifact.kind) {
            (Some(language), ArtifactKind::Code) => {
                s.append(" · ");
                s.append(language.as_str());
            },
            _ => {},
        }
        s
    }

    /// The name of the version switcher: `Version <n> of <count>`, when the
    /// artifact has versions.
    pub fn version_label(&self) -> (r: Option<String>)
        ensures
            match r {
                Some(s) => match active_index_spec(self.artifact_spec().versions_spec(), self.artifact_spec().active_view()) {
                    Some(k) => s@ == "Version "@ + decimal((k + 1) as nat) + " of "@
                        + decimal(self.artifact_spec().versions_spec().len()),
                    None => false,
                },
                None => active_index_spec(self.artifact_spec().versions_spec(), self.artifact_spec().active_view()) is None,
            },
    {
        let n = self.artifact.versions.len();
        match self.artifact.active_version_index() {
            Some(k) => {
                let mut s = "Version ".to_owned();
                push_decimal(&mut s, (k + 1) as u64);
                s.append(" of ");
                push_decimal(&mut s, n as u64);
                Some(s)
            },
            None => None,
        }
    }

    /// The intent a version step produces: the neighbouring version in
    /// that direction, and none at either end or without versions.
    pub fn step_version(&self, step: VersionStep) -> (r: Option<ArtifactPanelEvent>)
        ensures
            match active_index_spec(self.artifact_spec().versions_spec(), self.artifact_spec().active_view()) {
                Some(k) => {
                    let target = if step == VersionStep::Previous { k - 1 } else { k + 1 };
                    let vs = self.artifact_spec().versions_spec();
                    &&& r is Some <==> 0 <= target < vs.len()
                    &&& r matches Some(ArtifactPanelEvent::VersionSelected { id, version_id }) ==> id@
                        == self.artifact_spec().id_view() && version_id@ == vs[target].id_view()
                    &&& r matches Some(e) ==> e is VersionSelected
                },
                None => r is None,
            },
    {
        let n = self.artifact.versions.len();
        match self.artifact.active_version_index() {
            Some(k) => {
                let target = match step {
                    VersionStep::Previous => if k > 0 { Some(k - 1) } else { None },
                    VersionStep::Next => if k + 1 < n { Some(k + 1) } else { None },
                };
                match target {
                    Some(t) => Some(ArtifactPanelEvent::VersionSelected {
                        id: self.artifact.id.clone(),
                        version_id: self.artifact.versions[t].id.clone(),
                    }),
                    None => None,
                }
            },
            None => None,
        }
    }

    /// The intent the Preview / Source switch produces; the switch is
    /// offered only for kinds with a preview.
    pub fn select_view(&self, index: usize) -> (r: Option<ArtifactPanelEvent>)
        ensures
            r is Some <==> (self.artifact_spec().kind_spec() == ArtifactKind::Markdown
                || self.artifact_spec().kind_spec() == ArtifactKind::Code),
            r matches Some(ArtifactPanelEvent::ViewSelected { id, view }) ==> id@ == self.artifact_spec().id_view()
                && view == if index == 0 { ArtifactView::Preview } else { ArtifactView::Source },
            r matches Some(e) ==> e is ViewSelected,
    {
        if self.artifact.kind.has_preview() {
            Some(ArtifactPanelEvent::ViewSelected { id: self.artifact.id.clone(), view: ArtifactView::from_index(index) })
        } else {
            None
        }
    }

    /// The intent the close control produces.
    pub fn close(&self) -> (r: ArtifactPanelEvent)
        ensures
            r matches ArtifactPanelEvent::Closed { id } && id@ == self.artifact_spec().id_view(),
    {
        ArtifactPanelEvent::Closed { id: self.artifact.id.clone() }
    }

    /// The intent activating the action at `index` produces.
    pub fn activate_action(&self, index: usize) -> (r: ArtifactPanelEvent)
        requires
            index < self.actions_spec().len(),
        ensures
            r matches ArtifactPanelEvent::ActionActivated { id, action_id } && id@ == self.artifact_spec().id_view()
                && action_id@ == self.actions_spec()[index as int].id_view(),
    {
        ArtifactPanelEvent::ActionActivated {
            id: self.artifact.id.clone(),
            action_id: self.actions[index].id.clone(),
        }
    }
}

} // verus!

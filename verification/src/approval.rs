//! Human-in-the-loop approval requests for agent actions: the agent proposes
//! an action, the human approves or rejects it. A request that is still open
//! offers its decisions; a closed request shows how it was closed instead.

use vstd::prelude::*;
use crate::ids::opt_view;
use crate::status::StatusTone;

verus! {

/// Whether the request is still open or how it was closed.
#[derive(Debug, Clone, Copy, PartialEq, Eq, Hash, Structural)]
pub enum ApprovalDecision {
    /// Waiting for the human.
    Pending,
    /// The action was approved.
    Approved,
    /// The action was rejected.
    Rejected,
}

impl Default for ApprovalDecision {
    fn default() -> (r: Self)
        ensures
            r == ApprovalDecision::Pending,
    {
        ApprovalDecision::Pending
    }
}

/// The badge label of a decision.
pub open spec fn decision_label_spec(decision: ApprovalDecision) -> Seq<char> {
    match decision {
        ApprovalDecision::Pending => "Pending"@,
        ApprovalDecision::Approved => "Approved"@,
        ApprovalDecision::Rejected => "Rejected"@,
    }
}

impl ApprovalDecision {
    /// The badge label for a closed request.
    pub fn label(self) -> (r: &'static str)
        ensures
            r@ == decision_label_spec(self),
    {
        match self {
            ApprovalDecision::Pending => "Pending",
            ApprovalDecision::Approved => "Approved",
            ApprovalDecision::Rejected => "Rejected",
        }
    }
}

/// How consequential the proposed action is.
#[derive(Debug, Clone, Copy, PartialEq, Eq, Hash, Structural)]
pub enum ApprovalTone {
    /// Reversible or routine; a warning border says "decide".
    Default,
    /// Irreversible; a danger border and a danger approve button.
    Destructive,
}

impl Default for ApprovalTone {
    fn default() -> (r: Self)
        ensures
            r == ApprovalTone::Default,
    {
        ApprovalTone::Default
    }
}

/// The accent a request's border takes.
#[derive(Debug, Clone, Copy, PartialEq, Eq, Structural)]
pub enum ApprovalAccent {
    /// An open, reversible request: stop and decide.
    Warning,
    /// An open, irreversible request.
    Danger,
    /// A closed request.
    Plain,
}

/// The choices an open request offers.
#[derive(Debug, Clone, Copy, PartialEq, Eq, Structural)]
pub enum ApprovalChoice {
    /// Approve this once.
    Approve,
    /// Reject.
    Reject,
    /// Approve this and every later occurrence.
    AlwaysAllow,
}

/// An interaction emitted by an approval request.
#[derive(Debug, Clone, PartialEq, Eq)]
pub enum ApprovalEvent {
    /// The proposed action was approved.
    Approved {
        /// Stable request identifier.
        id: String,
    },
    /// The proposed action was rejected.
    Rejected {
        /// Stable request identifier.
        id: String,
    },
    /// The action was approved for this and every later occurrence.
    ApprovedAlways {
        /// Stable request identifier.
        id: String,
    },
}

/// A decision request: the question asked, its consequences, the labels of
/// its controls, and how (or whether) it was closed.
#[derive(Debug, Clone)]
pub struct ApprovalCard {
    id: String,
    title: String,
    description: Option<String>,
    approve_label: String,
    reject_label: String,
    decision: ApprovalDecision,
    tone: ApprovalTone,
    allow_always: bool,
    note: Option<String>,
}

impl ApprovalCard {
    /// The stable request identifier.
    pub closed spec fn id_view(self) -> Seq<char> {
        self.id@
    }

    /// The question asked of the human; also the request's accessible name.
    pub closed spec fn title_view(self) -> Seq<char> {
        self.title@
    }

    /// The consequences, scope, or reversibility, if given.
    pub closed spec fn description_view(self) -> Option<Seq<char>> {
        opt_view(self.description)
    }

    /// The approve control's label.
    pub closed spec fn approve_label_view(self) -> Seq<char> {
        self.approve_label@
    }

    /// The reject control's label.
    pub closed spec fn reject_label_view(self) -> Seq<char> {
        self.reject_label@
    }

    /// How the request was closed, or that it is open.
    pub closed spec fn decision_spec(self) -> ApprovalDecision {
        self.decision
    }

    /// How consequential the action is.
    pub closed spec fn tone_spec(self) -> ApprovalTone {
        self.tone
    }

    /// Whether "Always allow" is offered.
    pub closed spec fn allow_always_spec(self) -> bool {
        self.allow_always
    }

    /// The footnote shown once closed, if any.
    pub closed spec fn note_view(self) -> Option<Seq<char>> {
        opt_view(self.note)
    }

    /// Creates an open request with the question being asked of the human.
    pub fn new(id: &str, title: &str) -> (r: Self)
        ensures
            r.id_view() == id@,
            r.title_view() == title@,
            r.description_view() is None,
            r.approve_label_view() == "Approve"@,
            r.reject_label_view() == "Reject"@,
            r.decision_spec() == ApprovalDecision::Pending,
            r.tone_spec() == ApprovalTone::Default,
            !r.allow_always_spec(),
            r.note_view() is None,
    {
        ApprovalCard {
            id: id.to_owned(),
            title: title.to_owned(),
            description: None,
            approve_label: "Approve".to_owned(),
            reject_label: "Reject".to_owned(),
            decision: ApprovalDecision::Pending,
            tone: ApprovalTone::Default,
            allow_always: false,
            note: None,
        }
    }

    /// Closes the request: resolved cards show the decision instead of buttons.
    pub fn decision(self, decision: ApprovalDecision) -> (r: Self)
        ensures
            r.decision_spec() == decision,
            r.id_view() == self.id_view(),
            r.title_view() == self.title_view(),
            r.description_view() == self.description_view(),
            r.approve_label_view() == self.approve_label_view(),
            r.reject_label_view() == self.reject_label_view(),
            r.tone_spec() == self.tone_spec(),
            r.allow_always_spec() == self.allow_always_spec(),
            r.note_view() == self.note_view(),
    {
        ApprovalCard { decision, ..self }
    }

    /// Marks the action as irreversible (danger border and approve button).
    pub fn tone(self, tone: ApprovalTone) -> (r: Self)
        ensures
            r.tone_spec() == tone,
            r.id_view() == self.id_view(),
            r.title_view() == self.title_view(),
            r.description_view() == self.description_view(),
            r.approve_label_view() == self.approve_label_view(),
            r.reject_label_view() == self.reject_label_view(),
            r.decision_spec() == self.decision_spec(),
            r.allow_always_spec() == self.allow_always_spec(),
            r.note_view() == self.note_view(),
    {
        ApprovalCard { tone, ..self }
    }

    /// Offers "Always allow", reported as [`ApprovalEvent::ApprovedAlways`].
    pub fn allow_always(self, allow_always: bool) -> (r: Self)
        ensures
            r.allow_always_spec() == allow_always,
            r.id_view() == self.id_view(),
            r.title_view() == self.title_view(),
            r.description_view() == self.description_view(),
            r.approve_label_view() == self.approve_label_view(),
            r.reject_label_view() == self.reject_label_view(),
            r.decision_spec() == self.decision_spec(),
            r.tone_spec() == self.tone_spec(),
            r.note_view() == self.note_view(),
    {
        ApprovalCard { allow_always, ..self }
    }

    /// Adds a footnote shown once the request is closed ("Approved by Oscar").
    pub fn note(self, note: &str) -> (r: Self)
        ensures
            r.note_view() == Some(note@),
            r.id_view() == self.id_view(),
            r.title_view() == self.title_view(),
            r.description_view() == self.description_view(),
            r.approve_label_view() == self.approve_label_view(),
            r.reject_label_view() == self.reject_label_view(),
            r.decision_spec() == self.decision_spec(),
            r.tone_spec() == self.tone_spec(),
            r.allow_always_spec() == self.allow_always_spec(),
    {
        ApprovalCard { note: Some(note.to_owned()), ..self }
    }

    /// Sets supporting detail: consequences, scope, reversibility.
    pub fn description(self, description: &str) -> (r: Self)
        ensures
            r.description_view() == Some(description@),
            r.id_view() == self.id_view(),
            r.title_view() == self.title_view(),
            r.approve_label_view() == self.approve_label_view(),
            r.reject_label_view() == self.reject_label_view(),
            r.decision_spec() == self.decision_spec(),
            r.tone_spec() == self.tone_spec(),
            r.allow_always_spec() == self.allow_always_spec(),
            r.note_view() == self.note_view(),
    {
        ApprovalCard { description: Some(description.to_owned()), ..self }
    }

    /// Overrides the approve button label (default "Approve").
    pub fn approve_label(self, label: &str) -> (r: Self)
        ensures
            r.approve_label_view() == label@,
            r.id_view() == self.id_view(),
            r.title_view() == self.title_view(),
            r.description_view() == self.description_view(),
            r.reject_label_view() == self.reject_label_view(),
            r.decision_spec() == self.decision_spec(),
            r.tone_spec() == self.tone_spec(),
            r.allow_always_spec() == self.allow_always_spec(),
            r.note_view() == self.note_view(),
    {
        ApprovalCard { approve_label: label.to_owned(), ..self }
    }

    /// Overrides the reject button label (default "Reject").
    pub fn reject_label(self, label: &str) -> (r: Self)
        ensures
            r.reject_label_view() == label@,
            r.id_view() == self.id_view(),
            r.title_view() == self.title_view(),
            r.description_view() == self.description_view(),
            r.approve_label_view() == self.approve_label_view(),
            r.decision_spec() == self.decision_spec(),
            r.tone_spec() == self.tone_spec(),
            r.allow_always_spec() == self.allow_always_spec(),
            r.note_view() == self.note_view(),
    {
        ApprovalCard { reject_label: label.to_owned(), ..self }
    }

    /// Returns the stable request identifier.
    pub fn id(&self) -> (r: &String)
        ensures
            r@ == self.id_view(),
    {
        &self.id
    }

    /// Returns the question; it is also the request's accessible name.
    pub fn title(&self) -> (r: &String)
        ensures
            r@ == self.title_view(),
    {
        &self.title
    }

    /// Returns how the request was closed, or that it is open.
    pub fn current_decision(&self) -> (r: ApprovalDecision)
        ensures
            r == self.decision_spec(),
    {
        self.decision
    }

    /// Whether the request has been closed.
    pub fn is_decided(&self) -> (r: bool)
        ensures
            r == (self.decision_spec() != ApprovalDecision::Pending),
    {
        self.decision != ApprovalDecision::Pending
    }

    /// The border accent: a warning on an open, reversible request, a danger
    /// on an open, irreversible one, and none once closed.
    pub fn accent(&self) -> (r: ApprovalAccent)
        ensures
            r == match (self.decision_spec(), self.tone_spec()) {
                (ApprovalDecision::Pending, ApprovalTone::Default) => ApprovalAccent::Warning,
                (ApprovalDecision::Pending, ApprovalTone::Destructive) => ApprovalAccent::Danger,
                _ => ApprovalAccent::Plain,
            },
    {
        match (self.decision, self.tone) {
            (ApprovalDecision::Pending, ApprovalTone::Default) => ApprovalAccent::Warning,
            (ApprovalDecision::Pending, ApprovalTone::Destructive) => ApprovalAccent::Danger,
            _ => ApprovalAccent::Plain,
        }
    }

    /// The tone of a closed request's badge: success when approved, neutral
    /// otherwise.
    pub fn decision_tone(&self) -> (r: StatusTone)
        ensures
            r == if self.decision_spec() == ApprovalDecision::Approved { StatusTone::Success } else { StatusTone::Neutral },
    {
        match self.decision {
            ApprovalDecision::Approved => StatusTone::Success,
            _ => StatusTone::Neutral,
        }
    }

    /// The footnote shown under a closed request.
    pub fn shown_note(&self) -> (r: Option<&String>)
        ensures
            match r {
                Some(n) => self.decision_spec() != ApprovalDecision::Pending && self.note_view() == Some(n@),
                None => self.decision_spec() == ApprovalDecision::Pending || self.note_view() is None,
            },
    {
        if self.decision == ApprovalDecision::Pending {
            None
        } else {
            self.note.as_ref()
        }
    }

    /// Whether a choice is offered: approve and reject on an open request,
    /// and "Always allow" too when the request allows it.
    pub fn offers(&self, choice: ApprovalChoice) -> (r: bool)
        ensures
            r == (self.decision_spec() == ApprovalDecision::Pending
                && (choice == ApprovalChoice::AlwaysAllow ==> self.allow_always_spec())),
    {
        self.decision == ApprovalDecision::Pending && match choice {
            ApprovalChoice::AlwaysAllow => self.allow_always,
            _ => true,
        }
    }

    /// The intent a choice produces, when the request offers it.
    pub fn decide(&self, choice: ApprovalChoice) -> (r: Option<ApprovalEvent>)
        ensures
            r is Some <==> (self.decision_spec() == ApprovalDecision::Pending
                && (choice == ApprovalChoice::AlwaysAllow ==> self.allow_always_spec())),
            r matches Some(e) ==> match (choice, e) {
                (ApprovalChoice::Approve, ApprovalEvent::Approved { id }) => id@ == self.id_view(),
                (ApprovalChoice::Reject, ApprovalEvent::Rejected { id }) => id@ == self.id_view(),
                (ApprovalChoice::AlwaysAllow, ApprovalEvent::ApprovedAlways { id }) => id@ == self.id_view(),
                _ => false,
            },
    {
        if !self.offers(choice) {
            return None;
        }
        let id = self.id.clone();
        match choice {
            ApprovalChoice::Approve => Some(ApprovalEvent::Approved { id }),
            ApprovalChoice::Reject => Some(ApprovalEvent::Rejected { id }),
            ApprovalChoice::AlwaysAllow => Some(ApprovalEvent::ApprovedAlways { id }),
        }
    }
}

} // verus!

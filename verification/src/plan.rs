//! Plan cards: an agent's proposed steps as one reviewable card. A plan
//! lists ordered steps with per-step statuses, carries an overall state,
//! and, while still proposed, offers Approve / Reject (and optionally Edit).
//! Decisions and step activations are reported as [`PlanEvent`]s keyed by
//! stable IDs; the application owns execution and feeds statuses back.

use vstd::prelude::*;
use crate::status::StatusTone;
use crate::text::{ascii_lower_seq, decimal, push_decimal};

verus! {

broadcast use vstd::seq_lib::group_seq_properties;

/// Where one step stands.
#[derive(Debug, Clone, Copy, PartialEq, Eq, Hash, Structural)]
pub enum PlanStepStatus {
    /// Not started.
    Pending,
    /// In progress.
    Running,
    /// Finished successfully.
    Done,
    /// Stopped with an error.
    Failed,
    /// Deliberately not executed.
    Skipped,
}

impl Default for PlanStepStatus {
    fn default() -> (r: Self)
        ensures
            r == PlanStepStatus::Pending,
    {
        PlanStepStatus::Pending
    }
}

/// The short status word read to assistive technology.
pub open spec fn step_status_word(status: PlanStepStatus) -> Seq<char> {
    match status {
        PlanStepStatus::Pending => "pending"@,
        PlanStepStatus::Running => "running"@,
        PlanStepStatus::Done => "done"@,
        PlanStepStatus::Failed => "failed"@,
        PlanStepStatus::Skipped => "skipped"@,
    }
}

impl PlanStepStatus {
    /// The short status word read to assistive technology.
    pub fn label(self) -> (r: &'static str)
        ensures
            r@ == step_status_word(self),
    {
        match self {
            PlanStepStatus::Pending => "pending",
            PlanStepStatus::Running => "running",
            PlanStepStatus::Done => "done",
            PlanStepStatus::Failed => "failed",
            PlanStepStatus::Skipped => "skipped",
        }
    }
}

/// One ordered step of a plan.
#[derive(Debug, Clone)]
pub struct PlanStep {
    id: String,
    title: String,
    detail: Option<String>,
    status: PlanStepStatus,
}

impl PlanStep {
    /// The stable step identifier.
    pub closed spec fn id_view(self) -> Seq<char> {
        self.id@
    }

    /// The step title.
    pub closed spec fn title_view(self) -> Seq<char> {
        self.title@
    }

    /// The supporting line, if any.
    pub closed spec fn detail_view(self) -> Option<Seq<char>> {
        match self.detail {
            Some(d) => Some(d@),
            None => None,
        }
    }

    /// The status.
    pub closed spec fn status_spec(self) -> PlanStepStatus {
        self.status
    }

    /// Creates a pending step with a stable identifier.
    pub fn new(id: &str, title: &str) -> (r: Self)
        ensures
            r.id_view() == id@,
            r.title_view() == title@,
            r.detail_view() is None,
            r.status_spec() == PlanStepStatus::Pending,
    {
        PlanStep { id: id.to_owned(), title: title.to_owned(), detail: None, status: PlanStepStatus::Pending }
    }

    /// Adds a supporting line (what the step touches, why it is needed).
    pub fn detail(self, detail: &str) -> (r: Self)
        ensures
            r.detail_view() == Some(detail@),
            r.id_view() == self.id_view(),
            r.title_view() == self.title_view(),
            r.status_spec() == self.status_spec(),
    {
        PlanStep { detail: Some(detail.to_owned()), ..self }
    }

    /// Sets the status.
    pub fn status(self, status: PlanStepStatus) -> (r: Self)
        ensures
            r.status_spec() == status,
            r.id_view() == self.id_view(),
            r.title_view() == self.title_view(),
            r.detail_view() == self.detail_view(),
    {
        PlanStep { status, ..self }
    }

    /// Returns the stable step identifier.
    pub fn id(&self) -> (r: &String)
        ensures
            r@ == self.id_view(),
    {
        &self.id
    }

    /// Returns the step title.
    pub fn title(&self) -> (r: &String)
        ensures
            r@ == self.title_view(),
    {
        &self.title
    }

    /// Returns the supporting line, if any.
    pub fn detail_text(&self) -> (r: Option<&String>)
        ensures
            match r {
                Some(d) => self.detail_view() == Some(d@),
                None => self.detail_view() is None,
            },
    {
        self.detail.as_ref()
    }

    /// Returns the status.
    pub fn step_status(&self) -> (r: PlanStepStatus)
        ensures
            r == self.status_spec(),
    {
        self.status
    }
}

/// The plan's overall lifecycle.
#[derive(Debug, Clone, Copy, PartialEq, Eq, Hash, Structural)]
pub enum PlanState {
    /// Waiting for a decision; Approve / Reject are offered.
    Proposed,
    /// Accepted, not yet started.
    Approved,
    /// Declined.
    Rejected,
    /// Steps are executing.
    Running,
    /// Every step finished.
    Completed,
    /// Execution stopped on a failure.
    Failed,
}

impl Default for PlanState {
    fn default() -> (r: Self)
        ensures
            r == PlanState::Proposed,
    {
        PlanState::Proposed
    }
}

/// The badge label of a plan state.
pub open spec fn plan_state_label_spec(state: PlanState) -> Seq<char> {
    match state {
        PlanState::Proposed => "Proposed"@,
        PlanState::Approved => "Approved"@,
        PlanState::Rejected => "Rejected"@,
        PlanState::Running => "Running"@,
        PlanState::Completed => "Completed"@,
        PlanState::Failed => "Failed"@,
    }
}

/// The badge tone of a plan state: in-flight states inform, good outcomes
/// succeed, a rejection is neutral, and a failure is a danger.
pub open spec fn plan_state_tone_spec(state: PlanState) -> StatusTone {
    match state {
        PlanState::Proposed | PlanState::Running => StatusTone::Info,
        PlanState::Approved | PlanState::Completed => StatusTone::Success,
        PlanState::Rejected => StatusTone::Neutral,
        PlanState::Failed => StatusTone::Danger,
    }
}

impl PlanState {
    /// The badge label.
    pub fn label(self) -> (r: &'static str)
        ensures
            r@ == plan_state_label_spec(self),
    {
        match self {
            PlanState::Proposed => "Proposed",
            PlanState::Approved => "Approved",
            PlanState::Rejected => "Rejected",
            PlanState::Running => "Running",
            PlanState::Completed => "Completed",
            PlanState::Failed => "Failed",
        }
    }

    /// The badge tone.
    pub fn tone(self) -> (r: StatusTone)
        ensures
            r == plan_state_tone_spec(self),
    {
        match self {
            PlanState::Proposed | PlanState::Running => StatusTone::Info,
            PlanState::Approved | PlanState::Completed => StatusTone::Success,
            PlanState::Rejected => StatusTone::Neutral,
            PlanState::Failed => StatusTone::Danger,
        }
    }

    /// The badge label in lower case, as read inside a sentence.
    pub fn lower_label(self) -> (r: &'static str)
        ensures
            r@ == ascii_lower_seq(plan_state_label_spec(self)),
    {
        proof {
            reveal_strlit("Proposed");
            reveal_strlit("proposed");
            reveal_strlit("Approved");
            reveal_strlit("approved");
            reveal_strlit("Rejected");
            reveal_strlit("rejected");
            reveal_strlit("Running");
            reveal_strlit("running");
            reveal_strlit("Completed");
            reveal_strlit("completed");
            reveal_strlit("Failed");
            reveal_strlit("failed");
        }
        let r = match self {
            PlanState::Proposed => "proposed",
            PlanState::Approved => "approved",
            PlanState::Rejected => "rejected",
            PlanState::Running => "running",
            PlanState::Completed => "completed",
            PlanState::Failed => "failed",
        };
        assert(r@ =~= ascii_lower_seq(plan_state_label_spec(self)));
        r
    }
}

/// An interaction emitted by a plan card.
#[derive(Debug, Clone, PartialEq, Eq)]
pub enum PlanEvent {
    /// The plan was approved.
    Approved {
        /// Stable plan identifier.
        id: String,
    },
    /// The plan was rejected.
    Rejected {
        /// Stable plan identifier.
        id: String,
    },
    /// The user asked to change the plan before deciding.
    EditRequested {
        /// Stable plan identifier.
        id: String,
    },
    /// The user activated one step (to inspect or jump to it).
    StepActivated {
        /// Stable plan identifier.
        id: String,
        /// Stable step identifier.
        step_id: String,
    },
}

/// The decision controls a proposed plan offers.
#[derive(Debug, Clone, Copy, PartialEq, Eq, Structural)]
pub enum PlanDecision {
    /// Approve the plan.
    Approve,
    /// Reject the plan.
    Reject,
    /// Ask to edit the plan before deciding.
    Edit,
}

/// How many steps have the given status.
pub open spec fn count_status(steps: Seq<PlanStep>, status: PlanStepStatus) -> nat
    decreases steps.len(),
{
    if steps.len() == 0 {
        0
    } else {
        count_status(steps.drop_last(), status) + if steps.last().status_spec() == status { 1nat } else { 0nat }
    }
}

/// Counting steps in a status is counting the steps that have it: the count
/// is the number of steps kept by filtering on exactly that status, so a
/// step in any other status (a failed or skipped one, say) never adds to
/// the count of finished steps.
pub proof fn lemma_count_is_steps_with_status(steps: Seq<PlanStep>, status: PlanStepStatus)
    ensures
        count_status(steps, status) == steps.filter(|x: PlanStep| x.status_spec() == status).len(),
        forall|x: PlanStep| x.status_spec() != status ==> #[trigger] count_status(steps.push(x), status)
            == count_status(steps, status),
        forall|x: PlanStep| x.status_spec() == status ==> #[trigger] count_status(steps.push(x), status)
            == count_status(steps, status) + 1,
        count_status(steps, status) <= steps.len(),
    decreases steps.len(),
{
    reveal(Seq::filter);
    if steps.len() > 0 {
        lemma_count_is_steps_with_status(steps.drop_last(), status);
    }
    assert forall|x: PlanStep| #[trigger] steps.push(x).drop_last() == steps by {
        assert(steps.push(x).drop_last() =~= steps);
    }
}

/// Each step is counted under exactly one status: the counts of the five
/// statuses add up to the number of steps.
pub proof fn lemma_status_counts_partition(steps: Seq<PlanStep>)
    ensures
        count_status(steps, PlanStepStatus::Pending) + count_status(steps, PlanStepStatus::Running)
            + count_status(steps, PlanStepStatus::Done) + count_status(steps, PlanStepStatus::Failed)
            + count_status(steps, PlanStepStatus::Skipped) == steps.len(),
    decreases steps.len(),
{
    if steps.len() > 0 {
        lemma_status_counts_partition(steps.drop_last());
    }
}

/// A proposed plan with ordered steps, a state, and decision controls.
#[derive(Debug, Clone)]
pub struct PlanCard {
    id: String,
    title: String,
    description: Option<String>,
    steps: Vec<PlanStep>,
    state: PlanState,
    note: Option<String>,
    editable: bool,
}

impl PlanCard {
    /// The stable plan identifier.
    pub closed spec fn id_view(self) -> Seq<char> {
        self.id@
    }

    /// The plan title.
    pub closed spec fn title_view(self) -> Seq<char> {
        self.title@
    }

    /// The supporting detail under the title, if any.
    pub closed spec fn description_view(self) -> Option<Seq<char>> {
        match self.description {
            Some(d) => Some(d@),
            None => None,
        }
    }

    /// The ordered steps.
    pub closed spec fn steps_spec(self) -> Seq<PlanStep> {
        self.steps@
    }

    /// The lifecycle state.
    pub closed spec fn state_spec(self) -> PlanState {
        self.state
    }

    /// The footnote shown once decided, if any.
    pub closed spec fn note_view(self) -> Option<Seq<char>> {
        match self.note {
            Some(d) => Some(d@),
            None => None,
        }
    }

    /// Whether an Edit control is offered while proposed.
    pub closed spec fn editable_spec(self) -> bool {
        self.editable
    }

    /// Creates a proposed plan with no steps.
    pub fn new(id: &str, title: &str) -> (r: Self)
        ensures
            r.id_view() == id@,
            r.title_view() == title@,
            r.description_view() is None,
            r.steps_spec() == Seq::<PlanStep>::empty(),
            r.state_spec() == PlanState::Proposed,
            r.note_view() is None,
            !r.editable_spec(),
    {
        PlanCard {
            id: id.to_owned(),
            title: title.to_owned(),
            description: None,
            steps: Vec::new(),
            state: PlanState::Proposed,
            note: None,
            editable: false,
        }
    }

    /// Sets supporting detail under the title.
    pub fn description(self, description: &str) -> (r: Self)
        ensures
            r.description_view() == Some(description@),
            r.id_view() == self.id_view(),
            r.title_view() == self.title_view(),
            r.steps_spec() == self.steps_spec(),
            r.state_spec() == self.state_spec(),
            r.note_view() == self.note_view(),
            r.editable_spec() == self.editable_spec(),
    {
        PlanCard { description: Some(description.to_owned()), ..self }
    }

    /// Sets the steps, in order.
    pub fn steps(self, steps: Vec<PlanStep>) -> (r: Self)
        ensures
            r.steps_spec() == steps@,
            r.id_view() == self.id_view(),
            r.title_view() == self.title_view(),
            r.description_view() == self.description_view(),
            r.state_spec() == self.state_spec(),
            r.note_view() == self.note_view(),
            r.editable_spec() == self.editable_spec(),
    {
        PlanCard { steps, ..self }
    }

    /// Sets the lifecycle state.
    pub fn state(self, state: PlanState) -> (r: Self)
        ensures
            r.state_spec() == state,
            r.id_view() == self.id_view(),
            r.title_view() == self.title_view(),
            r.description_view() == self.description_view(),
            r.steps_spec() == self.steps_spec(),
            r.note_view() == self.note_view(),
            r.editable_spec() == self.editable_spec(),
    {
        PlanCard { state, ..self }
    }

    /// Adds a footnote shown once the plan is decided ("Approved by Oscar").
    pub fn note(self, note: &str) -> (r: Self)
        ensures
            r.note_view() == Some(note@),
            r.id_view() == self.id_view(),
            r.title_view() == self.title_view(),
            r.description_view() == self.description_view(),
            r.steps_spec() == self.steps_spec(),
            r.state_spec() == self.state_spec(),
            r.editable_spec() == self.editable_spec(),
    {
        PlanCard { note: Some(note.to_owned()), ..self }
    }

    /// Offers an Edit control while the plan is proposed.
    pub fn editable(self, editable: bool) -> (r: Self)
        ensures
            r.editable_spec() == editable,
            r.id_view() == self.id_view(),
            r.title_view() == self.title_view(),
            r.description_view() == self.description_view(),
            r.steps_spec() == self.steps_spec(),
            r.state_spec() == self.state_spec(),
            r.note_view() == self.note_view(),
    {
        PlanCard { editable, ..self }
    }

    /// Returns the ordered steps.
    pub fn step_list(&self) -> (r: &Vec<PlanStep>)
        ensures
            r@ == self.steps_spec(),
    {
        &self.steps
    }

    /// Counts finished steps.
    pub fn done_count(&self) -> (r: usize)
        ensures
            r == count_status(self.steps_spec(), PlanStepStatus::Done),
            r <= self.steps_spec().len(),
    {
        let mut n: usize = 0;
        let mut i: usize = 0;
        while i < self.steps.len()
            invariant
                i <= self.steps@.len(),
                n <= i,
                n == count_status(self.steps@.take(i as int), PlanStepStatus::Done),
            decreases self.steps@.len() - i,
        {
            assert(self.steps@.take(i + 1).drop_last() =~= self.steps@.take(i as int));
            if self.steps[i].status == PlanStepStatus::Done {
                n = n + 1;
            }
            i = i + 1;
        }
        assert(self.steps@.take(i as int) =~= self.steps@);
        n
    }

    /// The accessible name of the card: `Plan: <title>, <done> of <total>
    /// steps done, <state>`, the state in lower case.
    pub fn accessibility_label(&self) -> (r: String)
        ensures
            r@ == "Plan: "@ + self.title_view() + ", "@ + decimal(count_status(self.steps_spec(), PlanStepStatus::Done))
                + " of "@ + decimal(self.steps_spec().len()) + " steps done, "@
                + ascii_lower_seq(plan_state_label_spec(self.state_spec())),
    {
        let done = self.done_count();
        let mut s = "Plan: ".to_owned();
        s.append(self.title.as_str());
        s.append(", ");
        push_decimal(&mut s, done as u64);
        s.append(" of ");
        push_decimal(&mut s, self.steps.len() as u64);
        s.append(" steps done, ");
        s.append(self.state.lower_label());
        s
    }

    /// The progress readout beside the badge: `<done> / <total>`.
    pub fn progress_text(&self) -> (r: String)
        ensures
            r@ == decimal(count_status(self.steps_spec(), PlanStepStatus::Done)) + " / "@
                + decimal(self.steps_spec().len()),
    {
        let done = self.done_count();
        let mut s = String::new();
        push_decimal(&mut s, done as u64);
        s.append(" / ");
        push_decimal(&mut s, self.steps.len() as u64);
        s
    }

    /// The accessible name of the step at `index`: `Step <n>: <title>,
    /// <status>`, counting from one.
    pub fn step_label(&self, index: usize) -> (r: String)
        requires
            index < self.steps_spec().len(),
        ensures
            r@ == "Step "@ + decimal(index as nat + 1) + ": "@ + self.steps_spec()[index as int].title_view() + ", "@
                + step_status_word(self.steps_spec()[index as int].status_spec()),
    {
        let step = &self.steps[index];
        let n = self.steps.len();
        assert(index < n);
        let mut s = "Step ".to_owned();
        push_decimal(&mut s, (index + 1) as u64);
        s.append(": ");
        s.append(step.title.as_str());
        s.append(", ");
        s.append(step.status.label());
        s
    }

    /// Whether the decision controls are offered: only while proposed.
    pub fn offers_decision(&self) -> (r: bool)
        ensures
            r == (self.state_spec() == PlanState::Proposed),
    {
        self.state == PlanState::Proposed
    }

    /// Whether the decided note is shown in place of the controls.
    pub fn shown_note(&self) -> (r: Option<&String>)
        ensures
            match r {
                Some(n) => self.state_spec() != PlanState::Proposed && self.note_view() == Some(n@),
                None => self.state_spec() == PlanState::Proposed || self.note_view() is None,
            },
    {
        if self.state == PlanState::Proposed {
            None
        } else {
            self.note.as_ref()
        }
    }

    /// The intent a decision control produces. Controls are offered only
    /// while the plan is proposed, and Edit only on an editable plan.
    pub fn decide(&self, decision: PlanDecision) -> (r: Option<PlanEvent>)
        ensures
            r is Some <==> (self.state_spec() == PlanState::Proposed
                && (decision == PlanDecision::Edit ==> self.editable_spec())),
            r matches Some(e) ==> match (decision, e) {
                (PlanDecision::Approve, PlanEvent::Approved { id }) => id@ == self.id_view(),
                (PlanDecision::Reject, PlanEvent::Rejected { id }) => id@ == self.id_view(),
                (PlanDecision::Edit, PlanEvent::EditRequested { id }) => id@ == self.id_view(),
                _ => false,
            },
    {
        if self.state != PlanState::Proposed {
            return None;
        }
        match decision {
            PlanDecision::Approve => Some(PlanEvent::Approved { id: self.id.clone() }),
            PlanDecision::Reject => Some(PlanEvent::Rejected { id: self.id.clone() }),
            PlanDecision::Edit => if self.editable {
                Some(PlanEvent::EditRequested { id: self.id.clone() })
            } else {
                None
            },
        }
    }

    /// The intent activating the step at `index` produces.
    pub fn activate_step(&self, index: usize) -> (r: PlanEvent)
        requires
            index < self.steps_spec().len(),
        ensures
            r matches PlanEvent::StepActivated { id, step_id } && id@ == self.id_view()
                && step_id@ == self.steps_spec()[index as int].id_view(),
    {
        PlanEvent::StepActivated { id: self.id.clone(), step_id: self.steps[index].id.clone() }
    }
}

} // verus!

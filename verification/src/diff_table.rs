//! Controlled before/after proposals for tabular data: the proposal
//! snapshot and its validation, the selected proposal, decision intents,
//! and the readable text that carries each change and decision.

use vstd::prelude::*;
use crate::ids::{views, ids_unique, opt_view};
use crate::stream::ProgressState;
use crate::columns::{
    RecordColumn, RecordSortDirection, column_ids, columns_unique_after, has_sortable_column, kept_sort,
    sort_view, sortable_column,
};
use crate::text::{decimal, lemma_length_prefixed_injective};
use vstd::string::StringSliceAdditionalSpecFns;

verus! {

broadcast use vstd::seq_lib::group_seq_properties;

/// The semantic relationship between a proposed value and its prior value.
#[derive(Debug, Clone, Copy, PartialEq, Eq, Structural)]
pub enum DiffChangeKind {
    /// A value exists only in the proposed snapshot.
    Added,
    /// A value exists only in the prior snapshot.
    Removed,
    /// Both snapshots contain different values.
    Changed,
    /// Both snapshots contain the same value.
    Unchanged,
}

/// An application-owned proposal decision displayed by a diff row.
#[derive(Debug, Clone, Copy, PartialEq, Eq, Structural)]
pub enum DiffProposalState {
    /// The proposal has not been decided.
    Pending,
    /// The application accepted the proposal.
    Accepted,
    /// The application rejected the proposal.
    Rejected,
}

/// A decision intent emitted for an identified proposal.
#[derive(Debug, Clone, Copy, PartialEq, Eq, Structural)]
pub enum DiffProposalAction {
    /// Request acceptance of the proposal.
    Accept,
    /// Request rejection of the proposal.
    Reject,
}

/// The tone a status cell is drawn in.
#[derive(Debug, Clone, Copy, PartialEq, Eq, Structural)]
pub enum RecordStatusTone {
    /// A good outcome.
    Positive,
    /// A loss or refusal.
    Critical,
    /// Something that needs attention.
    Caution,
    /// Nothing to call out.
    Neutral,
}

/// One immutable before/after value associated with a stable column ID.
#[derive(Debug, Clone)]
pub struct DiffCell {
    column_id: String,
    before: Option<String>,
    after: Option<String>,
    change_kind: DiffChangeKind,
}

impl DiffCell {
    /// The stable column identifier.
    pub closed spec fn column_id_view(self) -> Seq<char> {
        self.column_id@
    }

    /// The prior value, when one exists.
    pub closed spec fn before_view(self) -> Option<Seq<char>> {
        opt_view(self.before)
    }

    /// The proposed value, when one exists.
    pub closed spec fn after_view(self) -> Option<Seq<char>> {
        opt_view(self.after)
    }

    /// The relationship between the two snapshots.
    pub closed spec fn kind_spec(self) -> DiffChangeKind {
        self.change_kind
    }

    /// Creates a value that exists only in the proposed snapshot.
    pub fn added(column_id: &str, after: &str) -> (r: Self)
        ensures
            r.column_id_view() == column_id@,
            r.before_view() is None,
            r.after_view() == Some(after@),
            r.kind_spec() == DiffChangeKind::Added,
    {
        DiffCell { column_id: column_id.to_owned(), before: None, after: Some(after.to_owned()), change_kind: DiffChangeKind::Added }
    }

    /// Creates a value that exists only in the prior snapshot.
    pub fn removed(column_id: &str, before: &str) -> (r: Self)
        ensures
            r.column_id_view() == column_id@,
            r.before_view() == Some(before@),
            r.after_view() is None,
            r.kind_spec() == DiffChangeKind::Removed,
    {
        DiffCell { column_id: column_id.to_owned(), before: Some(before.to_owned()), after: None, change_kind: DiffChangeKind::Removed }
    }

    /// Creates a value that differs between the prior and proposed snapshots.
    pub fn changed(column_id: &str, before: &str, after: &str) -> (r: Self)
        ensures
            r.column_id_view() == column_id@,
            r.before_view() == Some(before@),
            r.after_view() == Some(after@),
            r.kind_spec() == DiffChangeKind::Changed,
    {
        DiffCell {
            column_id: column_id.to_owned(),
            before: Some(before.to_owned()),
            after: Some(after.to_owned()),
            change_kind: DiffChangeKind::Changed,
        }
    }

    /// Creates a value that is identical in both snapshots.
    pub fn unchanged(column_id: &str, value: &str) -> (r: Self)
        ensures
            r.column_id_view() == column_id@,
            r.before_view() == Some(value@),
            r.after_view() == Some(value@),
            r.kind_spec() == DiffChangeKind::Unchanged,
    {
        DiffCell {
            column_id: column_id.to_owned(),
            before: Some(value.to_owned()),
            after: Some(value.to_owned()),
            change_kind: DiffChangeKind::Unchanged,
        }
    }

    /// Returns the stable column ID associated with this value.
    pub fn column_id(&self) -> (r: &String)
        ensures
            r@ == self.column_id_view(),
    {
        &self.column_id
    }

    /// Returns the prior readable value, when one exists.
    pub fn before(&self) -> (r: Option<&String>)
        ensures
            match r {
                Some(s) => self.before_view() == Some(s@),
                None => self.before_view() is None,
            },
    {
        self.before.as_ref()
    }

    /// Returns the proposed readable value, when one exists.
    pub fn after(&self) -> (r: Option<&String>)
        ensures
            match r {
                Some(s) => self.after_view() == Some(s@),
                None => self.after_view() is None,
            },
    {
        self.after.as_ref()
    }

    /// Returns the semantic relationship between the two snapshots.
    pub fn change_kind(&self) -> (r: DiffChangeKind)
        ensures
            r == self.kind_spec(),
    {
        self.change_kind
    }
}

/// The identities of a cell snapshot, in order.
pub open spec fn cell_ids(cells: Seq<DiffCell>) -> Seq<Seq<char>> {
    cells.map_values(|c: DiffCell| c.column_id_view())
}

/// One immutable proposal row keyed by a stable application ID.
#[derive(Debug, Clone)]
pub struct DiffRow {
    id: String,
    label: String,
    change_kind: DiffChangeKind,
    cells: Vec<DiffCell>,
    proposal_state: DiffProposalState,
    disabled: bool,
}

impl DiffRow {
    /// The stable proposal identifier.
    pub closed spec fn id_view(self) -> Seq<char> {
        self.id@
    }

    /// The accessible row label.
    pub closed spec fn label_view(self) -> Seq<char> {
        self.label@
    }

    /// The row-level change kind.
    pub closed spec fn kind_spec(self) -> DiffChangeKind {
        self.change_kind
    }

    /// The before/after cells, in consumer order.
    pub closed spec fn cells_spec(self) -> Seq<DiffCell> {
        self.cells@
    }

    /// The application-owned decision.
    pub closed spec fn state_spec(self) -> DiffProposalState {
        self.proposal_state
    }

    /// Whether the proposal rejects selection and action intent.
    pub closed spec fn disabled_spec(self) -> bool {
        self.disabled
    }

    /// Creates an empty, pending proposal row.
    pub fn new(id: &str, label: &str, change_kind: DiffChangeKind) -> (r: Self)
        ensures
            r.id_view() == id@,
            r.label_view() == label@,
            r.kind_spec() == change_kind,
            r.cells_spec() == Seq::<DiffCell>::empty(),
            r.state_spec() == DiffProposalState::Pending,
            !r.disabled_spec(),
    {
        DiffRow {
            id: id.to_owned(),
            label: label.to_owned(),
            change_kind,
            cells: Vec::new(),
            proposal_state: DiffProposalState::Pending,
            disabled: false,
        }
    }

    /// Replaces the immutable before/after cell snapshot.
    pub fn cells(self, cells: Vec<DiffCell>) -> (r: Self)
        ensures
            r.cells_spec() == cells@,
            r.id_view() == self.id_view(),
            r.label_view() == self.label_view(),
            r.kind_spec() == self.kind_spec(),
            r.state_spec() == self.state_spec(),
            r.disabled_spec() == self.disabled_spec(),
    {
        DiffRow { cells, ..self }
    }

    /// Sets the application-owned proposal decision shown by this row.
    pub fn state(self, proposal_state: DiffProposalState) -> (r: Self)
        ensures
            r.state_spec() == proposal_state,
            r.id_view() == self.id_view(),
            r.label_view() == self.label_view(),
            r.kind_spec() == self.kind_spec(),
            r.cells_spec() == self.cells_spec(),
            r.disabled_spec() == self.disabled_spec(),
    {
        DiffRow { proposal_state, ..self }
    }

    /// Sets whether the proposal rejects selection and action intent.
    pub fn disabled(self, disabled: bool) -> (r: Self)
        ensures
            r.disabled_spec() == disabled,
            r.id_view() == self.id_view(),
            r.label_view() == self.label_view(),
            r.kind_spec() == self.kind_spec(),
            r.cells_spec() == self.cells_spec(),
            r.state_spec() == self.state_spec(),
    {
        DiffRow { disabled, ..self }
    }

    /// Returns the stable application proposal ID.
    pub fn id(&self) -> (r: &String)
        ensures
            r@ == self.id_view(),
    {
        &self.id
    }

    /// Returns the accessible row label.
    pub fn label(&self) -> (r: &String)
        ensures
            r@ == self.label_view(),
    {
        &self.label
    }

    /// Returns the row-level semantic change kind.
    pub fn change_kind(&self) -> (r: DiffChangeKind)
        ensures
            r == self.kind_spec(),
    {
        self.change_kind
    }

    /// Returns the first value associated with `column_id`, if present.
    pub fn cell(&self, column_id: &str) -> (r: Option<&DiffCell>)
        ensures
            match r {
                Some(c) => exists|k: int|
                    0 <= k < self.cells_spec().len() && self.cells_spec()[k] == *c
                        && c.column_id_view() == column_id@
                        && forall|j: int| 0 <= j < k ==> self.cells_spec()[j].column_id_view() != column_id@,
                None => !cell_ids(self.cells_spec()).contains(column_id@),
            },
    {
        let key = column_id.to_owned();
        let mut i: usize = 0;
        while i < self.cells.len()
            invariant
                i <= self.cells@.len(),
                key@ == column_id@,
                forall|j: int| 0 <= j < i ==> self.cells@[j].column_id_view() != column_id@,
            decreases self.cells@.len() - i,
        {
            if self.cells[i].column_id == key {
                assert(self.cells_spec()[i as int] == self.cells@[i as int]);
                return Some(&self.cells[i]);
            }
            i = i + 1;
        }
        assert(!cell_ids(self.cells_spec()).contains(column_id@)) by {
            if cell_ids(self.cells_spec()).contains(column_id@) {
                let k = choose|k: int| 0 <= k < self.cells@.len() && cell_ids(self.cells_spec())[k] == column_id@;
                assert(self.cells@[k].column_id_view() == column_id@);
            }
        }
        None
    }

    /// Returns the immutable cell snapshot in consumer order.
    pub fn all_cells(&self) -> (r: &Vec<DiffCell>)
        ensures
            r@ == self.cells_spec(),
    {
        &self.cells
    }

    /// Returns the application-owned proposal decision.
    pub fn proposal_state(&self) -> (r: DiffProposalState)
        ensures
            r == self.state_spec(),
    {
        self.proposal_state
    }

    /// Returns whether the proposal rejects selection and action intent.
    pub fn is_disabled(&self) -> (r: bool)
        ensures
            r == self.disabled_spec(),
    {
        self.disabled
    }
}

/// The identities of a proposal snapshot, in order.
pub open spec fn row_ids(rows: Seq<DiffRow>) -> Seq<Seq<char>> {
    rows.map_values(|r: DiffRow| r.id_view())
}

/// A proposal snapshot is valid when no proposal identity occurs twice and
/// no column identity occurs twice within one proposal.
pub open spec fn rows_valid(rows: Seq<DiffRow>) -> bool {
    &&& row_ids(rows).no_duplicates()
    &&& forall|k: int| 0 <= k < rows.len() ==> #[trigger] cell_ids(rows[k].cells_spec()).no_duplicates()
}

/// Whether `id` names a proposal that accepts selection and decisions.
pub open spec fn enabled_row(rows: Seq<DiffRow>, id: Seq<char>) -> bool {
    exists|k: int| 0 <= k < rows.len() && rows[k].id_view() == id && !rows[k].disabled_spec()
}

fn cell_id_list(cells: &Vec<DiffCell>) -> (r: Vec<String>)
    ensures
        views(r@) == cell_ids(cells@),
{
    let mut r: Vec<String> = Vec::new();
    let mut i: usize = 0;
    while i < cells.len()
        invariant
            i <= cells@.len(),
            r@.len() == i,
            views(r@) == cell_ids(cells@).take(i as int),
        decreases cells@.len() - i,
    {
        r.push(cells[i].column_id.clone());
        assert(views(r@) =~= cell_ids(cells@).take(i + 1));
        i = i + 1;
    }
    assert(cell_ids(cells@).take(i as int) =~= cell_ids(cells@));
    r
}

/// Whether a proposal snapshot is valid: unique proposal identities, and
/// unique column identities within each proposal.
pub fn diff_rows_have_unique_ids(rows: &Vec<DiffRow>) -> (r: bool)
    ensures
        r == rows_valid(rows@),
{
    let mut ids: Vec<String> = Vec::new();
    let mut i: usize = 0;
    while i < rows.len()
        invariant
            i <= rows@.len(),
            ids@.len() == i,
            views(ids@) == row_ids(rows@).take(i as int),
            forall|k: int| 0 <= k < i ==> #[trigger] cell_ids(rows@[k].cells_spec()).no_duplicates(),
        decreases rows@.len() - i,
    {
        let cells = cell_id_list(&rows[i].cells);
        if !ids_unique(&cells) {
            assert(!cell_ids(rows@[i as int].cells_spec()).no_duplicates());
            return false;
        }
        ids.push(rows[i].id.clone());
        assert(views(ids@) =~= row_ids(rows@).take(i + 1));
        i = i + 1;
    }
    assert(row_ids(rows@).take(i as int) =~= row_ids(rows@));
    ids_unique(&ids)
}

/// Typed application intent emitted by a diff table.
#[derive(Debug, Clone, PartialEq, Eq)]
pub enum DiffTableEvent {
    /// Requests that the application select the identified proposal.
    SelectionRequested {
        /// Stable diff-table ID.
        id: String,
        /// Stable application proposal ID.
        row_id: String,
    },
    /// Requests that the application reveal or inspect a proposal.
    ReviewRequested {
        /// Stable diff-table ID.
        id: String,
        /// Stable application proposal ID.
        row_id: String,
    },
    /// Requests a controlled decision for an identified proposal.
    DecisionRequested {
        /// Stable diff-table ID.
        id: String,
        /// Stable application proposal ID.
        row_id: String,
        /// Requested accept or reject intent.
        action: DiffProposalAction,
    },
}

/// The word for a change kind.
pub open spec fn change_kind_label_spec(kind: DiffChangeKind) -> Seq<char> {
    match kind {
        DiffChangeKind::Added => "Added"@,
        DiffChangeKind::Removed => "Removed"@,
        DiffChangeKind::Changed => "Changed"@,
        DiffChangeKind::Unchanged => "Unchanged"@,
    }
}

/// The words for a proposal decision.
pub open spec fn proposal_state_label_spec(state: DiffProposalState) -> Seq<char> {
    match state {
        DiffProposalState::Pending => "Pending decision"@,
        DiffProposalState::Accepted => "Accepted"@,
        DiffProposalState::Rejected => "Rejected"@,
    }
}

/// The tone a proposal decision is drawn in.
pub open spec fn proposal_state_tone_spec(state: DiffProposalState) -> RecordStatusTone {
    match state {
        DiffProposalState::Pending => RecordStatusTone::Caution,
        DiffProposalState::Accepted => RecordStatusTone::Positive,
        DiffProposalState::Rejected => RecordStatusTone::Critical,
    }
}

/// The tone a cell's change is drawn in.
pub open spec fn change_tone_spec(kind: DiffChangeKind) -> RecordStatusTone {
    match kind {
        DiffChangeKind::Added => RecordStatusTone::Positive,
        DiffChangeKind::Removed => RecordStatusTone::Critical,
        DiffChangeKind::Changed => RecordStatusTone::Caution,
        DiffChangeKind::Unchanged => RecordStatusTone::Neutral,
    }
}

/// A missing value reads as empty text.
pub open spec fn or_empty(o: Option<Seq<char>>) -> Seq<char> {
    match o {
        Some(s) => s,
        None => Seq::empty(),
    }
}

/// The readable value of a cell, which carries its change in words so that
/// it is not told by color alone.
pub open spec fn diff_cell_value_spec(cell: DiffCell) -> Seq<char> {
    match cell.kind_spec() {
        DiffChangeKind::Added => "Added: "@ + or_empty(cell.after_view()),
        DiffChangeKind::Removed => "Removed: "@ + or_empty(cell.before_view()),
        DiffChangeKind::Changed => "Changed: "@ + or_empty(cell.before_view()) + " → "@ + or_empty(cell.after_view()),
        DiffChangeKind::Unchanged => "Unchanged: "@ + or_empty(cell.after_view()),
    }
}

/// Returns the word for a change kind.
pub fn change_kind_label(kind: DiffChangeKind) -> (r: &'static str)
    ensures
        r@ == change_kind_label_spec(kind),
{
    match kind {
        DiffChangeKind::Added => "Added",
        DiffChangeKind::Removed => "Removed",
        DiffChangeKind::Changed => "Changed",
        DiffChangeKind::Unchanged => "Unchanged",
    }
}

/// Returns the words for a proposal decision.
pub fn proposal_state_label(state: DiffProposalState) -> (r: &'static str)
    ensures
        r@ == proposal_state_label_spec(state),
{
    match state {
        DiffProposalState::Pending => "Pending decision",
        DiffProposalState::Accepted => "Accepted",
        DiffProposalState::Rejected => "Rejected",
    }
}

/// Returns the tone a proposal decision is drawn in.
pub fn proposal_state_tone(state: DiffProposalState) -> (r: RecordStatusTone)
    ensures
        r == proposal_state_tone_spec(state),
{
    match state {
        DiffProposalState::Pending => RecordStatusTone::Caution,
        DiffProposalState::Accepted => RecordStatusTone::Positive,
        DiffProposalState::Rejected => RecordStatusTone::Critical,
    }
}

/// A status cell as a records table shows it: its column, readable value,
/// and tone.
#[derive(Debug, Clone)]
pub struct StatusCell {
    column_id: String,
    value: String,
    tone: RecordStatusTone,
}

impl StatusCell {
    /// The column the cell belongs to.
    pub closed spec fn column_id_view(self) -> Seq<char> {
        self.column_id@
    }

    /// The readable value.
    pub closed spec fn value_view(self) -> Seq<char> {
        self.value@
    }

    /// The tone.
    pub closed spec fn tone_spec(self) -> RecordStatusTone {
        self.tone
    }

    /// Returns the column the cell belongs to.
    pub fn column_id(&self) -> (r: &String)
        ensures
            r@ == self.column_id_view(),
    {
        &self.column_id
    }

    /// Returns the readable value.
    pub fn value(&self) -> (r: &String)
        ensures
            r@ == self.value_view(),
    {
        &self.value
    }

    /// Returns the tone; a status cell always has one.
    pub fn status_tone(&self) -> (r: Option<RecordStatusTone>)
        ensures
            r == Some(self.tone_spec()),
    {
        Some(self.tone)
    }
}

fn append_or_empty(s: &mut String, o: &Option<String>)
    ensures
        final(s)@ == old(s)@ + or_empty(opt_view(*o)),
{
    match o {
        Some(v) => s.append(v.as_str()),
        None => {
            assert(old(s)@ + Seq::<char>::empty() =~= old(s)@);
        },
    }
}

/// The status cell that shows one before/after value.
pub fn diff_record_cell(cell: &DiffCell) -> (r: StatusCell)
    ensures
        r.column_id_view() == cell.column_id_view(),
        r.value_view() == diff_cell_value_spec(*cell),
        r.tone_spec() == change_tone_spec(cell.kind_spec()),
{
    let mut value = String::new();
    let tone = match cell.change_kind {
        DiffChangeKind::Added => {
            value.append("Added: ");
            append_or_empty(&mut value, &cell.after);
            RecordStatusTone::Positive
        },
        DiffChangeKind::Removed => {
            value.append("Removed: ");
            append_or_empty(&mut value, &cell.before);
            RecordStatusTone::Critical
        },
        DiffChangeKind::Changed => {
            value.append("Changed: ");
            append_or_empty(&mut value, &cell.before);
            value.append(" → ");
            append_or_empty(&mut value, &cell.after);
            RecordStatusTone::Caution
        },
        DiffChangeKind::Unchanged => {
            value.append("Unchanged: ");
            append_or_empty(&mut value, &cell.after);
            RecordStatusTone::Neutral
        },
    };
    StatusCell { column_id: cell.column_id.clone(), value, tone }
}

/// The status cell that shows a proposal's decision in the decision column.
pub fn decision_cell(row: &DiffRow, decision_column_id: &str) -> (r: StatusCell)
    ensures
        r.column_id_view() == decision_column_id@,
        r.value_view() == proposal_state_label_spec(row.state_spec()),
        r.tone_spec() == proposal_state_tone_spec(row.state_spec()),
{
    StatusCell {
        column_id: decision_column_id.to_owned(),
        value: proposal_state_label(row.proposal_state).to_owned(),
        tone: proposal_state_tone(row.proposal_state),
    }
}

/// The accessible name of a proposal row: label, change, and decision.
pub open spec fn row_semantic_label_spec(row: DiffRow) -> Seq<char> {
    row.label_view() + "; "@ + change_kind_label_spec(row.kind_spec()) + "; "@
        + proposal_state_label_spec(row.state_spec())
}

/// The accessible name of a proposal row, such as `Pistachio; Changed; Pending decision`.
pub fn row_semantic_label(row: &DiffRow) -> (r: String)
    ensures
        r@ == row_semantic_label_spec(*row),
{
    let mut s = row.label.clone();
    s.append("; ");
    s.append(change_kind_label(row.change_kind));
    s.append("; ");
    s.append(proposal_state_label(row.proposal_state));
    s
}

/// The name of the selected proposal's action group: `Proposal actions for
/// <label>. <decision>`.
pub fn proposal_actions_label(row: &DiffRow) -> (r: String)
    ensures
        r@ == "Proposal actions for "@ + row.label_view() + ". "@ + proposal_state_label_spec(row.state_spec()),
{
    let mut s = "Proposal actions for ".to_owned();
    s.append(row.label.as_str());
    s.append(". ");
    s.append(proposal_state_label(row.proposal_state));
    s
}

/// Whether the proposal already carries the decision an action asks for.
pub open spec fn already_decided(row: DiffRow, action: DiffProposalAction) -> bool {
    match action {
        DiffProposalAction::Accept => row.state_spec() == DiffProposalState::Accepted,
        DiffProposalAction::Reject => row.state_spec() == DiffProposalState::Rejected,
    }
}

/// The accessible name of a decision control: `Unavailable: Accept <label>`
/// on a disabled proposal, `Already accepted: <label>` once decided so, and
/// `Accept <label>` otherwise (likewise for rejection).
pub open spec fn proposal_action_label_spec(row: DiffRow, action: DiffProposalAction) -> Seq<char> {
    let verb = match action {
        DiffProposalAction::Accept => "Accept"@,
        DiffProposalAction::Reject => "Reject"@,
    };
    let decided = match action {
        DiffProposalAction::Accept => "accepted"@,
        DiffProposalAction::Reject => "rejected"@,
    };
    if row.disabled_spec() {
        "Unavailable: "@ + verb + " "@ + row.label_view()
    } else if already_decided(row, action) {
        "Already "@ + decided + ": "@ + row.label_view()
    } else {
        verb + " "@ + row.label_view()
    }
}

/// Returns the accessible name of a decision control.
pub fn proposal_action_label(row: &DiffRow, action: DiffProposalAction) -> (r: String)
    ensures
        r@ == proposal_action_label_spec(*row, action),
{
    let (verb, decided_label, decided) = match action {
        DiffProposalAction::Accept => ("Accept", "accepted", row.proposal_state == DiffProposalState::Accepted),
        DiffProposalAction::Reject => ("Reject", "rejected", row.proposal_state == DiffProposalState::Rejected),
    };
    if row.disabled {
        let mut s = "Unavailable: ".to_owned();
        s.append(verb);
        s.append(" ");
        s.append(row.label.as_str());
        s
    } else if decided {
        let mut s = "Already ".to_owned();
        s.append(decided_label);
        s.append(": ");
        s.append(row.label.as_str());
        s
    } else {
        let mut s = verb.to_owned();
        s.append(" ");
        s.append(row.label.as_str());
        s
    }
}

/// Whether a decision control accepts activation: the proposal must accept
/// decisions and not already carry the one the control asks for.
pub fn proposal_action_enabled(row: &DiffRow, action: DiffProposalAction) -> (r: bool)
    ensures
        r == (!row.disabled_spec() && !already_decided(*row, action)),
        action == DiffProposalAction::Reject ==> r == (!row.disabled_spec() && row.state_spec()
            != DiffProposalState::Rejected),
        action == DiffProposalAction::Accept ==> r == (!row.disabled_spec() && row.state_spec()
            != DiffProposalState::Accepted),
{
    let decided = match action {
        DiffProposalAction::Accept => row.proposal_state == DiffProposalState::Accepted,
        DiffProposalAction::Reject => row.proposal_state == DiffProposalState::Rejected,
    };
    !row.disabled && !decided
}

/// A proposal that accepts decisions can be rejected exactly when it is not
/// already rejected, and accepted exactly when it is not already accepted:
/// whatever it holds, one of the two decisions stays open, and the control
/// that is open is named for its verb (`Reject <label>`, `Accept <label>`).
/// A disabled proposal offers neither.
pub proof fn lemma_decision_controls(row: DiffRow)
    ensures
        !row.disabled_spec() ==> ((!already_decided(row, DiffProposalAction::Reject))
            == (row.state_spec() != DiffProposalState::Rejected)),
        !row.disabled_spec() ==> ((!already_decided(row, DiffProposalAction::Accept))
            == (row.state_spec() != DiffProposalState::Accepted)),
        !already_decided(row, DiffProposalAction::Accept) || !already_decided(row, DiffProposalAction::Reject),
        row.state_spec() == DiffProposalState::Pending ==> !already_decided(row, DiffProposalAction::Accept)
            && !already_decided(row, DiffProposalAction::Reject),
        !row.disabled_spec() && row.state_spec() != DiffProposalState::Rejected ==> proposal_action_label_spec(
            row,
            DiffProposalAction::Reject,
        ) == "Reject"@ + " "@ + row.label_view(),
        !row.disabled_spec() && row.state_spec() != DiffProposalState::Accepted ==> proposal_action_label_spec(
            row,
            DiffProposalAction::Accept,
        ) == "Accept"@ + " "@ + row.label_view(),
{
}

/// A debug and element identity scoped to one diff table.
pub open spec fn scoped_diff_id_spec(kind: Seq<char>, table_id: &str, item_id: Seq<char>) -> Seq<char> {
    "diff-table-"@ + kind + "-"@ + decimal(table_id.len() as nat) + ":"@ + table_id@ + item_id
}

/// Scoped identities never collide: for one kind, two tables and items
/// give the same identity only when they are the same table and item.
pub proof fn lemma_scoped_diff_ids_distinct(kind: Seq<char>, t1: &str, i1: Seq<char>, t2: &str, i2: Seq<char>)
    requires
        t1.spec_bytes().len() <= usize::MAX,
        t2.spec_bytes().len() <= usize::MAX,
        scoped_diff_id_spec(kind, t1, i1) == scoped_diff_id_spec(kind, t2, i2),
    ensures
        t1@ == t2@,
        i1 == i2,
{
    let prefix = "diff-table-"@ + kind + "-"@;
    assert(scoped_diff_id_spec(kind, t1, i1) =~= prefix + decimal(t1.len() as nat) + ":"@ + t1@ + i1);
    assert(scoped_diff_id_spec(kind, t2, i2) =~= prefix + decimal(t2.len() as nat) + ":"@ + t2@ + i2);
    lemma_length_prefixed_injective(prefix, t1, i1, t2, i2);
}

/// The scoped identity `diff-table-<kind>-<n>:<table id><item id>`, where
/// `<n>` is the byte length of the table identity.
pub fn scoped_diff_id(kind: &str, table_id: &str, item_id: &str) -> (r: String)
    ensures
        r@ == scoped_diff_id_spec(kind@, table_id, item_id@),
{
    let mut s = "diff-table-".to_owned();
    s.append(kind);
    s.append("-");
    crate::text::push_decimal(&mut s, table_id.len() as u64);
    s.append(":");
    s.append(table_id);
    s.append(item_id);
    s
}

/// A controlled table of proposed before/after values: the proposal
/// snapshot with its progress, and the selected proposal.
/// A consumer-owned column of a diff table.
pub type DiffColumn = RecordColumn;

/// The order of a sorted diff column.
pub type DiffSortDirection = RecordSortDirection;

pub struct DiffTable {
    id: String,
    label: String,
    columns: Vec<DiffColumn>,
    rows: Vec<DiffRow>,
    progress: ProgressState,
    selected_row_id: Option<String>,
    sort: Option<(String, DiffSortDirection)>,
    review_column_id: String,
    decision_column_id: String,
}

impl DiffTable {
    /// The stable table identifier.
    pub closed spec fn id_view(self) -> Seq<char> {
        self.id@
    }

    /// The accessible table label.
    pub closed spec fn label_view(self) -> Seq<char> {
        self.label@
    }

    /// The proposal snapshot.
    pub closed spec fn rows_spec(self) -> Seq<DiffRow> {
        self.rows@
    }

    /// The progress of the proposal snapshot.
    pub closed spec fn progress_spec(self) -> ProgressState {
        self.progress
    }

    /// The selected proposal.
    pub closed spec fn selected(self) -> Option<Seq<char>> {
        opt_view(self.selected_row_id)
    }

    /// The identity of the review column the table adds.
    pub closed spec fn review_column_view(self) -> Seq<char> {
        self.review_column_id@
    }

    /// The identity of the decision column the table adds.
    pub closed spec fn decision_column_view(self) -> Seq<char> {
        self.decision_column_id@
    }

    /// The consumer-owned columns.
    pub closed spec fn columns_spec(self) -> Seq<DiffColumn> {
        self.columns@
    }

    /// The applied sort: column identity and direction.
    pub closed spec fn sort_spec(self) -> Option<(Seq<char>, DiffSortDirection)> {
        sort_view(self.sort)
    }

    /// Well-formedness: the snapshot is valid, the selection only ever
    /// names a proposal that accepts selection, and a sort only ever names
    /// a sortable column.
    pub open spec fn wf(self) -> bool {
        &&& rows_valid(self.rows_spec())
        &&& forall|x: Seq<char>| self.selected() == Some(x) ==> enabled_row(self.rows_spec(), x)
        &&& (self.sort_spec() matches Some(s) ==> sortable_column(self.columns_spec(), s.0))
    }

    /// Creates an empty diff table with a stable ID and accessible label.
    pub fn new(id: &str, label: &str) -> (r: Self)
        ensures
            r.wf(),
            r.id_view() == id@,
            r.label_view() == label@,
            r.rows_spec() == Seq::<DiffRow>::empty(),
            r.progress_spec() is Pending,
            r.selected() is None,
            r.columns_spec() == Seq::<DiffColumn>::empty(),
            r.sort_spec() is None,
            r.review_column_view() == scoped_diff_id_spec("review-column"@, id, "action"@),
            r.decision_column_view() == scoped_diff_id_spec("decision-column"@, id, "state"@),
    {
        let r = DiffTable {
            id: id.to_owned(),
            label: label.to_owned(),
            columns: Vec::new(),
            rows: Vec::new(),
            progress: ProgressState::Pending,
            selected_row_id: None,
            sort: None,
            review_column_id: scoped_diff_id("review-column", id, "action"),
            decision_column_id: scoped_diff_id("decision-column", id, "state"),
        };
        assert(row_ids(r.rows@) =~= Seq::<Seq<char>>::empty());
        r
    }

    fn find_enabled(&self, row_id: &String) -> (r: Option<usize>)
        ensures
            match r {
                Some(k) => k < self.rows@.len() && self.rows@[k as int].id_view() == row_id@
                    && !self.rows@[k as int].disabled_spec(),
                None => !enabled_row(self.rows@, row_id@),
            },
    {
        let mut i: usize = 0;
        while i < self.rows.len()
            invariant
                i <= self.rows@.len(),
                forall|k: int| 0 <= k < i ==> !(self.rows@[k].id_view() == row_id@ && !self.rows@[k].disabled_spec()),
            decreases self.rows@.len() - i,
        {
            if self.rows[i].id == *row_id && !self.rows[i].disabled {
                return Some(i);
            }
            i = i + 1;
        }
        None
    }

    /// Replaces the controlled proposal snapshot and its progress. A
    /// snapshot with a repeated proposal identity, or a repeated column
    /// identity within one proposal, is ignored as a whole and `false`
    /// returned. A selection that no longer names an enabled proposal is
    /// cleared.
    pub fn set_rows(&mut self, rows: Vec<DiffRow>, progress: ProgressState) -> (r: bool)
        requires
            old(self).wf(),
        ensures
            final(self).wf(),
            r == rows_valid(rows@),
            !r ==> *final(self) == *old(self),
            r ==> {
                &&& final(self).rows_spec() == rows@
                &&& final(self).progress_spec() == progress
                &&& final(self).selected() == match old(self).selected() {
                    Some(x) => if enabled_row(rows@, x) { Some(x) } else { None },
                    None => None,
                }
            },
            final(self).id_view() == old(self).id_view(),
            final(self).label_view() == old(self).label_view(),
            final(self).review_column_view() == old(self).review_column_view(),
            final(self).decision_column_view() == old(self).decision_column_view(),
            final(self).columns_spec() == old(self).columns_spec(),
            final(self).sort_spec() == old(self).sort_spec(),
    {
        if !diff_rows_have_unique_ids(&rows) {
            return false;
        }
        self.rows = rows;
        self.progress = progress;
        let keep = match &self.selected_row_id {
            Some(x) => self.find_enabled(x).is_some(),
            None => false,
        };
        if !keep {
            self.selected_row_id = None;
        }
        true
    }

    /// Replaces the consumer-owned columns. The table's own review and
    /// decision columns come first; a snapshot whose identities, with those
    /// two, repeat one is ignored as a whole and `false` returned. A sort
    /// whose column is no longer sortable is cleared.
    pub fn set_columns(&mut self, columns: Vec<DiffColumn>) -> (r: bool)
        requires
            old(self).wf(),
        ensures
            final(self).wf(),
            r == (seq![old(self).review_column_view(), old(self).decision_column_view()] + column_ids(
                columns@,
            )).no_duplicates(),
            !r ==> *final(self) == *old(self),
            r ==> final(self).columns_spec() == columns@
                && final(self).sort_spec() == kept_sort(old(self).sort_spec(), columns@),
            final(self).rows_spec() == old(self).rows_spec(),
            final(self).progress_spec() == old(self).progress_spec(),
            final(self).selected() == old(self).selected(),
            final(self).id_view() == old(self).id_view(),
            final(self).label_view() == old(self).label_view(),
            final(self).review_column_view() == old(self).review_column_view(),
            final(self).decision_column_view() == old(self).decision_column_view(),
    {
        let leading = vec![self.review_column_id.clone(), self.decision_column_id.clone()];
        assert(views(leading@) =~= seq![self.review_column_id@, self.decision_column_id@]);
        if !columns_unique_after(leading, &columns) {
            return false;
        }
        let keep = match &self.sort {
            Some(s) => has_sortable_column(&columns, s.0.as_str()),
            None => false,
        };
        if !keep {
            self.sort = None;
        }
        self.columns = columns;
        true
    }

    /// The consumer-owned columns.
    pub fn columns(&self) -> (r: &Vec<DiffColumn>)
        ensures
            r@ == self.columns_spec(),
    {
        &self.columns
    }

    /// Applies a sort, or clears it with no direction. A direction is only
    /// accepted for a sortable column the table holds; otherwise nothing
    /// changes and `false` is returned.
    pub fn set_sort(&mut self, column_id: &str, direction: Option<DiffSortDirection>) -> (r: bool)
        requires
            old(self).wf(),
        ensures
            final(self).wf(),
            r == (direction is None || sortable_column(old(self).columns_spec(), column_id@)),
            !r ==> *final(self) == *old(self),
            r ==> final(self).sort_spec() == match direction {
                Some(d) => Some((column_id@, d)),
                None => None,
            },
            final(self).columns_spec() == old(self).columns_spec(),
            final(self).rows_spec() == old(self).rows_spec(),
            final(self).progress_spec() == old(self).progress_spec(),
            final(self).selected() == old(self).selected(),
            final(self).id_view() == old(self).id_view(),
            final(self).review_column_view() == old(self).review_column_view(),
            final(self).decision_column_view() == old(self).decision_column_view(),
    {
        match direction {
            Some(d) => {
                if !has_sortable_column(&self.columns, column_id) {
                    return false;
                }
                self.sort = Some((column_id.to_owned(), d));
            },
            None => {
                self.sort = None;
            },
        }
        true
    }

    /// The applied sort: column identity and direction.
    pub fn sort(&self) -> (r: Option<(&String, DiffSortDirection)>)
        ensures
            match r {
                Some(p) => self.sort_spec() == Some((p.0@, p.1)),
                None => self.sort_spec() is None,
            },
    {
        match &self.sort {
            Some(s) => Some((&s.0, s.1)),
            None => None,
        }
    }

    /// Returns the proposal snapshot.
    pub fn rows(&self) -> (r: &Vec<DiffRow>)
        ensures
            r@ == self.rows_spec(),
    {
        &self.rows
    }

    /// Returns the progress of the proposal snapshot.
    pub fn progress(&self) -> (r: &ProgressState)
        ensures
            *r == self.progress_spec(),
    {
        &self.progress
    }

    /// Returns the identity of the review column the table adds.
    pub fn review_column_id(&self) -> (r: &String)
        ensures
            r@ == self.review_column_view(),
    {
        &self.review_column_id
    }

    /// Returns the identity of the decision column the table adds.
    pub fn decision_column_id(&self) -> (r: &String)
        ensures
            r@ == self.decision_column_view(),
    {
        &self.decision_column_id
    }

    /// Selects the identified proposal when it exists and accepts
    /// selection; otherwise nothing changes. Returns whether it was selected.
    pub fn set_selected_row(&mut self, row_id: &str) -> (r: bool)
        requires
            old(self).wf(),
        ensures
            final(self).wf(),
            r == enabled_row(old(self).rows_spec(), row_id@),
            r ==> final(self).selected() == Some(row_id@),
            !r ==> final(self).selected() == old(self).selected(),
            final(self).rows_spec() == old(self).rows_spec(),
            final(self).progress_spec() == old(self).progress_spec(),
            final(self).id_view() == old(self).id_view(),
            final(self).label_view() == old(self).label_view(),
            final(self).review_column_view() == old(self).review_column_view(),
            final(self).decision_column_view() == old(self).decision_column_view(),
            final(self).columns_spec() == old(self).columns_spec(),
            final(self).sort_spec() == old(self).sort_spec(),
    {
        let key = row_id.to_owned();
        match self.find_enabled(&key) {
            Some(_) => {
                self.selected_row_id = Some(key);
                true
            },
            None => false,
        }
    }

    /// Clears the controlled selected proposal.
    pub fn clear_selected_row(&mut self)
        requires
            old(self).wf(),
        ensures
            final(self).wf(),
            final(self).selected() is None,
            final(self).rows_spec() == old(self).rows_spec(),
            final(self).progress_spec() == old(self).progress_spec(),
            final(self).id_view() == old(self).id_view(),
            final(self).label_view() == old(self).label_view(),
            final(self).review_column_view() == old(self).review_column_view(),
            final(self).decision_column_view() == old(self).decision_column_view(),
            final(self).columns_spec() == old(self).columns_spec(),
            final(self).sort_spec() == old(self).sort_spec(),
    {
        self.selected_row_id = None;
    }

    /// Returns the controlled selected proposal ID.
    pub fn selected_row_id(&self) -> (r: Option<&String>)
        ensures
            match r {
                Some(x) => self.selected() == Some(x@),
                None => self.selected() is None,
            },
    {
        self.selected_row_id.as_ref()
    }

    /// Returns the selected proposal, whose decision controls are shown.
    pub fn selected_row(&self) -> (r: Option<&DiffRow>)
        requires
            self.wf(),
        ensures
            match r {
                Some(row) => self.selected() == Some(row.id_view()) && self.rows_spec().contains(*row),
                None => self.selected() is None,
            },
    {
        match &self.selected_row_id {
            Some(x) => match self.find_enabled(x) {
                Some(k) => Some(&self.rows[k]),
                None => None,
            },
            None => None,
        }
    }

    /// The intent a decision control produces: a decision request for a
    /// proposal that accepts decisions, and none otherwise.
    pub fn request_decision(&self, row_id: &str, action: DiffProposalAction) -> (r: Option<DiffTableEvent>)
        ensures
            r is Some <==> enabled_row(self.rows_spec(), row_id@),
            r matches Some(DiffTableEvent::DecisionRequested { id, row_id: rid, action: a }) ==> id@ == self.id_view()
                && rid@ == row_id@ && a == action,
            r matches Some(e) ==> e is DecisionRequested,
    {
        let key = row_id.to_owned();
        match self.find_enabled(&key) {
            Some(_) => Some(DiffTableEvent::DecisionRequested { id: self.id.clone(), row_id: key, action }),
            None => None,
        }
    }

    /// The intent a selection gesture on a proposal row produces.
    pub fn request_selection(&self, row_id: &str) -> (r: DiffTableEvent)
        ensures
            r matches DiffTableEvent::SelectionRequested { id, row_id: rid } && id@ == self.id_view() && rid@ == row_id@,
    {
        DiffTableEvent::SelectionRequested { id: self.id.clone(), row_id: row_id.to_owned() }
    }

    /// The intent the primary action on a proposal row produces: a review.
    pub fn request_review(&self, row_id: &str) -> (r: DiffTableEvent)
        ensures
            r matches DiffTableEvent::ReviewRequested { id, row_id: rid } && id@ == self.id_view() && rid@ == row_id@,
    {
        DiffTableEvent::ReviewRequested { id: self.id.clone(), row_id: row_id.to_owned() }
    }
}

} // verus!

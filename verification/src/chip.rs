//! Compact chips representing tool calls and code edits, and the names they
//! are read by.

use vstd::prelude::*;

verus! {

/// The lifecycle status of the tool call a [`ToolChip`] represents.
#[derive(Debug, Clone, Copy, PartialEq, Eq, Structural)]
pub enum ToolStatus {
    /// Queued but not started.
    Pending,
    /// Currently executing; the chip shows a spinner.
    Running,
    /// Completed successfully.
    Success,
    /// Ended with an error.
    Failed,
}

impl Default for ToolStatus {
    fn default() -> (r: Self)
        ensures
            r == ToolStatus::Pending,
    {
        ToolStatus::Pending
    }
}

/// The status word read to assistive technology.
pub open spec fn tool_status_word(status: ToolStatus) -> Seq<char> {
    match status {
        ToolStatus::Pending => "pending"@,
        ToolStatus::Running => "running"@,
        ToolStatus::Success => "completed"@,
        ToolStatus::Failed => "failed"@,
    }
}

impl ToolStatus {
    /// The status word read to assistive technology.
    pub fn accessibility_label(self) -> (r: &'static str)
        ensures
            r@ == tool_status_word(self),
    {
        match self {
            ToolStatus::Pending => "pending",
            ToolStatus::Running => "running",
            ToolStatus::Success => "completed",
            ToolStatus::Failed => "failed",
        }
    }
}

/// A compact, pill-shaped representation of a tool call or code edit.
#[derive(Debug, Clone)]
pub struct ToolChip {
    id: String,
    label: String,
    detail: Option<String>,
    status: ToolStatus,
}

/// An interaction emitted by [`ToolChip`].
#[derive(Debug, Clone, PartialEq, Eq)]
pub enum ToolChipEvent {
    /// The represented tool call was selected.
    Activated {
        /// Stable tool-call identifier.
        id: String,
    },
}

impl ToolChip {
    /// The stable tool-call identifier.
    pub closed spec fn id_view(self) -> Seq<char> {
        self.id@
    }

    /// The short label.
    pub closed spec fn label_view(self) -> Seq<char> {
        self.label@
    }

    /// The muted trailing detail, if any.
    pub closed spec fn detail_view(self) -> Option<Seq<char>> {
        match self.detail {
            Some(d) => Some(d@),
            None => None,
        }
    }

    /// The lifecycle status.
    pub closed spec fn status_spec(self) -> ToolStatus {
        self.status
    }

    /// Creates a pending chip with a unique id and a short label (for
    /// example the tool name or the file being edited).
    pub fn new(id: &str, label: &str) -> (r: Self)
        ensures
            r.id_view() == id@,
            r.label_view() == label@,
            r.detail_view() is None,
            r.status_spec() == ToolStatus::Pending,
    {
        ToolChip { id: id.to_owned(), label: label.to_owned(), detail: None, status: ToolStatus::Pending }
    }

    /// Sets the lifecycle status.
    pub fn status(self, status: ToolStatus) -> (r: Self)
        ensures
            r.status_spec() == status,
            r.id_view() == self.id_view(),
            r.label_view() == self.label_view(),
            r.detail_view() == self.detail_view(),
    {
        ToolChip { status, ..self }
    }

    /// Adds a muted trailing detail, such as a diff stat (`+12 −3`).
    pub fn detail(self, detail: &str) -> (r: Self)
        ensures
            r.detail_view() == Some(detail@),
            r.id_view() == self.id_view(),
            r.label_view() == self.label_view(),
            r.status_spec() == self.status_spec(),
    {
        ToolChip { detail: Some(detail.to_owned()), ..self }
    }

    /// The accessible name: label, status word, and detail when there is one
    /// (`read pricing.md, running, 12 files`).
    pub fn accessibility_label(&self) -> (r: String)
        ensures
            r@ == self.label_view() + ", "@ + tool_status_word(self.status_spec()) + match self.detail_view() {
                Some(d) => ", "@ + d,
                None => Seq::<char>::empty(),
            },
    {
        let mut s = self.label.clone();
        s.append(", ");
        s.append(self.status.accessibility_label());
        match &self.detail {
            Some(d) => {
                s.append(", ");
                s.append(d.as_str());
            },
            None => {},
        }
        s
    }

    /// The intent a click on the chip produces.
    pub fn activate(&self) -> (r: ToolChipEvent)
        ensures
            r matches ToolChipEvent::Activated { id } && id@ == self.id_view(),
    {
        ToolChipEvent::Activated { id: self.id.clone() }
    }
}

} // verus!

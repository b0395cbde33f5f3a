//! The lifecycle of progressively produced content.

use vstd::prelude::*;

verus! {

/// Where a piece of progressive work stands.
#[derive(Debug, Clone, PartialEq, Eq)]
pub enum ProgressState {
    /// Not started.
    Pending,
    /// In flight.
    Running,
    /// Finished successfully.
    Complete,
    /// Stopped with a reason.
    Failed(String),
}

impl ProgressState {
    /// Whether the work is still producing output.
    pub fn is_running(&self) -> (r: bool)
        ensures
            r == (*self is Running),
    {
        match self {
            ProgressState::Running => true,
            _ => false,
        }
    }

    /// Whether the work finished successfully.
    pub fn is_complete(&self) -> (r: bool)
        ensures
            r == (*self is Complete),
    {
        match self {
            ProgressState::Complete => true,
            _ => false,
        }
    }

    /// Whether the work has ended, successfully or not.
    pub fn is_settled(&self) -> (r: bool)
        ensures
            r == (*self is Complete || *self is Failed),
    {
        match self {
            ProgressState::Complete => true,
            ProgressState::Failed(_) => true,
            _ => false,
        }
    }
}

/// Text produced progressively, with its lifecycle.
#[derive(Debug, Clone)]
pub struct StreamedContent {
    text: String,
    state: ProgressState,
}

impl StreamedContent {
    /// The text produced so far, as characters.
    pub closed spec fn text_view(self) -> Seq<char> {
        self.text@
    }

    /// The lifecycle, as a value.
    pub closed spec fn progress(self) -> ProgressState {
        self.state
    }

    /// Content whose production has not started.
    pub fn pending(text: String) -> (r: Self)
        ensures
            r.text_view() == text@,
            r.progress() is Pending,
    {
        StreamedContent { text, state: ProgressState::Pending }
    }

    /// Content still being produced.
    pub fn running(text: String) -> (r: Self)
        ensures
            r.text_view() == text@,
            r.progress() is Running,
    {
        StreamedContent { text, state: ProgressState::Running }
    }

    /// Finished content.
    pub fn done(text: &str) -> (r: Self)
        ensures
            r.text_view() == text@,
            r.progress() is Complete,
    {
        StreamedContent { text: text.to_owned(), state: ProgressState::Complete }
    }

    /// Content whose production stopped with a reason.
    pub fn failed(text: String, reason: &str) -> (r: Self)
        ensures
            r.text_view() == text@,
            r.progress() matches ProgressState::Failed(why) && why@ == reason@,
    {
        StreamedContent { text, state: ProgressState::Failed(reason.to_owned()) }
    }

    /// The text produced so far.
    pub fn text(&self) -> (r: &String)
        ensures
            r@ == self.text_view(),
    {
        &self.text
    }

    /// The lifecycle.
    pub fn state(&self) -> (r: &ProgressState)
        ensures
            *r == self.progress(),
    {
        &self.state
    }

    /// Whether the content is still being produced.
    pub fn is_streaming(&self) -> (r: bool)
        ensures
            r == (self.progress() is Running),
    {
        self.state.is_running()
    }
}

} // verus!

//! The semantic tones a status badge is drawn in.

use vstd::prelude::*;

verus! {

/// The semantic tone of a status badge; the badge always carries its state
/// in words as well, so the tone is never the only signal.
#[derive(Debug, Clone, Copy, PartialEq, Eq, Hash, Structural)]
pub enum StatusTone {
    /// Work in progress or awaiting a decision.
    Info,
    /// A good outcome.
    Success,
    /// Nothing to call out.
    Neutral,
    /// A failure.
    Danger,
}

} // verus!

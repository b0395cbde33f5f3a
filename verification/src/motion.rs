//! The tempos every animated effect resolves through. No component spells
//! out a duration: entrances use the one reveal tempo, loops bound to
//! in-flight work use a progress loop, and loops with nothing to complete
//! use an ambient loop. All tempos are whole milliseconds.

use vstd::prelude::*;

verus! {

/// A one-shot entrance: a newly mounted element settling into place.
#[derive(Debug, Clone, Copy, PartialEq, Eq, Structural)]
pub struct EnterSpec {
    /// Mount to settled, in milliseconds.
    pub duration_ms: u64,
    /// Added per sibling index, in milliseconds, so a list ripples rather
    /// than snapping.
    pub stagger_ms: u64,
    /// Index past which the stagger stops growing, bounding how long the
    /// last item of a long list waits.
    pub stagger_cap: usize,
}

impl EnterSpec {
    /// The crate's entrance tempo: 260 ms, rippling 40 ms per item for at
    /// most twelve items.
    pub fn reveal_tempo() -> (r: Self)
        ensures
            r == (EnterSpec { duration_ms: 260, stagger_ms: 40, stagger_cap: 12 }),
    {
        EnterSpec { duration_ms: 260, stagger_ms: 40, stagger_cap: 12 }
    }
}

/// A repeating loop that means "this work is in flight".
#[derive(Debug, Clone, Copy, PartialEq, Eq, Structural)]
pub struct ProgressLoopSpec {
    /// One full pass, including any rest beat, in milliseconds.
    pub period_ms: u64,
}

impl ProgressLoopSpec {
    /// Label shimmer.
    pub fn shimmer() -> (r: Self)
        ensures
            r.period_ms == 1800,
    {
        ProgressLoopSpec { period_ms: 1800 }
    }

    /// Diagonal sweep across the pixel-grid loader.
    pub fn grid_sweep() -> (r: Self)
        ensures
            r.period_ms == 1400,
    {
        ProgressLoopSpec { period_ms: 1400 }
    }

    /// Placeholder pulse shown until generated pixels arrive.
    pub fn image_pulse() -> (r: Self)
        ensures
            r.period_ms == 1600,
    {
        ProgressLoopSpec { period_ms: 1600 }
    }

    /// One rotation of an in-flight status icon.
    pub fn status_spinner() -> (r: Self)
        ensures
            r.period_ms == 900,
    {
        ProgressLoopSpec { period_ms: 900 }
    }
}

/// A repeating loop with nothing to complete; it runs for as long as its
/// element is on screen.
#[derive(Debug, Clone, Copy, PartialEq, Eq, Structural)]
pub struct AmbientLoopSpec {
    /// One full cycle, in milliseconds.
    pub period_ms: u64,
}

impl AmbientLoopSpec {
    /// Opacity breathing for "still working" indicators.
    pub fn breathing() -> (r: Self)
        ensures
            r.period_ms == 1600,
    {
        AmbientLoopSpec { period_ms: 1600 }
    }

    /// One cycle of the orb lattice.
    pub fn orb_lattice() -> (r: Self)
        ensures
            r.period_ms == 1700,
    {
        AmbientLoopSpec { period_ms: 1700 }
    }

    /// The cycle in whole milliseconds, for choreography that phases in
    /// integer beats.
    pub fn period_millis(self) -> (r: u64)
        ensures
            r == self.period_ms,
    {
        self.period_ms
    }
}

/// The wait before item `index` of a staggered reveal starts: one stagger
/// beat per item, capped at the stagger cap.
pub open spec fn stagger_delay_spec(index: int) -> int {
    40 * if index < 12 { index } else { 12 }
}

/// The per-item delay of a staggered reveal in milliseconds, capped so
/// long lists settle in a bounded time.
pub fn stagger_delay(index: usize) -> (r: u64)
    ensures
        r as int == stagger_delay_spec(index as int),
{
    let spec = EnterSpec::reveal_tempo();
    let capped: u64 = if index < spec.stagger_cap { index as u64 } else { spec.stagger_cap as u64 };
    spec.stagger_ms * capped
}

/// Staggering is bounded: no item waits longer than the item at the cap,
/// every item from the cap on waits exactly as long, and earlier items
/// wait strictly less the earlier they come.
pub proof fn lemma_stagger_bounded(i: int, j: int)
    requires
        0 <= i,
        0 <= j,
    ensures
        stagger_delay_spec(i) <= stagger_delay_spec(12),
        i >= 12 ==> stagger_delay_spec(i) == stagger_delay_spec(12),
        i < j && i < 12 ==> stagger_delay_spec(i) < stagger_delay_spec(j),
        i <= j ==> stagger_delay_spec(i) <= stagger_delay_spec(j),
{
}

} // verus!

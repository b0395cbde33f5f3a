//! Where transient surfaces open and how soon. Dropdowns, menus, hover
//! cards, and toolbars share one policy: the side they prefer to open on
//! and how long a hover waits before one appears or closes. Placement is a
//! preference the positioner may still flip when it does not fit.

use vstd::prelude::*;

verus! {

/// The side a floating surface prefers to open on.
#[derive(Debug, Clone, Copy, PartialEq, Eq, Structural)]
pub enum PopupSide {
    /// Below the trigger, flipping above when it does not fit.
    Below,
    /// Above the trigger, flipping below when it does not fit.
    Above,
    /// Whichever side has more room, decided per opening.
    Auto,
}

impl Default for PopupSide {
    fn default() -> (r: Self)
        ensures
            r == PopupSide::Below,
    {
        PopupSide::Below
    }
}

/// The placement handed to the positioner.
#[derive(Debug, Clone, Copy, PartialEq, Eq, Structural)]
pub enum Placement {
    /// Open above the trigger.
    Top,
    /// Open below the trigger.
    Bottom,
}

impl PopupSide {
    /// The placement for a trigger; `anchor_below_middle` says whether the
    /// trigger's top edge lies below the middle of the window. `Auto`
    /// opens away from the nearer edge; the two fixed sides are reported
    /// as asked.
    pub fn placement(self, anchor_below_middle: bool) -> (r: Placement)
        ensures
            r == match self {
                PopupSide::Below => Placement::Bottom,
                PopupSide::Above => Placement::Top,
                PopupSide::Auto => if anchor_below_middle { Placement::Top } else { Placement::Bottom },
            },
    {
        match self {
            PopupSide::Below => Placement::Bottom,
            PopupSide::Above => Placement::Top,
            PopupSide::Auto => if anchor_below_middle {
                Placement::Top
            } else {
                Placement::Bottom
            },
        }
    }
}

/// The policy for floating surfaces: the preferred side, and the hover
/// delays in milliseconds.
#[derive(Debug, Clone, Copy, PartialEq, Eq, Structural)]
pub struct PopupTokens {
    side: PopupSide,
    hover_open_delay_ms: u64,
    hover_close_delay_ms: u64,
}

impl Default for PopupTokens {
    /// Open below with a smart flip, show a hover surface almost at once
    /// (100 ms), and close it after 200 ms.
    fn default() -> (r: Self)
        ensures
            r.side_spec() == PopupSide::Below,
            r.open_delay_spec() == 100,
            r.close_delay_spec() == 200,
    {
        PopupTokens { side: PopupSide::Below, hover_open_delay_ms: 100, hover_close_delay_ms: 200 }
    }
}

impl PopupTokens {
    /// The preferred side.
    pub closed spec fn side_spec(self) -> PopupSide {
        self.side
    }

    /// The hover open delay in milliseconds.
    pub closed spec fn open_delay_spec(self) -> u64 {
        self.hover_open_delay_ms
    }

    /// The hover close delay in milliseconds.
    pub closed spec fn close_delay_spec(self) -> u64 {
        self.hover_close_delay_ms
    }

    /// The side floating surfaces prefer.
    pub fn side(&self) -> (r: PopupSide)
        ensures
            r == self.side_spec(),
    {
        self.side
    }

    /// How long a pointer rests before a hover surface opens, in milliseconds.
    pub fn hover_open_delay(&self) -> (r: u64)
        ensures
            r == self.open_delay_spec(),
    {
        self.hover_open_delay_ms
    }

    /// How long a hover surface waits before closing, in milliseconds.
    pub fn hover_close_delay(&self) -> (r: u64)
        ensures
            r == self.close_delay_spec(),
    {
        self.hover_close_delay_ms
    }

    /// Replaces the side.
    pub fn with_side(self, side: PopupSide) -> (r: Self)
        ensures
            r.side_spec() == side,
            r.open_delay_spec() == self.open_delay_spec(),
            r.close_delay_spec() == self.close_delay_spec(),
    {
        PopupTokens { side, ..self }
    }

    /// Replaces the hover open delay.
    pub fn with_hover_open_delay(self, delay_ms: u64) -> (r: Self)
        ensures
            r.open_delay_spec() == delay_ms,
            r.side_spec() == self.side_spec(),
            r.close_delay_spec() == self.close_delay_spec(),
    {
        PopupTokens { hover_open_delay_ms: delay_ms, ..self }
    }

    /// Replaces the hover close delay.
    pub fn with_hover_close_delay(self, delay_ms: u64) -> (r: Self)
        ensures
            r.close_delay_spec() == delay_ms,
            r.side_spec() == self.side_spec(),
            r.open_delay_spec() == self.open_delay_spec(),
    {
        PopupTokens { hover_close_delay_ms: delay_ms, ..self }
    }
}

/// The policy in force: the one the application installed, or the default
/// when it installed none.
pub fn installed_or_default(installed: Option<PopupTokens>) -> (r: PopupTokens)
    ensures
        installed matches Some(t) ==> r == t,
        installed is None ==> r.side_spec() == PopupSide::Below && r.open_delay_spec() == 100
            && r.close_delay_spec() == 200,
{
    match installed {
        Some(t) => t,
        None => PopupTokens::default(),
    }
}

} // verus!

//! Bit sets that the engine reports and accepts: resize edges, view state,
//! keyboard modifiers, view properties.

use vstd::prelude::*;

verus! {

/// Bit of the top edge.
pub const EDGE_TOP: u32 = 1;

/// Bit of the bottom edge.
pub const EDGE_BOTTOM: u32 = 2;

/// Bit of the left edge.
pub const EDGE_LEFT: u32 = 4;

/// Bit of the right edge.
pub const EDGE_RIGHT: u32 = 8;

/// The sides of a view that a resize moves. The empty set stands for a move of
/// the whole view.
#[derive(Clone, Copy, Debug, PartialEq, Eq, Structural, Hash)]
pub struct Edges {
    pub bits: u32,
}

impl Edges {
    pub open spec fn spec_empty() -> Edges {
        Edges { bits: 0 }
    }

    pub open spec fn spec_is_empty(self) -> bool {
        self.bits == 0
    }

    pub open spec fn spec_union(self, other: Edges) -> Edges {
        Edges { bits: self.bits | other.bits }
    }

    pub open spec fn spec_contains(self, other: Edges) -> bool {
        self.bits & other.bits == other.bits
    }

    /// No edge.
    #[verifier::when_used_as_spec(spec_empty)]
    pub fn empty() -> (e: Edges)
        ensures
            e == Self::spec_empty(),
    {
        Edges { bits: 0 }
    }

    /// The top edge alone.
    pub fn top() -> (e: Edges)
        ensures
            e.bits == EDGE_TOP,
    {
        Edges { bits: EDGE_TOP }
    }

    /// The bottom edge alone.
    pub fn bottom() -> (e: Edges)
        ensures
            e.bits == EDGE_BOTTOM,
    {
        Edges { bits: EDGE_BOTTOM }
    }

    /// The left edge alone.
    pub fn left() -> (e: Edges)
        ensures
            e.bits == EDGE_LEFT,
    {
        Edges { bits: EDGE_LEFT }
    }

    /// The right edge alone.
    pub fn right() -> (e: Edges)
        ensures
            e.bits == EDGE_RIGHT,
    {
        Edges { bits: EDGE_RIGHT }
    }

    /// Whether no edge is in the set.
    #[verifier::when_used_as_spec(spec_is_empty)]
    pub fn is_empty(self) -> (r: bool)
        ensures
            r == self.spec_is_empty(),
    {
        self.bits == 0
    }

    /// The edges of either set.
    #[verifier::when_used_as_spec(spec_union)]
    pub fn union(self, other: Edges) -> (e: Edges)
        ensures
            e == self.spec_union(other),
    {
        Edges { bits: self.bits | other.bits }
    }

    /// Whether every edge of `other` is in this set.
    #[verifier::when_used_as_spec(spec_contains)]
    pub fn contains(self, other: Edges) -> (r: bool)
        ensures
            r == self.spec_contains(other),
    {
        self.bits & other.bits == other.bits
    }
}

/// Bit of the "maximized" view state.
pub const STATE_MAXIMIZED: u32 = 1;

/// Bit of the "fullscreen" view state.
pub const STATE_FULLSCREEN: u32 = 2;

/// Bit of the "resizing" view state.
pub const STATE_RESIZING: u32 = 4;

/// Bit of the "moving" view state.
pub const STATE_MOVING: u32 = 8;

/// Bit of the "activated" view state.
pub const STATE_ACTIVATED: u32 = 16;

/// State flags of a view.
#[derive(Clone, Copy, Debug, PartialEq, Eq, Structural, Hash)]
pub struct StateFlags {
    pub bits: u32,
}

impl StateFlags {
    pub open spec fn spec_contains(self, other: StateFlags) -> bool {
        self.bits & other.bits == other.bits
    }

    /// The "maximized" flag alone.
    pub fn maximized() -> (s: StateFlags)
        ensures
            s.bits == STATE_MAXIMIZED,
    {
        StateFlags { bits: STATE_MAXIMIZED }
    }

    /// The "fullscreen" flag alone.
    pub fn fullscreen() -> (s: StateFlags)
        ensures
            s.bits == STATE_FULLSCREEN,
    {
        StateFlags { bits: STATE_FULLSCREEN }
    }

    /// The "resizing" flag alone.
    pub fn resizing() -> (s: StateFlags)
        ensures
            s.bits == STATE_RESIZING,
    {
        StateFlags { bits: STATE_RESIZING }
    }

    /// The "activated" flag alone.
    pub fn activated() -> (s: StateFlags)
        ensures
            s.bits == STATE_ACTIVATED,
    {
        StateFlags { bits: STATE_ACTIVATED }
    }

    /// Whether every flag of `other` is set here.
    #[verifier::when_used_as_spec(spec_contains)]
    pub fn contains(self, other: StateFlags) -> (r: bool)
        ensures
            r == self.spec_contains(other),
    {
        self.bits & other.bits == other.bits
    }
}

/// The empty modifier set.
pub const MOD_NONE: u32 = 0;

/// Keyboard modifiers that are held down.
#[derive(Clone, Copy, Debug, PartialEq, Eq, Structural, Hash)]
pub struct Modifiers {
    pub bits: u32,
}

impl Modifiers {
    pub open spec fn spec_contains(self, other: Modifiers) -> bool {
        self.bits & other.bits == other.bits
    }

    /// No modifier.
    pub fn none() -> (m: Modifiers)
        ensures
            m.bits == MOD_NONE,
    {
        Modifiers { bits: MOD_NONE }
    }

    /// Whether every modifier of `other` is held.
    #[verifier::when_used_as_spec(spec_contains)]
    pub fn contains(self, other: Modifiers) -> (r: bool)
        ensures
            r == self.spec_contains(other),
    {
        self.bits & other.bits == other.bits
    }
}

/// The title property: the engine numbers it zero, the empty set.
pub const PROPERTY_TITLE: u32 = 0;

/// The properties of a view that a notification reports as changed.
#[derive(Clone, Copy, Debug, PartialEq, Eq, Structural, Hash)]
pub struct PropertyKind {
    pub bits: u32,
}

impl PropertyKind {
    pub open spec fn spec_covers_title(self) -> bool {
        self.bits & PROPERTY_TITLE == PROPERTY_TITLE
    }

    /// Whether the notification covers the title. The title is the empty set
    /// of bits, so every notification does.
    #[verifier::when_used_as_spec(spec_covers_title)]
    pub fn covers_title(self) -> (r: bool)
        ensures
            r == self.spec_covers_title(),
            r,
    {
        assert(self.bits & 0u32 == 0u32) by (bit_vector);
        self.bits & PROPERTY_TITLE == PROPERTY_TITLE
    }
}

/// Code of the left pointer button.
pub const LEFT_CLICK: u32 = 0x110;

/// Code of the right pointer button.
pub const RIGHT_CLICK: u32 = 0x111;

/// Whether a key or a button went down or came up.
#[derive(Clone, Copy, Debug, PartialEq, Eq, Structural, Hash)]
pub enum PressState {
    Released,
    Pressed,
}

} // verus!

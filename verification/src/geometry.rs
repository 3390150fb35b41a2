//! Handles and plane geometry.

use vstd::prelude::*;

verus! {

/// Handle of a client window. The engine owns the window; handle zero is the
/// root window (the desktop itself).
#[derive(Clone, Copy, Debug, PartialEq, Eq, Structural, Hash)]
pub struct ViewId {
    pub handle: u64,
}

impl ViewId {
    pub open spec fn spec_is_root(self) -> bool {
        self.handle == 0
    }

    /// Whether this is the root window.
    #[verifier::when_used_as_spec(spec_is_root)]
    pub fn is_root(self) -> (r: bool)
        ensures
            r == self.spec_is_root(),
    {
        self.handle == 0
    }
}

/// Handle of a display.
#[derive(Clone, Copy, Debug, PartialEq, Eq, Structural, Hash)]
pub struct OutputId {
    pub handle: u64,
}

/// Identifier that the layout tree gives to one of its containers.
#[derive(Clone, Copy, Debug, PartialEq, Eq, Structural, Hash)]
pub struct ContainerId {
    pub id: u128,
}

/// A position on an output, in pixels.
#[derive(Clone, Copy, Debug, PartialEq, Eq, Structural, Hash)]
pub struct Point {
    pub x: i32,
    pub y: i32,
}

/// Width and height, in pixels.
#[derive(Clone, Copy, Debug, PartialEq, Eq, Structural, Hash)]
pub struct Size {
    pub w: u32,
    pub h: u32,
}

/// Position and extent of a view.
#[derive(Clone, Copy, Debug, PartialEq, Eq, Structural, Hash)]
pub struct Geometry {
    pub origin: Point,
    pub size: Size,
}

impl Geometry {
    /// Horizontal midpoint: the origin plus half the width, rounded down.
    pub open spec fn spec_mid_x(self) -> int {
        self.origin.x + self.size.w / 2
    }

    /// Vertical midpoint: the origin plus half the height, rounded down.
    pub open spec fn spec_mid_y(self) -> int {
        self.origin.y + self.size.h / 2
    }

    /// Horizontal midpoint, wide enough for every geometry.
    pub fn mid_x(&self) -> (m: i64)
        ensures
            m == self.spec_mid_x(),
    {
        let half: u32 = self.size.w / 2;
        self.origin.x as i64 + half as i64
    }

    /// Vertical midpoint, wide enough for every geometry.
    pub fn mid_y(&self) -> (m: i64)
        ensures
            m == self.spec_mid_y(),
    {
        let half: u32 = self.size.h / 2;
        self.origin.y as i64 + half as i64
    }

    /// The geometry that covers an output of the given resolution.
    pub open spec fn spec_covering(resolution: Size) -> Geometry {
        Geometry { origin: Point { x: 0, y: 0 }, size: resolution }
    }

    /// The geometry that covers an output of the given resolution: it starts
    /// at the origin and has the output's size.
    pub fn covering(resolution: Size) -> (g: Geometry)
        ensures
            g == Self::spec_covering(resolution),
    {
        Geometry { origin: Point { x: 0, y: 0 }, size: resolution }
    }
}

} // verus!

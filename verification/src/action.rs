//! The interactive move or resize that the pointer is carrying out.

use vstd::prelude::*;
use crate::flags::{Edges, EDGE_BOTTOM, EDGE_LEFT, EDGE_RIGHT, EDGE_TOP};
use crate::geometry::{Geometry, Point, ViewId};

verus! {

/// An interactive move or resize in progress.
#[derive(Clone, Copy, Debug, PartialEq, Eq, Structural, Hash)]
pub struct Action {
    /// The view that is moved or resized.
    pub view: ViewId,
    /// Where the pointer was when the button went down.
    pub grab: Point,
    /// The edges that follow the pointer; empty for a move.
    pub edges: Edges,
}

/// What the pointer is doing.
#[derive(Clone, Copy, Debug, PartialEq, Eq, Structural, Hash)]
pub enum ActionState {
    /// No button is held over a view.
    Idle,
    /// A view follows the pointer.
    Dragging,
    /// Edges of a view follow the pointer.
    Resizing,
}

/// The state that a slot with the given content is in.
pub open spec fn state_of(current: Option<Action>) -> ActionState {
    match current {
        None => ActionState::Idle,
        Some(action) => if action.edges.bits == 0 {
            ActionState::Dragging
        } else {
            ActionState::Resizing
        },
    }
}

/// The slot that holds the action in progress, if there is one. It stands
/// apart from the lock over the tree: it can be read and written whoever
/// holds the tree.
#[derive(Debug)]
pub struct ActionSlot {
    current: Option<Action>,
}

impl View for ActionSlot {
    type V = Option<Action>;

    closed spec fn view(&self) -> Option<Action> {
        self.current
    }
}

impl ActionSlot {
    /// An empty slot.
    pub fn new() -> (slot: ActionSlot)
        ensures
            slot@ == None::<Action>,
    {
        ActionSlot { current: None }
    }

    /// The action in progress.
    pub fn current(&self) -> (r: Option<Action>)
        ensures
            r == self@,
    {
        self.current
    }

    /// What the pointer is doing.
    pub fn state(&self) -> (s: ActionState)
        ensures
            s == state_of(self@),
    {
        match self.current {
            None => ActionState::Idle,
            Some(action) => if action.edges.bits == 0 {
                ActionState::Dragging
            } else {
                ActionState::Resizing
            },
        }
    }

    /// Puts an action in the slot, in place of what it held.
    pub fn begin(&mut self, action: Action)
        ensures
            final(self)@ == Some(action),
    {
        self.current = Some(action);
    }

    /// Empties the slot and hands out what it held.
    pub fn clear(&mut self) -> (r: Option<Action>)
        ensures
            r == old(self)@,
            final(self)@ == None::<Action>,
    {
        let held = self.current;
        self.current = None;
        held
    }
}

/// The horizontal edge that a click takes hold of: the left one if the click
/// lies left of the midpoint, the right one if it lies right of it, none if it
/// is on it.
pub open spec fn horizontal_edge(click_x: int, mid_x: int) -> u32 {
    if click_x < mid_x {
        EDGE_LEFT
    } else if click_x > mid_x {
        EDGE_RIGHT
    } else {
        0
    }
}

/// The vertical edge that a click takes hold of: the top one if the click lies
/// above the midpoint, the bottom one if it lies below it, none if it is on
/// it.
pub open spec fn vertical_edge(click_y: int, mid_y: int) -> u32 {
    if click_y < mid_y {
        EDGE_TOP
    } else if click_y > mid_y {
        EDGE_BOTTOM
    } else {
        0
    }
}

/// The edges that a click on a view takes hold of.
pub open spec fn spec_resize_edges(click: Point, geometry: Geometry) -> Edges {
    Edges {
        bits: horizontal_edge(click.x as int, geometry.spec_mid_x()) | vertical_edge(
            click.y as int,
            geometry.spec_mid_y(),
        ),
    }
}

/// The edges that a click on a view takes hold of: on each axis the side of
/// the view's midpoint on which the click lies, and none where it lies on the
/// midpoint.
pub fn resize_edges(click: Point, geometry: Geometry) -> (e: Edges)
    ensures
        e == spec_resize_edges(click, geometry),
{
    let mid_x: i64 = geometry.mid_x();
    let mid_y: i64 = geometry.mid_y();
    let x: i64 = click.x as i64;
    let y: i64 = click.y as i64;
    let flag_x: u32 = if x < mid_x {
        EDGE_LEFT
    } else if x > mid_x {
        EDGE_RIGHT
    } else {
        0
    };
    let flag_y: u32 = if y < mid_y {
        EDGE_TOP
    } else if y > mid_y {
        EDGE_BOTTOM
    } else {
        0
    };
    Edges { bits: flag_x | flag_y }
}

/// A click on the midpoint takes hold of no edge.
pub proof fn lemma_click_on_midpoint(click: Point, geometry: Geometry)
    requires
        click.x == geometry.spec_mid_x(),
        click.y == geometry.spec_mid_y(),
    ensures
        spec_resize_edges(click, geometry) == Edges::spec_empty(),
{
    assert(0u32 | 0u32 == 0u32) by (bit_vector);
}

/// A click left of and above the midpoint takes hold of the left and the top
/// edge, and of no other.
pub proof fn lemma_click_upper_left(click: Point, geometry: Geometry)
    requires
        click.x < geometry.spec_mid_x(),
        click.y < geometry.spec_mid_y(),
    ensures
        spec_resize_edges(click, geometry).bits == EDGE_LEFT | EDGE_TOP,
        spec_resize_edges(click, geometry).bits == 5,
        !spec_resize_edges(click, geometry).spec_is_empty(),
{
    assert(4u32 | 1u32 == 5u32) by (bit_vector);
}

/// A click right of and below the midpoint takes hold of the right and the
/// bottom edge, and of no other.
pub proof fn lemma_click_lower_right(click: Point, geometry: Geometry)
    requires
        click.x > geometry.spec_mid_x(),
        click.y > geometry.spec_mid_y(),
    ensures
        spec_resize_edges(click, geometry).bits == EDGE_RIGHT | EDGE_BOTTOM,
        spec_resize_edges(click, geometry).bits == 10,
        !spec_resize_edges(click, geometry).spec_is_empty(),
{
    assert(8u32 | 2u32 == 10u32) by (bit_vector);
}

/// The edges depend on nothing but the side of the midpoint on which the
/// click lies, on each axis: the set is empty exactly when the click is on
/// the midpoint on both.
pub proof fn lemma_edges_empty_iff_on_midpoint(click: Point, geometry: Geometry)
    ensures
        spec_resize_edges(click, geometry).spec_is_empty() <==> (click.x
            == geometry.spec_mid_x() && click.y == geometry.spec_mid_y()),
{
    assert(0u32 | 0u32 == 0u32) by (bit_vector);
    assert(forall|a: u32, b: u32| (a | b == 0u32) ==> (a == 0u32 && b == 0u32)) by (bit_vector);
}

} // verus!

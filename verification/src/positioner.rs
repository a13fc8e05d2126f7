//! The rules by which a client asks for a popup to be placed.
//!
//! A positioner describes a popup's size and where it wants to sit relative
//! to an anchor rectangle on its parent. This module carries the positioner
//! as plain values; turning it into a rectangle is left to the protocol
//! library that the embedding program links.

use vstd::prelude::*;
use crate::geometry::{Point, Rect, Size};
use crate::serial::Serial;

verus! {

/// The edge or corner of the anchor rectangle that a popup is attached to.
#[derive(Debug, Clone, Copy, PartialEq, Eq, Hash, Structural)]
pub enum Anchor {
    NoEdge,
    Top,
    Bottom,
    Left,
    Right,
    TopLeft,
    BottomLeft,
    TopRight,
    BottomRight,
}

impl Anchor {
    /// The number the protocol gives this anchor.
    pub open spec fn spec_code(self) -> u32 {
        match self {
            Anchor::NoEdge => 0,
            Anchor::Top => 1,
            Anchor::Bottom => 2,
            Anchor::Left => 3,
            Anchor::Right => 4,
            Anchor::TopLeft => 5,
            Anchor::BottomLeft => 6,
            Anchor::TopRight => 7,
            Anchor::BottomRight => 8,
        }
    }

    /// The number the protocol gives this anchor.
    #[verifier::when_used_as_spec(spec_code)]
    pub fn code(self) -> (code: u32)
        ensures
            code == self.spec_code(),
    {
        match self {
            Anchor::NoEdge => 0,
            Anchor::Top => 1,
            Anchor::Bottom => 2,
            Anchor::Left => 3,
            Anchor::Right => 4,
            Anchor::TopLeft => 5,
            Anchor::BottomLeft => 6,
            Anchor::TopRight => 7,
            Anchor::BottomRight => 8,
        }
    }
}

/// The direction in which a popup extends from its anchor point.
#[derive(Debug, Clone, Copy, PartialEq, Eq, Hash, Structural)]
pub enum Gravity {
    NoEdge,
    Top,
    Bottom,
    Left,
    Right,
    TopLeft,
    BottomLeft,
    TopRight,
    BottomRight,
}

impl Gravity {
    /// The number the protocol gives this gravity.
    pub open spec fn spec_code(self) -> u32 {
        match self {
            Gravity::NoEdge => 0,
            Gravity::Top => 1,
            Gravity::Bottom => 2,
            Gravity::Left => 3,
            Gravity::Right => 4,
            Gravity::TopLeft => 5,
            Gravity::BottomLeft => 6,
            Gravity::TopRight => 7,
            Gravity::BottomRight => 8,
        }
    }

    /// The number the protocol gives this gravity.
    #[verifier::when_used_as_spec(spec_code)]
    pub fn code(self) -> (code: u32)
        ensures
            code == self.spec_code(),
    {
        match self {
            Gravity::NoEdge => 0,
            Gravity::Top => 1,
            Gravity::Bottom => 2,
            Gravity::Left => 3,
            Gravity::Right => 4,
            Gravity::TopLeft => 5,
            Gravity::BottomLeft => 6,
            Gravity::TopRight => 7,
            Gravity::BottomRight => 8,
        }
    }
}

/// What the compositor may do to a popup that does not fit where it asked
/// to be.
#[derive(Debug, Clone, Copy, PartialEq, Eq, Hash, Structural)]
pub struct ConstraintAdjustment {
    pub slide_x: bool,
    pub slide_y: bool,
    pub flip_x: bool,
    pub flip_y: bool,
    pub resize_x: bool,
    pub resize_y: bool,
}

impl ConstraintAdjustment {
    /// The adjustments as the protocol's bit set.
    pub open spec fn spec_bits(self) -> u32 {
        ((if self.slide_x { 1int } else { 0 }) + (if self.slide_y { 2int } else { 0 }) + (if self.flip_x {
            4int
        } else {
            0
        }) + (if self.flip_y { 8int } else { 0 }) + (if self.resize_x { 16int } else { 0 }) + (
        if self.resize_y { 32int } else { 0 })) as u32
    }

    /// The adjustments as the protocol's bit set.
    #[verifier::when_used_as_spec(spec_bits)]
    pub fn bits(self) -> (bits: u32)
        ensures
            bits == self.spec_bits(),
            bits < 64,
    {
        let mut bits: u32 = 0;
        if self.slide_x {
            bits = bits + 1;
        }
        if self.slide_y {
            bits = bits + 2;
        }
        if self.flip_x {
            bits = bits + 4;
        }
        if self.flip_y {
            bits = bits + 8;
        }
        if self.resize_x {
            bits = bits + 16;
        }
        if self.resize_y {
            bits = bits + 32;
        }
        bits
    }

    /// No adjustment at all.
    pub open spec fn spec_empty() -> ConstraintAdjustment {
        ConstraintAdjustment {
            slide_x: false,
            slide_y: false,
            flip_x: false,
            flip_y: false,
            resize_x: false,
            resize_y: false,
        }
    }

    /// No adjustment at all.
    #[verifier::when_used_as_spec(spec_empty)]
    pub fn empty() -> (none: ConstraintAdjustment)
        ensures
            none == ConstraintAdjustment::spec_empty(),
    {
        ConstraintAdjustment {
            slide_x: false,
            slide_y: false,
            flip_x: false,
            flip_y: false,
            resize_x: false,
            resize_y: false,
        }
    }
}

/// A client's description of where a popup should go.
#[derive(Debug, Clone, Copy, PartialEq, Eq, Structural)]
pub struct Positioner {
    /// The size of the popup.
    pub rect_size: Size,
    /// The rectangle on the parent, in the parent's coordinates, that the
    /// popup is placed against.
    pub anchor_rect: Rect,
    /// The edge or corner of the anchor rectangle that gives the anchor point.
    pub anchor_edges: Anchor,
    /// The direction in which the popup extends from the anchor point.
    pub gravity: Gravity,
    /// What may be done to the popup where it does not fit.
    pub constraint_adjustment: ConstraintAdjustment,
    /// A displacement of the popup from where anchor and gravity put it.
    pub offset: Point,
    /// Whether the popup is placed anew when its surroundings change.
    pub reactive: bool,
    /// The size of the parent that the client assumed.
    pub parent_size: Option<Size>,
    /// The configure of the parent that the client answers.
    pub parent_configure: Option<Serial>,
}

impl Positioner {
    /// The positioner of a popup that has asked for nothing yet.
    pub fn new() -> (p: Positioner)
        ensures
            p.rect_size == (Size { w: 0, h: 0 }),
            p.anchor_rect == (Rect { loc: Point { x: 0, y: 0 }, size: Size { w: 0, h: 0 } }),
            p.anchor_edges == Anchor::NoEdge,
            p.gravity == Gravity::NoEdge,
            p.constraint_adjustment == ConstraintAdjustment::empty(),
            p.offset == (Point { x: 0, y: 0 }),
            !p.reactive,
            p.parent_size is None,
            p.parent_configure is None,
    {
        Positioner {
            rect_size: Size { w: 0, h: 0 },
            anchor_rect: Rect { loc: Point { x: 0, y: 0 }, size: Size { w: 0, h: 0 } },
            anchor_edges: Anchor::NoEdge,
            gravity: Gravity::NoEdge,
            constraint_adjustment: ConstraintAdjustment::empty(),
            offset: Point { x: 0, y: 0 },
            reactive: false,
            parent_size: None,
            parent_configure: None,
        }
    }
}

} // verus!

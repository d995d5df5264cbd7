//! Positions, rectangles and frame dimensions.

pub mod boundary;

use vstd::prelude::*;
use crate::binary32::{is_quotient, Single};

verus! {

/// A coordinate or a length along one axis.
pub type Coordinate = Single;

/// A point.
#[derive(Debug, Clone, Copy, PartialEq)]
pub struct Position {
    pub x: Coordinate,
    pub y: Coordinate,
}

/// A rectangle given by its four edges. Nothing orders the edges: a
/// rectangle may be empty or inverted.
#[derive(Debug, Clone, Copy, PartialEq)]
pub struct Rect {
    pub top: Coordinate,
    pub left: Coordinate,
    pub right: Coordinate,
    pub bottom: Coordinate,
}

/// The dimensions of a frame.
#[derive(Debug, Clone, Copy, PartialEq)]
pub struct Frame {
    pub width: Coordinate,
    pub height: Coordinate,
}

impl Frame {
    /// By how much the frame must be scaled to have the given width: the
    /// width divided by the frame's own. A frame without width has no such
    /// factor, and the quotient is infinite or not a number.
    pub fn calculate_scale_width(&self, width: Coordinate) -> (factor: Coordinate)
        ensures
            factor == Single::quotient(width, self.width),
            is_quotient(factor.bits, width.bits, self.width.bits),
    {
        width.div(self.width)
    }

    /// By how much the frame must be scaled to have the given height: the
    /// height divided by the frame's own. A frame without height has no such
    /// factor, and the quotient is infinite or not a number.
    pub fn calculate_scale_height(&self, height: Coordinate) -> (factor: Coordinate)
        ensures
            factor == Single::quotient(height, self.height),
            is_quotient(factor.bits, height.bits, self.height.bits),
    {
        height.div(self.height)
    }
}

impl Default for Position {
    /// The origin.
    fn default() -> (position: Self)
        ensures
            position.x.bits == 0,
            position.y.bits == 0,
    {
        Position { x: Single::zero(), y: Single::zero() }
    }
}

impl Default for Rect {
    /// The rectangle with every edge at zero.
    fn default() -> (rect: Self)
        ensures
            rect.top.bits == 0,
            rect.left.bits == 0,
            rect.right.bits == 0,
            rect.bottom.bits == 0,
    {
        Rect { top: Single::zero(), left: Single::zero(), right: Single::zero(), bottom: Single::zero() }
    }
}

impl Default for Frame {
    /// The frame without extent.
    fn default() -> (frame: Self)
        ensures
            frame.width.bits == 0,
            frame.height.bits == 0,
    {
        Frame { width: Single::zero(), height: Single::zero() }
    }
}

} // verus!

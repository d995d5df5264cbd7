//! Positions, rectangles and frames as a caller holds them who may hold
//! nothing.
//!
//! What such a caller may lack is an `Option`. A getter answers zero for
//! what is lacking, a setter does nothing to it.

use vstd::prelude::*;
use crate::binary32::Single;
use crate::geometry::{Coordinate, Frame, Position, Rect};

verus! {

/// A new position, owned by the caller.
pub fn position_new(x: Coordinate, y: Coordinate) -> (position: Box<Position>)
    ensures
        *position == (Position { x, y }),
{
    Box::new(Position { x, y })
}

/// The horizontal coordinate of a position, or zero for no position.
pub fn position_get_x(position: Option<&Position>) -> (x: Coordinate)
    ensures
        x == match position {
            Some(position) => position.x,
            None => Single { bits: 0 },
        },
{
    match position {
        Some(position) => position.x,
        None => Single::zero(),
    }
}

/// The vertical coordinate of a position, or zero for no position.
pub fn position_get_y(position: Option<&Position>) -> (y: Coordinate)
    ensures
        y == match position {
            Some(position) => position.y,
            None => Single { bits: 0 },
        },
{
    match position {
        Some(position) => position.y,
        None => Single::zero(),
    }
}

/// Replaces the horizontal coordinate of a position and nothing else. For no position it does nothing.
pub fn position_set_x(position: Option<&mut Position>, x: Coordinate)
    ensures
        match position {
            Some(position) => *final(position) == (Position { x, ..*position }),
            None => true,
        },
{
    match position {
        Some(position) => {
            position.x = x;
        },
        None => {},
    }
}

/// Replaces the vertical coordinate of a position and nothing else. For no position it does nothing.
pub fn position_set_y(position: Option<&mut Position>, y: Coordinate)
    ensures
        match position {
            Some(position) => *final(position) == (Position { y, ..*position }),
            None => true,
        },
{
    match position {
        Some(position) => {
            position.y = y;
        },
        None => {},
    }
}

/// A new rectangle, owned by the caller.
pub fn rect_new(top: Coordinate, left: Coordinate, right: Coordinate, bottom: Coordinate) -> (rect: Box<Rect>)
    ensures
        *rect == (Rect { top, left, right, bottom }),
{
    Box::new(Rect { top, left, right, bottom })
}

/// The top edge of a rectangle, or zero for no rect.
pub fn rect_get_top(rect: Option<&Rect>) -> (top: Coordinate)
    ensures
        top == match rect {
            Some(rect) => rect.top,
            None => Single { bits: 0 },
        },
{
    match rect {
        Some(rect) => rect.top,
        None => Single::zero(),
    }
}

/// The bottom edge of a rectangle, or zero for no rect.
pub fn rect_get_bottom(rect: Option<&Rect>) -> (bottom: Coordinate)
    ensures
        bottom == match rect {
            Some(rect) => rect.bottom,
            None => Single { bits: 0 },
        },
{
    match rect {
        Some(rect) => rect.bottom,
        None => Single::zero(),
    }
}

/// The left edge of a rectangle, or zero for no rect.
pub fn rect_get_left(rect: Option<&Rect>) -> (left: Coordinate)
    ensures
        left == match rect {
            Some(rect) => rect.left,
            None => Single { bits: 0 },
        },
{
    match rect {
        Some(rect) => rect.left,
        None => Single::zero(),
    }
}

/// The right edge of a rectangle, or zero for no rect.
pub fn rect_get_right(rect: Option<&Rect>) -> (right: Coordinate)
    ensures
        right == match rect {
            Some(rect) => rect.right,
            None => Single { bits: 0 },
        },
{
    match rect {
        Some(rect) => rect.right,
        None => Single::zero(),
    }
}

/// Replaces the top edge of a rectangle and nothing else. For no rect it does nothing.
pub fn rect_set_top(rect: Option<&mut Rect>, top: Coordinate)
    ensures
        match rect {
            Some(rect) => *final(rect) == (Rect { top, ..*rect }),
            None => true,
        },
{
    match rect {
        Some(rect) => {
            rect.top = top;
        },
        None => {},
    }
}

/// Replaces the bottom edge of a rectangle and nothing else. For no rect it does nothing.
pub fn rect_set_bottom(rect: Option<&mut Rect>, bottom: Coordinate)
    ensures
        match rect {
            Some(rect) => *final(rect) == (Rect { bottom, ..*rect }),
            None => true,
        },
{
    match rect {
        Some(rect) => {
            rect.bottom = bottom;
        },
        None => {},
    }
}

/// Replaces the left edge of a rectangle and nothing else. For no rect it does nothing.
pub fn rect_set_left(rect: Option<&mut Rect>, left: Coordinate)
    ensures
        match rect {
            Some(rect) => *final(rect) == (Rect { left, ..*rect }),
            None => true,
        },
{
    match rect {
        Some(rect) => {
            rect.left = left;
        },
        None => {},
    }
}

/// Replaces the right edge of a rectangle and nothing else. For no rect it does nothing.
pub fn rect_set_right(rect: Option<&mut Rect>, right: Coordinate)
    ensures
        match rect {
            Some(rect) => *final(rect) == (Rect { right, ..*rect }),
            None => true,
        },
{
    match rect {
        Some(rect) => {
            rect.right = right;
        },
        None => {},
    }
}

/// New frame dimensions, owned by the caller.
pub fn frame_new(width: Coordinate, height: Coordinate) -> (frame: Box<Frame>)
    ensures
        *frame == (Frame { width, height }),
{
    Box::new(Frame { width, height })
}

/// The width of a frame, or zero for no frame.
pub fn frame_get_width(frame: Option<&Frame>) -> (width: Coordinate)
    ensures
        width == match frame {
            Some(frame) => frame.width,
            None => Single { bits: 0 },
        },
{
    match frame {
        Some(frame) => frame.width,
        None => Single::zero(),
    }
}

/// The height of a frame, or zero for no frame.
pub fn frame_get_height(frame: Option<&Frame>) -> (height: Coordinate)
    ensures
        height == match frame {
            Some(frame) => frame.height,
            None => Single { bits: 0 },
        },
{
    match frame {
        Some(frame) => frame.height,
        None => Single::zero(),
    }
}

/// Replaces the width of a frame and nothing else. For no frame it does nothing.
pub fn frame_set_width(frame: Option<&mut Frame>, width: Coordinate)
    ensures
        match frame {
            Some(frame) => *final(frame) == (Frame { width, ..*frame }),
            None => true,
        },
{
    match frame {
        Some(frame) => {
            frame.width = width;
        },
        None => {},
    }
}

/// Replaces the height of a frame and nothing else. For no frame it does nothing.
pub fn frame_set_height(frame: Option<&mut Frame>, height: Coordinate)
    ensures
        match frame {
            Some(frame) => *final(frame) == (Frame { height, ..*frame }),
            None => true,
        },
{
    match frame {
        Some(frame) => {
            frame.height = height;
        },
        None => {},
    }
}

/// By how much a frame must be scaled to have the given width, or zero for
/// no frame.
pub fn frame_calculate_scale_width(frame: Option<&Frame>, width: Coordinate) -> (factor: Coordinate)
    ensures
        factor == match frame {
            Some(frame) => Single::quotient(width, frame.width),
            None => Single { bits: 0 },
        },
{
    match frame {
        Some(frame) => frame.calculate_scale_width(width),
        None => Single::zero(),
    }
}

/// By how much a frame must be scaled to have the given height, or zero
/// for no frame.
pub fn frame_calculate_scale_height(frame: Option<&Frame>, height: Coordinate) -> (factor: Coordinate)
    ensures
        factor == match frame {
            Some(frame) => Single::quotient(height, frame.height),
            None => Single { bits: 0 },
        },
{
    match frame {
        Some(frame) => frame.calculate_scale_height(height),
        None => Single::zero(),
    }
}

} // verus!

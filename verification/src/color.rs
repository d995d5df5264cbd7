//! Colour description of video frames.

pub mod spaces;

//! Frames of video as a caller holds them who may hold nothing.
//!
//! A getter answers [`COption::Absent`] for no frame, which a caller can
//! tell from every value that a frame can hold. A setter does nothing to
//! no frame.

use vstd::prelude::*;
use crate::frame::{Frame, FrameContent};
use crate::geometry;
use crate::profile::Profile;

verus! {

/// A value, or that there is none.
#[derive(Debug, PartialEq, Eq)]
pub enum COption<T> {
    Present(T),
    Absent,
}

/// A copy of the profile of a frame.
pub fn frame_get_profile(frame: Option<&Frame>) -> (profile: COption<Profile>)
    ensures
        profile == match frame {
            Some(frame) => COption::Present(frame@.profile),
            None => COption::Absent,
        },
{
    match frame {
        Some(frame) => COption::Present(frame.profile),
        None => COption::Absent,
    }
}

/// The aspect ratio of a frame.
pub fn frame_get_aspect_ratio(frame: Option<&Frame>) -> (aspect_ratio: COption<geometry::Coordinate>)
    ensures
        aspect_ratio == match frame {
            Some(frame) => COption::Present(frame@.aspect_ratio),
            None => COption::Absent,
        },
{
    match frame {
        Some(frame) => COption::Present(frame.aspect_ratio),
        None => COption::Absent,
    }
}

/// The viewport of a frame.
pub fn frame_get_viewport(frame: Option<&Frame>) -> (viewport: COption<geometry::Frame>)
    ensures
        viewport == match frame {
            Some(frame) => COption::Present(frame@.viewport),
            None => COption::Absent,
        },
{
    match frame {
        Some(frame) => COption::Present(frame.viewport),
        None => COption::Absent,
    }
}

/// The position of a frame.
pub fn frame_get_position(frame: Option<&Frame>) -> (position: COption<geometry::Position>)
    ensures
        position == match frame {
            Some(frame) => COption::Present(frame@.position),
            None => COption::Absent,
        },
{
    match frame {
        Some(frame) => COption::Present(frame.position),
        None => COption::Absent,
    }
}

/// Replaces the profile of a frame and nothing else.
pub fn frame_set_profile(frame: Option<&mut Frame>, profile: Profile)
    ensures
        match frame {
            Some(frame) => final(frame)@ == (FrameContent { profile, ..frame@ }),
            None => true,
        },
{
    match frame {
        Some(frame) => {
            frame.profile = profile;
        },
        None => {},
    }
}

/// Replaces the aspect ratio of a frame and nothing else.
pub fn position_set_aspect_ratio(frame: Option<&mut Frame>, aspect_ratio: geometry::Coordinate)
    ensures
        match frame {
            Some(frame) => final(frame)@ == (FrameContent { aspect_ratio, ..frame@ }),
            None => true,
        },
{
    match frame {
        Some(frame) => {
            frame.aspect_ratio = aspect_ratio;
        },
        None => {},
    }
}

/// Replaces the viewport of a frame and nothing else.
pub fn position_set_viewport(frame: Option<&mut Frame>, viewport: geometry::Frame)
    ensures
        match frame {
            Some(frame) => final(frame)@ == (FrameContent { viewport, ..frame@ }),
            None => true,
        },
{
    match frame {
        Some(frame) => {
            frame.viewport = viewport;
        },
        None => {},
    }
}

/// Replaces the speed of a frame and nothing else.
pub fn position_set_speed(frame: Option<&mut Frame>, speed: i8)
    ensures
        match frame {
            Some(frame) => final(frame)@ == (FrameContent { speed, ..frame@ }),
            None => true,
        },
{
    match frame {
        Some(frame) => {
            frame.speed = speed;
        },
        None => {},
    }
}

} // verus!

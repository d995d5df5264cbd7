//! A frame of video on its way through the pipeline.

pub mod boundary;

use vstd::prelude::*;
use crate::binary32::Single;
use crate::geometry;
use crate::profile::Profile;
use crate::structures::properties::Properties;

verus! {

/// Data about a frame. Nothing is kept here yet.
#[derive(Debug, Clone, Copy, PartialEq, Eq, Structural)]
pub struct FrameMetaData {}

impl Default for FrameMetaData {
    fn default() -> (meta: Self) {
        FrameMetaData {  }
    }
}

/// A frame of video: its format, where and how large it is shown, and
/// what the pipeline has attached to it.
pub struct Frame {
    pub profile: Profile,
    pub aspect_ratio: Single,
    pub viewport: geometry::Frame,
    pub properties: Properties,
    pub meta: FrameMetaData,
    position: geometry::Position,
    speed: i8,
}

/// What a [`Frame`] holds, its position and speed included.
pub struct FrameContent {
    pub profile: Profile,
    pub aspect_ratio: Single,
    pub viewport: geometry::Frame,
    pub properties: Properties,
    pub meta: FrameMetaData,
    pub position: geometry::Position,
    pub speed: i8,
}

impl FrameContent {
    /// Whether this is what a new frame holds: the initial profile, no
    /// extent, no property, the origin for a position and no speed.
    pub open spec fn is_initial(self) -> bool {
        &&& self.profile == Profile::initial()
        &&& self.aspect_ratio.bits == 0
        &&& self.viewport.width.bits == 0
        &&& self.viewport.height.bits == 0
        &&& self.properties.entries().len() == 0
        &&& self.position.x.bits == 0
        &&& self.position.y.bits == 0
        &&& self.speed == 0
    }
}

impl View for Frame {
    type V = FrameContent;

    closed spec fn view(&self) -> FrameContent {
        FrameContent {
            profile: self.profile,
            aspect_ratio: self.aspect_ratio,
            viewport: self.viewport,
            properties: self.properties,
            meta: self.meta,
            position: self.position,
            speed: self.speed,
        }
    }
}

impl Frame {
    /// Where the frame is shown.
    pub fn position(&self) -> (position: geometry::Position)
        ensures
            position == self@.position,
    {
        self.position
    }

    /// The speed at which the frame is played.
    pub fn speed(&self) -> (speed: i8)
        ensures
            speed == self@.speed,
    {
        self.speed
    }
}

impl Default for Frame {
    fn default() -> (frame: Self)
        ensures
            frame@.is_initial(),
    {
        Frame {
            profile: Profile::default(),
            aspect_ratio: Single::zero(),
            viewport: geometry::Frame::default(),
            properties: Properties::default(),
            meta: FrameMetaData {  },
            position: geometry::Position::default(),
            speed: 0,
        }
    }
}

/// Stages a frame field by field.
pub struct FrameBuilder(Frame);

impl View for FrameBuilder {
    type V = FrameContent;

    /// What the frame staged so far holds.
    closed spec fn view(&self) -> FrameContent {
        self.0@
    }
}

impl FrameBuilder {
    /// A builder that stages a new frame.
    pub fn new() -> (builder: Self)
        ensures
            builder@.is_initial(),
    {
        Self(Frame::default())
    }

    /// The staged frame.
    pub fn build(self) -> (frame: Frame)
        ensures
            frame@ == self@,
    {
        self.0
    }

    /// Replaces the profile, by a copy of the given one, and nothing else.
    pub fn set_profile(&mut self, profile: &Profile) -> (builder: &Self)
        ensures
            final(self)@ == (FrameContent { profile: *profile, ..old(self)@ }),
            *builder == *final(self),
    {
        self.0.profile = *profile;
        self
    }

    /// Replaces the aspect ratio and nothing else.
    pub fn set_aspect_ratio(&mut self, aspect_ratio: geometry::Coordinate) -> (builder: &Self)
        ensures
            final(self)@ == (FrameContent { aspect_ratio, ..old(self)@ }),
            *builder == *final(self),
    {
        self.0.aspect_ratio = aspect_ratio;
        self
    }

    /// Replaces the viewport and nothing else.
    pub fn set_viewport(&mut self, viewport: geometry::Frame) -> (builder: &Self)
        ensures
            final(self)@ == (FrameContent { viewport, ..old(self)@ }),
            *builder == *final(self),
    {
        self.0.viewport = viewport;
        self
    }

    /// Replaces the properties and nothing else.
    pub fn set_properties(&mut self, properties: Properties) -> (builder: &Self)
        ensures
            final(self)@ == (FrameContent { properties, ..old(self)@ }),
            *builder == *final(self),
    {
        self.0.properties = properties;
        self
    }

    /// Replaces the data about the frame and nothing else.
    pub fn set_meta(&mut self, meta: FrameMetaData) -> (builder: &Self)
        ensures
            final(self)@ == (FrameContent { meta, ..old(self)@ }),
            *builder == *final(self),
    {
        self.0.meta = meta;
        self
    }

    /// Replaces the position and nothing else.
    pub fn set_position(&mut self, position: geometry::Position) -> (builder: &Self)
        ensures
            final(self)@ == (FrameContent { position, ..old(self)@ }),
            *builder == *final(self),
    {
        self.0.position = position;
        self
    }

    /// Replaces the speed and nothing else.
    pub fn set_speed(&mut self, speed: i8) -> (builder: &Self)
        ensures
            final(self)@ == (FrameContent { speed, ..old(self)@ }),
            *builder == *final(self),
    {
        self.0.speed = speed;
        self
    }
}

} // verus!

//! Video profiles: the geometry, timing and colour of a video format.

use vstd::prelude::*;
use crate::binary32::{is_quotient, Single};
use crate::color::spaces::ColorSpace;
use crate::geometry;
use crate::text::str_eq;

verus! {

/// How the lines of a frame are scanned.
#[derive(Debug, Clone, Copy, PartialEq, Eq, Structural)]
pub enum RenderType {
    /// Two fields of alternating lines.
    Interlace,
    /// Every line in order. A new profile is progressive.
    Progressive,
}

impl Default for RenderType {
    fn default() -> (render_type: Self)
        ensures
            render_type == RenderType::Progressive,
    {
        RenderType::Progressive
    }
}

impl RenderType {
    /// The tag name by which a preset definition selects this scan.
    pub open spec fn tag(self) -> Seq<char> {
        match self {
            RenderType::Interlace => "Interlace"@,
            RenderType::Progressive => "Progressive"@,
        }
    }

    /// The scan that a tag name selects, if it selects one.
    pub open spec fn tagged(name: Seq<char>) -> Option<RenderType> {
        if name == "Interlace"@ {
            Some(RenderType::Interlace)
        } else if name == "Progressive"@ {
            Some(RenderType::Progressive)
        } else {
            None
        }
    }

    /// Reads a tag name. The match is exact: case and spelling count.
    pub fn from_tag(name: &str) -> (found: Option<RenderType>)
        ensures
            found == RenderType::tagged(name@),
            found matches Some(render_type) ==> render_type.tag() == name@,
            found is None ==> forall|render_type: RenderType| render_type.tag() != name@,
    {
        if str_eq(name, "Interlace") {
            Some(RenderType::Interlace)
        } else if str_eq(name, "Progressive") {
            Some(RenderType::Progressive)
        } else {
            None
        }
    }
}

/// Whether the values of a profile were stated or derived.
#[derive(Debug, Clone, Copy, PartialEq, Eq, Structural)]
pub enum ExplicitType {
    /// Derived from the material. A new profile is computed.
    Computed,
    /// Stated by whoever made the profile.
    Explicitly,
}

impl Default for ExplicitType {
    fn default() -> (explicit_type: Self)
        ensures
            explicit_type == ExplicitType::Computed,
    {
        ExplicitType::Computed
    }
}

impl ExplicitType {
    /// The tag name by which a preset definition selects this origin.
    pub open spec fn tag(self) -> Seq<char> {
        match self {
            ExplicitType::Computed => "Computed"@,
            ExplicitType::Explicitly => "Explicitly"@,
        }
    }

    /// The origin that a tag name selects, if it selects one.
    pub open spec fn tagged(name: Seq<char>) -> Option<ExplicitType> {
        if name == "Computed"@ {
            Some(ExplicitType::Computed)
        } else if name == "Explicitly"@ {
            Some(ExplicitType::Explicitly)
        } else {
            None
        }
    }

    /// Reads a tag name. The match is exact: case and spelling count.
    pub fn from_tag(name: &str) -> (found: Option<ExplicitType>)
        ensures
            found == ExplicitType::tagged(name@),
            found matches Some(explicit_type) ==> explicit_type.tag() == name@,
            found is None ==> forall|explicit_type: ExplicitType| explicit_type.tag() != name@,
    {
        if str_eq(name, "Computed") {
            Some(ExplicitType::Computed)
        } else if str_eq(name, "Explicitly") {
            Some(ExplicitType::Explicitly)
        } else {
            None
        }
    }
}

/// A rate or a proportion, kept as the two numbers it was stated with.
#[derive(Debug, PartialEq, Eq, Default)]
pub struct Ratio<Number, Denominator = Number> {
    pub number: Number,
    pub denominator: Denominator,
}

impl<Number: Clone, Denominator: Clone> Clone for Ratio<Number, Denominator> {
    fn clone(&self) -> (copy: Self) {
        Ratio { number: self.number.clone(), denominator: self.denominator.clone() }
    }
}

impl<Number: Copy, Denominator: Copy> Copy for Ratio<Number, Denominator> {

}

/// The description of a video format.
#[derive(Debug, Clone, Copy, PartialEq)]
pub struct Profile {
    pub frame: geometry::Frame,
    pub frame_rate: Ratio<Single>,
    pub sample_aspect: Ratio<Single>,
    pub display_aspect: Ratio<Single>,
    pub color_space: ColorSpace,
    pub explicit_type: ExplicitType,
    pub render_type: RenderType,
}

impl Profile {
    /// The profile of a new builder: no extent, every ratio zero over zero,
    /// no colour space, computed, progressive.
    pub open spec fn initial() -> Profile {
        Profile {
            frame: geometry::Frame { width: Single { bits: 0 }, height: Single { bits: 0 } },
            frame_rate: Ratio { number: Single { bits: 0 }, denominator: Single { bits: 0 } },
            sample_aspect: Ratio { number: Single { bits: 0 }, denominator: Single { bits: 0 } },
            display_aspect: Ratio { number: Single { bits: 0 }, denominator: Single { bits: 0 } },
            color_space: ColorSpace::Invalid,
            explicit_type: ExplicitType::Computed,
            render_type: RenderType::Progressive,
        }
    }
}

impl Profile {
    /// The frame rate as one number: the number of the rate divided by its
    /// denominator. Nothing guards the denominator: a rate over zero is
    /// infinite, and zero over zero is not a number.
    pub fn calculate_fps(&self) -> (fps: Single)
        ensures
            fps == Single::quotient(self.frame_rate.number, self.frame_rate.denominator),
            is_quotient(fps.bits, self.frame_rate.number.bits, self.frame_rate.denominator.bits),
    {
        self.frame_rate.number.div(self.frame_rate.denominator)
    }

    /// The sample aspect ratio as one number: its number divided by its
    /// denominator.
    pub fn calculate_sar(&self) -> (sar: Single)
        ensures
            sar == Single::quotient(self.sample_aspect.number, self.sample_aspect.denominator),
            is_quotient(sar.bits, self.sample_aspect.number.bits, self.sample_aspect.denominator.bits),
    {
        self.sample_aspect.number.div(self.sample_aspect.denominator)
    }

    /// The display aspect ratio as one number: the number of the display
    /// aspect divided by the denominator of the sample aspect. The
    /// denominator of the display aspect takes no part.
    pub fn calculate_dar(&self) -> (dar: Single)
        ensures
            dar == Single::quotient(self.display_aspect.number, self.sample_aspect.denominator),
            is_quotient(dar.bits, self.display_aspect.number.bits, self.sample_aspect.denominator.bits),
    {
        self.display_aspect.number.div(self.sample_aspect.denominator)
    }
}

impl View for Profile {
    type V = Profile;

    /// A profile is plain data: it is its own content.
    open spec fn view(&self) -> Profile {
        *self
    }
}

impl Default for Profile {
    fn default() -> (profile: Self)
        ensures
            profile == Profile::initial(),
    {
        Profile {
            frame: geometry::Frame { width: Single::zero(), height: Single::zero() },
            frame_rate: Ratio { number: Single::zero(), denominator: Single::zero() },
            sample_aspect: Ratio { number: Single::zero(), denominator: Single::zero() },
            display_aspect: Ratio { number: Single::zero(), denominator: Single::zero() },
            color_space: ColorSpace::Invalid,
            explicit_type: ExplicitType::Computed,
            render_type: RenderType::Progressive,
        }
    }
}

/// Stages a profile field by field. Building copies what is staged, so a
/// builder can be built from again, before or after further changes.
pub struct ProfileBuilder(Profile);

impl View for ProfileBuilder {
    type V = Profile;

    /// The profile staged so far.
    closed spec fn view(&self) -> Profile {
        self.0
    }
}

impl ProfileBuilder {
    /// A builder that stages the initial profile.
    pub fn new() -> (builder: Self)
        ensures
            builder@ == Profile::initial(),
    {
        Self(Profile::default())
    }

    /// Replaces the frame rate and nothing else.
    pub fn set_frame_rate(&mut self, frame_rate: Ratio<Single>) -> (builder: &mut Self)
        ensures
            builder@ == (Profile { frame_rate, ..old(self)@ }),
            *final(self) == *final(builder),
    {
        self.0.frame_rate = frame_rate;
        self
    }

    /// Replaces the frame dimensions and nothing else.
    pub fn set_frame(&mut self, frame: geometry::Frame) -> (builder: &mut Self)
        ensures
            builder@ == (Profile { frame, ..old(self)@ }),
            *final(self) == *final(builder),
    {
        self.0.frame = frame;
        self
    }

    /// Replaces the sample aspect ratio and nothing else.
    pub fn set_sample_aspect(&mut self, sample_aspect: Ratio<Single>) -> (builder: &mut Self)
        ensures
            builder@ == (Profile { sample_aspect, ..old(self)@ }),
            *final(self) == *final(builder),
    {
        self.0.sample_aspect = sample_aspect;
        self
    }

    /// Replaces the display aspect ratio and nothing else.
    pub fn set_display_aspect(&mut self, display_aspect: Ratio<Single>) -> (builder: &mut Self)
        ensures
            builder@ == (Profile { display_aspect, ..old(self)@ }),
            *final(self) == *final(builder),
    {
        self.0.display_aspect = display_aspect;
        self
    }

    /// Replaces the colour space and nothing else.
    pub fn set_color_space(&mut self, color_space: ColorSpace) -> (builder: &mut Self)
        ensures
            builder@ == (Profile { color_space, ..old(self)@ }),
            *final(self) == *final(builder),
    {
        self.0.color_space = color_space;
        self
    }

    /// Replaces the origin of the values and nothing else.
    pub fn set_explicit_type(&mut self, explicit_type: ExplicitType) -> (builder: &mut Self)
        ensures
            builder@ == (Profile { explicit_type, ..old(self)@ }),
            *final(self) == *final(builder),
    {
        self.0.explicit_type = explicit_type;
        self
    }

    /// Replaces the scan and nothing else.
    pub fn set_render_type(&mut self, render_type: RenderType) -> (builder: &mut Self)
        ensures
            builder@ == (Profile { render_type, ..old(self)@ }),
            *final(self) == *final(builder),
    {
        self.0.render_type = render_type;
        self
    }

    /// A copy of the staged profile. The builder keeps what it staged.
    pub fn build(&self) -> (profile: Profile)
        ensures
            profile == self@,
    {
        self.0
    }
}

} // verus!

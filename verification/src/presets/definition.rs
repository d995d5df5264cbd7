//! Preset definitions: the fields a document must have, and what profile
//! they describe.

use vstd::prelude::*;
use crate::binary32::Single;
use crate::color::spaces::ColorSpace;
use crate::geometry;
use crate::presets::json::{object_content, object_get, value_as_i64, value_as_object, value_as_str, JsonContent};
use crate::profile::{ExplicitType, Profile, ProfileBuilder, Ratio, RenderType};

verus! {

/// A field of a definition.
#[derive(Debug, Clone, Copy, PartialEq, Eq, Structural)]
pub enum Field {
    Description,
    Frame,
    FrameWidth,
    FrameHeight,
    FrameRate,
    FrameRateNumber,
    FrameRateDenominator,
    SampleAspect,
    SampleAspectNumber,
    SampleAspectDenominator,
    DisplayAspect,
    DisplayAspectNumber,
    DisplayAspectDenominator,
    ExplicitType,
    RenderType,
    ColorSpace,
}

/// Why a text defines no preset.
#[derive(Debug, Clone, Copy, PartialEq, Eq, Structural)]
pub enum PresetError {
    /// The text is not a JSON object.
    Malformed,
    /// The field is absent.
    Missing(Field),
    /// The field holds a value of another kind than it must: a description
    /// or a tag that is no string, a section that is no object, a number
    /// that is no integer of 64 bits.
    Mistyped(Field),
    /// The tag names no variant.
    UnknownTag(Field),
}

/// The members of a JSON object.
pub type Members = Map<Seq<char>, JsonContent>;

/// The string under a name.
pub open spec fn text_of(members: Members, name: Seq<char>, field: Field) -> Result<Seq<char>, PresetError> {
    if !members.contains_key(name) {
        Err(PresetError::Missing(field))
    } else {
        match members[name] {
            JsonContent::Text(text) => Ok(text),
            _ => Err(PresetError::Mistyped(field)),
        }
    }
}

/// The members of the object under a name.
pub open spec fn section_of(members: Members, name: Seq<char>, field: Field) -> Result<Members, PresetError> {
    if !members.contains_key(name) {
        Err(PresetError::Missing(field))
    } else {
        match members[name] {
            JsonContent::Object(section) => Ok(section),
            _ => Err(PresetError::Mistyped(field)),
        }
    }
}

/// The integer under a name.
pub open spec fn integer_of(members: Members, name: Seq<char>, field: Field) -> Result<i64, PresetError> {
    if !members.contains_key(name) {
        Err(PresetError::Missing(field))
    } else {
        match members[name] {
            JsonContent::Integer(number) => if i64::MIN <= number <= i64::MAX {
                Ok(number as i64)
            } else {
                Err(PresetError::Mistyped(field))
            },
            _ => Err(PresetError::Mistyped(field)),
        }
    }
}

/// The two integers of a section, the first under `first_name`.
pub open spec fn pair_of(
    section: Members,
    first_name: Seq<char>,
    first_field: Field,
    second_name: Seq<char>,
    second_field: Field,
) -> Result<(i64, i64), PresetError> {
    match integer_of(section, first_name, first_field) {
        Err(error) => Err(error),
        Ok(first) => match integer_of(section, second_name, second_field) {
            Err(error) => Err(error),
            Ok(second) => Ok((first, second)),
        },
    }
}

/// The top level of a definition: the description, the four sections and
/// the three tags, as the document holds them.
pub struct Outline {
    pub description: Seq<char>,
    pub frame: Members,
    pub frame_rate: Members,
    pub sample_aspect: Members,
    pub display_aspect: Members,
    pub explicit_type: Seq<char>,
    pub render_type: Seq<char>,
    pub color_space: Seq<char>,
}

/// The top level of a document, or the first of its fields, in the order of
/// [`Outline`], that is absent or of the wrong kind.
pub open spec fn outline_of(document: Members) -> Result<Outline, PresetError> {
    match text_of(document, "description"@, Field::Description) {
        Err(error) => Err(error),
        Ok(description) => match section_of(document, "frame"@, Field::Frame) {
            Err(error) => Err(error),
            Ok(frame) => match section_of(document, "frame_rate"@, Field::FrameRate) {
                Err(error) => Err(error),
                Ok(frame_rate) => match section_of(document, "sample_aspect"@, Field::SampleAspect) {
                    Err(error) => Err(error),
                    Ok(sample_aspect) => match section_of(document, "display_aspect"@, Field::DisplayAspect) {
                        Err(error) => Err(error),
                        Ok(display_aspect) => match text_of(document, "explicit_type"@, Field::ExplicitType) {
                            Err(error) => Err(error),
                            Ok(explicit_type) => match text_of(document, "render_type"@, Field::RenderType) {
                                Err(error) => Err(error),
                                Ok(render_type) => match text_of(document, "color_space"@, Field::ColorSpace) {
                                    Err(error) => Err(error),
                                    Ok(color_space) => Ok(
                                        Outline {
                                            description,
                                            frame,
                                            frame_rate,
                                            sample_aspect,
                                            display_aspect,
                                            explicit_type,
                                            render_type,
                                            color_space,
                                        },
                                    ),
                                },
                            },
                        },
                    },
                },
            },
        },
    }
}

/// What a document defines: a description and the values of a profile, the
/// numbers as the integers they were written as.
#[derive(Debug)]
pub struct Definition {
    pub description: String,
    pub frame: (i64, i64),
    pub frame_rate: (i64, i64),
    pub sample_aspect: (i64, i64),
    pub display_aspect: (i64, i64),
    pub color_space: ColorSpace,
    pub explicit_type: ExplicitType,
    pub render_type: RenderType,
}

/// A [`Definition`] as mathematics.
pub struct DefinitionContent {
    pub description: Seq<char>,
    pub frame: (i64, i64),
    pub frame_rate: (i64, i64),
    pub sample_aspect: (i64, i64),
    pub display_aspect: (i64, i64),
    pub color_space: ColorSpace,
    pub explicit_type: ExplicitType,
    pub render_type: RenderType,
}

impl View for Definition {
    type V = DefinitionContent;

    open spec fn view(&self) -> DefinitionContent {
        DefinitionContent {
            description: self.description@,
            frame: self.frame,
            frame_rate: self.frame_rate,
            sample_aspect: self.sample_aspect,
            display_aspect: self.display_aspect,
            color_space: self.color_space,
            explicit_type: self.explicit_type,
            render_type: self.render_type,
        }
    }
}

/// The numbers of an outline, or the first of them that is absent or no
/// integer: width and height of the frame, then number and denominator of
/// the frame rate, of the sample aspect and of the display aspect.
pub open spec fn numbers_of(outline: Outline) -> Result<((i64, i64), (i64, i64), (i64, i64), (i64, i64)), PresetError> {
    match pair_of(outline.frame, "width"@, Field::FrameWidth, "height"@, Field::FrameHeight) {
        Err(error) => Err(error),
        Ok(frame) => match pair_of(
            outline.frame_rate,
            "number"@,
            Field::FrameRateNumber,
            "denominator"@,
            Field::FrameRateDenominator,
        ) {
            Err(error) => Err(error),
            Ok(frame_rate) => match pair_of(
                outline.sample_aspect,
                "number"@,
                Field::SampleAspectNumber,
                "denominator"@,
                Field::SampleAspectDenominator,
            ) {
                Err(error) => Err(error),
                Ok(sample_aspect) => match pair_of(
                    outline.display_aspect,
                    "number"@,
                    Field::DisplayAspectNumber,
                    "denominator"@,
                    Field::DisplayAspectDenominator,
                ) {
                    Err(error) => Err(error),
                    Ok(display_aspect) => Ok((frame, frame_rate, sample_aspect, display_aspect)),
                },
            },
        },
    }
}

/// The variants that the tags of an outline name, or the first tag that
/// names none: colour space, then origin, then scan.
pub open spec fn tags_of(outline: Outline) -> Result<(ColorSpace, ExplicitType, RenderType), PresetError> {
    match ColorSpace::tagged(outline.color_space) {
        None => Err(PresetError::UnknownTag(Field::ColorSpace)),
        Some(color_space) => match ExplicitType::tagged(outline.explicit_type) {
            None => Err(PresetError::UnknownTag(Field::ExplicitType)),
            Some(explicit_type) => match RenderType::tagged(outline.render_type) {
                None => Err(PresetError::UnknownTag(Field::RenderType)),
                Some(render_type) => Ok((color_space, explicit_type, render_type)),
            },
        },
    }
}

/// What a document defines, or the first thing wrong with it: its top
/// level is checked first, then its numbers, then its tags.
pub open spec fn definition_of(document: Members) -> Result<DefinitionContent, PresetError> {
    match outline_of(document) {
        Err(error) => Err(error),
        Ok(outline) => match numbers_of(outline) {
            Err(error) => Err(error),
            Ok(numbers) => match tags_of(outline) {
                Err(error) => Err(error),
                Ok(tags) => Ok(
                    DefinitionContent {
                        description: outline.description,
                        frame: numbers.0,
                        frame_rate: numbers.1,
                        sample_aspect: numbers.2,
                        display_aspect: numbers.3,
                        color_space: tags.0,
                        explicit_type: tags.1,
                        render_type: tags.2,
                    },
                ),
            },
        },
    }
}

/// The profile that a definition describes: each number converted to
/// single precision.
pub open spec fn profile_of(definition: DefinitionContent) -> Profile {
    Profile {
        frame: geometry::Frame {
            width: Single::of_integer(definition.frame.0),
            height: Single::of_integer(definition.frame.1),
        },
        frame_rate: Ratio {
            number: Single::of_integer(definition.frame_rate.0),
            denominator: Single::of_integer(definition.frame_rate.1),
        },
        sample_aspect: Ratio {
            number: Single::of_integer(definition.sample_aspect.0),
            denominator: Single::of_integer(definition.sample_aspect.1),
        },
        display_aspect: Ratio {
            number: Single::of_integer(definition.display_aspect.0),
            denominator: Single::of_integer(definition.display_aspect.1),
        },
        color_space: definition.color_space,
        explicit_type: definition.explicit_type,
        render_type: definition.render_type,
    }
}

/// The string under a name of an object.
fn read_text<'a>(object: &'a serde_json::Map<String, serde_json::Value>, name: &str, field: Field) -> (read:
    Result<&'a str, PresetError>)
    ensures
        match read {
            Ok(text) => text_of(object_content(*object), name@, field) == Ok::<Seq<char>, PresetError>(text@),
            Err(error) => text_of(object_content(*object), name@, field) == Err::<Seq<char>, PresetError>(error),
        },
{
    match object_get(object, name) {
        None => Err(PresetError::Missing(field)),
        Some(value) => match value_as_str(value) {
            None => Err(PresetError::Mistyped(field)),
            Some(text) => Ok(text),
        },
    }
}

/// The object under a name of an object.
fn read_section<'a>(object: &'a serde_json::Map<String, serde_json::Value>, name: &str, field: Field) -> (read:
    Result<&'a serde_json::Map<String, serde_json::Value>, PresetError>)
    ensures
        match read {
            Ok(section) => section_of(object_content(*object), name@, field) == Ok::<Members, PresetError>(
                object_content(*section),
            ),
            Err(error) => section_of(object_content(*object), name@, field) == Err::<Members, PresetError>(error),
        },
{
    match object_get(object, name) {
        None => Err(PresetError::Missing(field)),
        Some(value) => match value_as_object(value) {
            None => Err(PresetError::Mistyped(field)),
            Some(section) => Ok(section),
        },
    }
}

/// The integer under a name of an object.
fn read_integer(object: &serde_json::Map<String, serde_json::Value>, name: &str, field: Field) -> (read: Result<
    i64,
    PresetError,
>)
    ensures
        read == integer_of(object_content(*object), name@, field),
{
    match object_get(object, name) {
        None => Err(PresetError::Missing(field)),
        Some(value) => match value_as_i64(value) {
            None => Err(PresetError::Mistyped(field)),
            Some(number) => Ok(number),
        },
    }
}

/// The two integers of a section.
fn read_pair(
    section: &serde_json::Map<String, serde_json::Value>,
    first_name: &str,
    first_field: Field,
    second_name: &str,
    second_field: Field,
) -> (read: Result<(i64, i64), PresetError>)
    ensures
        read == pair_of(object_content(*section), first_name@, first_field, second_name@, second_field),
{
    let first = match read_integer(section, first_name, first_field) {
        Ok(first) => first,
        Err(error) => {
            return Err(error);
        },
    };
    let second = match read_integer(section, second_name, second_field) {
        Ok(second) => second,
        Err(error) => {
            return Err(error);
        },
    };
    Ok((first, second))
}

impl Definition {
    /// Reads a definition from the members of a JSON object.
    pub fn read(document: &serde_json::Map<String, serde_json::Value>) -> (read: Result<Definition, PresetError>)
        ensures
            match read {
                Ok(definition) => definition_of(object_content(*document)) == Ok::<
                    DefinitionContent,
                    PresetError,
                >(definition@),
                Err(error) => definition_of(object_content(*document)) == Err::<DefinitionContent, PresetError>(
                    error,
                ),
            },
    {
        let description = match read_text(document, "description", Field::Description) {
            Ok(text) => text,
            Err(error) => {
                return Err(error);
            },
        };
        let frame = match read_section(document, "frame", Field::Frame) {
            Ok(section) => section,
            Err(error) => {
                return Err(error);
            },
        };
        let frame_rate = match read_section(document, "frame_rate", Field::FrameRate) {
            Ok(section) => section,
            Err(error) => {
                return Err(error);
            },
        };
        let sample_aspect = match read_section(document, "sample_aspect", Field::SampleAspect) {
            Ok(section) => section,
            Err(error) => {
                return Err(error);
            },
        };
        let display_aspect = match read_section(document, "display_aspect", Field::DisplayAspect) {
            Ok(section) => section,
            Err(error) => {
                return Err(error);
            },
        };
        let explicit_type = match read_text(document, "explicit_type", Field::ExplicitType) {
            Ok(text) => text,
            Err(error) => {
                return Err(error);
            },
        };
        let render_type = match read_text(document, "render_type", Field::RenderType) {
            Ok(text) => text,
            Err(error) => {
                return Err(error);
            },
        };
        let color_space = match read_text(document, "color_space", Field::ColorSpace) {
            Ok(text) => text,
            Err(error) => {
                return Err(error);
            },
        };
        let ghost outline = Outline {
            description: description@,
            frame: object_content(*frame),
            frame_rate: object_content(*frame_rate),
            sample_aspect: object_content(*sample_aspect),
            display_aspect: object_content(*display_aspect),
            explicit_type: explicit_type@,
            render_type: render_type@,
            color_space: color_space@,
        };
        assert(outline_of(object_content(*document)) == Ok::<Outline, PresetError>(outline));
        let frame = match read_pair(frame, "width", Field::FrameWidth, "height", Field::FrameHeight) {
            Ok(pair) => pair,
            Err(error) => {
                return Err(error);
            },
        };
        let frame_rate = match read_pair(
            frame_rate,
            "number",
            Field::FrameRateNumber,
            "denominator",
            Field::FrameRateDenominator,
        ) {
            Ok(pair) => pair,
            Err(error) => {
                return Err(error);
            },
        };
        let sample_aspect = match read_pair(
            sample_aspect,
            "number",
            Field::SampleAspectNumber,
            "denominator",
            Field::SampleAspectDenominator,
        ) {
            Ok(pair) => pair,
            Err(error) => {
                return Err(error);
            },
        };
        let display_aspect = match read_pair(
            display_aspect,
            "number",
            Field::DisplayAspectNumber,
            "denominator",
            Field::DisplayAspectDenominator,
        ) {
            Ok(pair) => pair,
            Err(error) => {
                return Err(error);
            },
        };
        assert(numbers_of(outline) == Ok::<((i64, i64), (i64, i64), (i64, i64), (i64, i64)), PresetError>(
            (frame, frame_rate, sample_aspect, display_aspect),
        ));
        let color_space = match ColorSpace::from_tag(color_space) {
            Some(color_space) => color_space,
            None => {
                return Err(PresetError::UnknownTag(Field::ColorSpace));
            },
        };
        let explicit_type = match ExplicitType::from_tag(explicit_type) {
            Some(explicit_type) => explicit_type,
            None => {
                return Err(PresetError::UnknownTag(Field::ExplicitType));
            },
        };
        let render_type = match RenderType::from_tag(render_type) {
            Some(render_type) => render_type,
            None => {
                return Err(PresetError::UnknownTag(Field::RenderType));
            },
        };
        Ok(
            Definition {
                description: description.to_owned(),
                frame,
                frame_rate,
                sample_aspect,
                display_aspect,
                color_space,
                explicit_type,
                render_type,
            },
        )
    }

    /// The profile that the definition describes.
    pub fn profile(&self) -> (profile: Profile)
        ensures
            profile == profile_of(self@),
    {
        let mut builder = ProfileBuilder::new();
        builder.set_frame(
            geometry::Frame { width: Single::from_i64(self.frame.0), height: Single::from_i64(self.frame.1) },
        ).set_frame_rate(
            Ratio { number: Single::from_i64(self.frame_rate.0), denominator: Single::from_i64(self.frame_rate.1) },
        ).set_sample_aspect(
            Ratio {
                number: Single::from_i64(self.sample_aspect.0),
                denominator: Single::from_i64(self.sample_aspect.1),
            },
        ).set_display_aspect(
            Ratio {
                number: Single::from_i64(self.display_aspect.0),
                denominator: Single::from_i64(self.display_aspect.1),
            },
        ).set_color_space(self.color_space).set_explicit_type(self.explicit_type).set_render_type(
            self.render_type,
        );
        builder.build()
    }
}

} // verus!

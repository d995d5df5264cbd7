//! Data model of a media pipeline: frame geometry, colour spaces, video
//! profiles and their named presets, keyed property stores and raw sample
//! buffers.
//!
//! Single-precision values are held as their IEEE-754 encodings (see
//! [`binary32`]), so that every operation of the library is exact integer
//! arithmetic with a machine-checked contract.
//!
//! - [`geometry`]: positions, rectangles, frame dimensions and scale factors.
//! - [`color`]: the colour spaces a profile can name.
//! - [`profile`]: video profiles, their derived rates and their builder.
//! - [`structures`]: the property store, its typed values, sample buffers.
//! - [`frame`]: a frame of video and what is attached to it.
//! - [`presets`]: the compiler from definition documents to a catalog.
//! - [`text`]: string slices and their encodings.
//!
//! The `boundary` modules hold the same operations for callers that may
//! hold nothing where a value is expected.

pub mod binary32;
pub mod color;
pub mod frame;
pub mod geometry;
pub mod presets;
pub mod profile;
pub mod structures;
pub mod text;

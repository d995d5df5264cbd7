//! Typed values, and the store that keeps them under string keys.

use vstd::prelude::*;
use crate::binary32::Single;
use crate::color::spaces::ColorSpace;
use crate::geometry;
use crate::structures::store::Store;

verus! {

/// A value that says of itself what it is.
#[derive(Debug)]
pub enum PropertyValue {
    /// No value.
    Unset,
    Int(i32),
    Int64(i64),
    /// A single-precision number, whatever the name suggests.
    Double(Single),
    String(String),
    Position(geometry::Position),
    Rect(geometry::Rect),
    /// Raw bytes.
    Buffer(Vec<u8>),
    Color(ColorSpace),
}

/// What a [`PropertyValue`] holds, as mathematics.
pub enum PropertyContent {
    Unset,
    Int(i32),
    Int64(i64),
    Double(Single),
    String(Seq<char>),
    Position(geometry::Position),
    Rect(geometry::Rect),
    Buffer(Seq<u8>),
    Color(ColorSpace),
}

impl View for PropertyValue {
    type V = PropertyContent;

    open spec fn view(&self) -> PropertyContent {
        match self {
            PropertyValue::Unset => PropertyContent::Unset,
            PropertyValue::Int(value) => PropertyContent::Int(*value),
            PropertyValue::Int64(value) => PropertyContent::Int64(*value),
            PropertyValue::Double(value) => PropertyContent::Double(*value),
            PropertyValue::String(text) => PropertyContent::String(text@),
            PropertyValue::Position(position) => PropertyContent::Position(*position),
            PropertyValue::Rect(rect) => PropertyContent::Rect(*rect),
            PropertyValue::Buffer(bytes) => PropertyContent::Buffer(bytes@),
            PropertyValue::Color(space) => PropertyContent::Color(*space),
        }
    }
}

impl Default for PropertyValue {
    fn default() -> (value: Self)
        ensures
            value@ == PropertyContent::Unset,
    {
        PropertyValue::Unset
    }
}

impl Clone for PropertyValue {
    /// A value of the same variant with the same content.
    fn clone(&self) -> (copy: Self)
        ensures
            copy@ == self@,
    {
        match self {
            PropertyValue::Unset => PropertyValue::Unset,
            PropertyValue::Int(value) => PropertyValue::Int(*value),
            PropertyValue::Int64(value) => PropertyValue::Int64(*value),
            PropertyValue::Double(value) => PropertyValue::Double(*value),
            PropertyValue::String(text) => PropertyValue::String(text.clone()),
            PropertyValue::Position(position) => PropertyValue::Position(*position),
            PropertyValue::Rect(rect) => PropertyValue::Rect(*rect),
            PropertyValue::Buffer(bytes) => PropertyValue::Buffer(bytes.clone()),
            PropertyValue::Color(space) => PropertyValue::Color(*space),
        }
    }
}

/// A store of typed values under string keys. A key has at most one value,
/// and the last value set under a key is the one it has.
pub type Properties = Store<PropertyValue>;

} // verus!

//! Owned arrays of samples.

use vstd::prelude::*;
use crate::binary32::Single;

verus! {

/// An array of samples of one of four kinds. A buffer holds the samples of
/// one kind and no other.
#[derive(Debug)]
pub enum Buffer {
    OwnedU8(Vec<u8>),
    OwnedI16(Vec<i16>),
    OwnedI32(Vec<i32>),
    /// Single-precision samples.
    OwnedF32(Vec<Single>),
}

impl Buffer {
    /// The number of samples.
    pub open spec fn count(&self) -> nat {
        match self {
            Buffer::OwnedU8(samples) => samples@.len(),
            Buffer::OwnedI16(samples) => samples@.len(),
            Buffer::OwnedI32(samples) => samples@.len(),
            Buffer::OwnedF32(samples) => samples@.len(),
        }
    }

    /// The number of bytes that one sample takes.
    pub open spec fn width(&self) -> nat {
        match self {
            Buffer::OwnedU8(_) => 1,
            Buffer::OwnedI16(_) => 2,
            Buffer::OwnedI32(_) => 4,
            Buffer::OwnedF32(_) => 4,
        }
    }

    /// Whether another buffer is of the same kind and holds the same
    /// samples.
    pub open spec fn same_samples(&self, other: &Buffer) -> bool {
        match (self, other) {
            (Buffer::OwnedU8(mine), Buffer::OwnedU8(theirs)) => mine@ == theirs@,
            (Buffer::OwnedI16(mine), Buffer::OwnedI16(theirs)) => mine@ == theirs@,
            (Buffer::OwnedI32(mine), Buffer::OwnedI32(theirs)) => mine@ == theirs@,
            (Buffer::OwnedF32(mine), Buffer::OwnedF32(theirs)) => mine@ == theirs@,
            _ => false,
        }
    }

    /// The number of samples.
    pub fn len_elems(&self) -> (count: usize)
        ensures
            count == self.count(),
    {
        match self {
            Buffer::OwnedU8(samples) => samples.len(),
            Buffer::OwnedI16(samples) => samples.len(),
            Buffer::OwnedI32(samples) => samples.len(),
            Buffer::OwnedF32(samples) => samples.len(),
        }
    }

    /// The number of bytes that the samples take: their number times the
    /// width of one. That number fits in a `usize` for every buffer that
    /// memory can hold.
    pub fn len_bytes(&self) -> (bytes: usize)
        requires
            self.count() * self.width() <= usize::MAX,
        ensures
            bytes == self.count() * self.width(),
    {
        match self {
            Buffer::OwnedU8(samples) => samples.len(),
            Buffer::OwnedI16(samples) => samples.len() * 2,
            Buffer::OwnedI32(samples) => samples.len() * 4,
            Buffer::OwnedF32(samples) => samples.len() * 4,
        }
    }
}

impl Clone for Buffer {
    /// A buffer of the same kind with the same samples.
    fn clone(&self) -> (copy: Self)
        ensures
            self.same_samples(&copy),
    {
        match self {
            Buffer::OwnedU8(samples) => Buffer::OwnedU8(samples.clone()),
            Buffer::OwnedI16(samples) => Buffer::OwnedI16(samples.clone()),
            Buffer::OwnedI32(samples) => Buffer::OwnedI32(samples.clone()),
            Buffer::OwnedF32(samples) => Buffer::OwnedF32(samples.clone()),
        }
    }
}

} // verus!

//! Containers that pipeline objects carry.

pub mod boundary;
pub mod buffer;
pub mod entries;
pub mod object;
pub mod properties;
pub mod store;

//! The preset compiler: from definition documents to a catalog of named
//! profiles.
//!
//! A definition is a JSON object. Its category is the name of the directory
//! it was found in, and the preset it defines is named by category and
//! description. Reading the directories is the caller's part; what to do
//! with what was read is decided here.

pub mod catalog;
pub mod compiler;
pub mod definition;
pub mod json;

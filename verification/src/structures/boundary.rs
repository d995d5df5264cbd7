//! The property store as a caller holds it who may hold nothing.
//!
//! Each argument that such a caller may lack is an `Option`. An operation
//! that lacks an argument does nothing.

use vstd::prelude::*;
use vstd::utf8::{decode_utf8, valid_utf8};
use crate::structures::properties::{Properties, PropertyContent, PropertyValue};
use crate::text::utf8_text;

verus! {

/// A property store that a caller across the boundary owns.
pub struct PropertyMap(pub Properties);

/// A new, empty store, owned by the caller.
pub fn create_property_map() -> (map: Box<PropertyMap>)
    ensures
        map.0@ == Map::<Seq<char>, PropertyContent>::empty(),
        map.0.entries().len() == 0,
{
    Box::new(PropertyMap(Properties::default()))
}

/// Whether an insertion has all it needs: a store, a key that is valid
/// UTF-8, and a value.
pub open spec fn can_insert(map: Option<&mut PropertyMap>, key: Option<&[u8]>, value: Option<&PropertyValue>) -> bool {
    map is Some && value is Some && key is Some && valid_utf8(key->Some_0@)
}

/// Sets a copy of the value under the key that the bytes spell. Without a
/// store, a key or a value, and with a key that is not valid UTF-8, it does
/// nothing.
pub fn insert_property(map: Option<&mut PropertyMap>, key: Option<&[u8]>, value: Option<&PropertyValue>)
    ensures
        match map {
            Some(map) => if can_insert(Some(map), key, value) {
                final(map).0@ == map.0@.insert(decode_utf8(key->Some_0@), value->Some_0@)
            } else {
                *final(map) == *map
            },
            None => true,
        },
{
    match map {
        Some(map) => match key {
            Some(key) => match value {
                Some(value) => match utf8_text(key) {
                    Some(key) => {
                        map.0.set(key, value.clone());
                    },
                    None => {},
                },
                None => {},
            },
            None => {},
        },
        None => {},
    }
}

/// Takes the key that the bytes spell out of the store. Without a store or
/// a key, and with a key that is not valid UTF-8, it does nothing.
pub fn remove_property(map: Option<&mut PropertyMap>, key: Option<&[u8]>)
    ensures
        match map {
            Some(map) => if key is Some && valid_utf8(key->Some_0@) {
                final(map).0@ == map.0@.remove(decode_utf8(key->Some_0@))
            } else {
                *final(map) == *map
            },
            None => true,
        },
{
    match map {
        Some(map) => match key {
            Some(key) => match utf8_text(key) {
                Some(key) => {
                    map.0.remove(key);
                },
                None => {},
            },
            None => {},
        },
        None => {},
    }
}

/// Takes every key out of the store. Without a store it does nothing.
pub fn clear_property_map(map: Option<&mut PropertyMap>)
    ensures
        match map {
            Some(map) => {
                &&& final(map).0@ == Map::<Seq<char>, PropertyContent>::empty()
                &&& final(map).0.entries().len() == 0
            },
            None => true,
        },
{
    match map {
        Some(map) => {
            map.0.clear();
        },
        None => {},
    }
}

} // verus!

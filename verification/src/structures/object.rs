//! The property store under the names that pipeline objects use for it.

use vstd::prelude::*;
use crate::structures::properties::PropertyValue;
use crate::structures::store::Store;

verus! {

/// The values that an object can hold.
pub type ObjectValues = PropertyValue;

/// The values of an object under their keys.
pub type Object = Store<ObjectValues>;

} // verus!

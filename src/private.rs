use vstd::prelude::*;

verus! {

/// A token that only this crate can produce; it keeps `Array` closed to outside impls.
pub struct Private;

} // verus!

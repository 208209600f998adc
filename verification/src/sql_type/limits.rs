use vstd::prelude::*;

verus! {

/// The byte that marks a null boolean.
pub const BUSTUB_BOOLEAN_NULL: i8 = -128i8;

} // verus!

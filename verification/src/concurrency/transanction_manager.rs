use vstd::prelude::*;

verus! {

/// A placeholder for the manager of tuple versions.
pub struct TransanctionManager {}

} // verus!

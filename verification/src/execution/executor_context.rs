use vstd::prelude::*;

use crate::catalog::catalog::CatalogRef;

verus! {

/// What executors run against: the catalog, and whether the statement deletes.
pub struct ExecutorContext {
    pub catalog: CatalogRef,
    pub is_delete: bool,
}

} // verus!

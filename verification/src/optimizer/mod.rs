use vstd::prelude::*;

use crate::catalog::catalog::Catalog;
use crate::execution::plans::PlanNode;

verus! {

/// The optimizer rewrites plans; it has no rule yet.
pub struct Optimizer<'cat> {
    catalog: &'cat Catalog,
    force_starter_rule: bool,
}

impl<'cat> Optimizer<'cat> {
    pub fn new(catalog: &'cat Catalog, force_starter_rule: bool) -> (r: Self)
        ensures
            r.forces_starter_rule() == force_starter_rule,
    {
        Optimizer { catalog, force_starter_rule }
    }

    /// Whether the starter rules are forced.
    pub closed spec fn forces_starter_rule(&self) -> bool {
        self.force_starter_rule
    }

    /// Optimize a plan: it is returned as it is.
    pub fn optimize(&self, plan: PlanNode) -> (r: PlanNode)
        ensures
            r == plan,
    {
        plan
    }
}

} // verus!

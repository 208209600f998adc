use vstd::prelude::*;

use crate::common::errors::BustubError;
use crate::execution::executor_context::ExecutorContext;
use crate::execution::executors::mock_scan_executor::{mock_row, mock_shuffled, mock_size, row_numbers};
use crate::execution::executors::{Executor, ExecutorFactory};
use crate::execution::plans::PlanNode;
use crate::storage::tuple::Tuple;

verus! {

/// Runs plans.
pub struct ExecutionEngine {}

/// Whether `rows` are the rows of the mock scan `n`, each once, in the order
/// `order`: the row numbers themselves unless the table is shuffled, in
/// which case `order` is some permutation of them.
pub open spec fn scan_result(
    n: crate::execution::plans::MockScanPlanNode,
    order: Seq<usize>,
    rows: Seq<Tuple>,
) -> bool {
    &&& order.len() == mock_size(n.table@)
    &&& order.to_multiset() == row_numbers(mock_size(n.table@)).to_multiset()
    &&& !mock_shuffled(n.table@) ==> order == row_numbers(mock_size(n.table@))
    &&& rows.len() == order.len()
    &&& forall|i: int|
        0 <= i < rows.len() ==> #[trigger] rows[i]@ == mock_row(
            n.table@,
            order[i] as int,
            n.output_schema@.columns,
        )
}

/// Whether `rows` are the rows of the mock scan `n`, each once, in some
/// order that is the row order unless the table is shuffled.
pub open spec fn scanned(n: crate::execution::plans::MockScanPlanNode, rows: Seq<Tuple>) -> bool {
    exists|order: Seq<usize>| #[trigger] scan_result(n, order, rows)
}

impl ExecutionEngine {
    /// Runs a mock scan plan, batch by batch, and gathers its rows.
    pub fn execute(&self, plan: &PlanNode, exec_ctx: &ExecutorContext) -> (r: Result<Vec<Tuple>, BustubError>)
        requires
            *plan is MockScan,
        ensures
            r matches Ok(rows) && scanned(plan->MockScan_0, rows@),
    {
        let ghost n0 = plan->MockScan_0;
        assert(crate::execution::executors::creation_error(*plan) is None);
        assert(crate::execution::executors::executable(*plan));
        let mut executor = match ExecutorFactory::create_executor(exec_ctx, plan) {
            Ok(e) => e,
            Err(e) => {
                return Err(e);
            },
        };
        let mut result_set: Vec<Tuple> = Vec::new();
        let ghost mut order_of_run: Seq<usize> = Seq::empty();
        match &mut executor {
            Executor::MockScan(m) => {
                proof {
                    m.lemma_wf();
                    order_of_run = m.order();
                }
                let ghost order = m.order();
                let ghost n = m.plan();
                assert(n == n0);
                loop
                    invariant
                        m.wf(),
                        m.plan() == n,
                        m.order() == order,
                        order.len() == m.size(),
                        result_set@.len() == m.produced(),
                        forall|i: int|
                            0 <= i < result_set@.len() ==> #[trigger] result_set@[i]@ == mock_row(
                                n.table@,
                                order[i] as int,
                                n.output_schema@.columns,
                            ),
                    ensures
                        result_set@.len() == order.len(),
                        forall|i: int|
                            0 <= i < result_set@.len() ==> #[trigger] result_set@[i]@ == mock_row(
                                n.table@,
                                order[i] as int,
                                n.output_schema@.columns,
                            ),
                    decreases m.size() - m.produced(),
                {
                    proof {
                        m.lemma_wf();
                    }
                    match m.next(20) {
                        Some((tuples, _rids)) => {
                            let ghost before = result_set@;
                            let ghost added = tuples@;
                            let mut tuples = tuples;
                            result_set.append(&mut tuples);
                            proof {
                                assert forall|i: int| 0 <= i < result_set@.len() implies #[trigger] result_set@[i]@
                                    == mock_row(n.table@, order[i] as int, n.output_schema@.columns) by {
                                    if i >= before.len() {
                                        let j = i - before.len();
                                        assert(result_set@[i] == added[j]);
                                    }
                                }
                            }
                        },
                        None => {
                            proof {
                                m.lemma_wf();
                            }
                            break;
                        },
                    }
                }
            },
            _ => {
                proof {
                    assert(false);
                }
            },
        }
        assert(scan_result(n0, order_of_run, result_set@));
        assert(scanned(n0, result_set@));
        Ok(result_set)
    }
}

} // verus!

use vstd::prelude::*;

use crate::common::rid::{packed_rid, RID};
use crate::execution::executor_context::ExecutorContext;
use crate::execution::executors::mock_scan_executor::{mock_row, MockScanExecutor};
use crate::execution::expressions::{eval, evaluable, AbstractExpression};
use crate::execution::plans::{MockScanPlanNode, ProjectionPlanNode};
use crate::sql_type::value::{Value, ValueView};
use crate::storage::tuple::Tuple;

verus! {

/// The values of the expressions `es` on the row `row`.
pub open spec fn project_row(es: Seq<AbstractExpression>, row: Seq<ValueView>) -> Seq<ValueView> {
    es.map_values(|e: AbstractExpression| eval(e, row, row))
}

/// Whether a scan of `plan` over `size` rows in the order `order` yields
/// the row `row`.
#[verifier::opaque]
pub open spec fn scan_yields(
    plan: MockScanPlanNode,
    order: Seq<usize>,
    size: nat,
    row: Seq<ValueView>,
) -> bool {
    exists|c: int|
        0 <= c < size && row == mock_row(plan.table@, #[trigger] order[c] as int, plan.output_schema@.columns)
}

/// Whether the mock scan `m` can yield the row `row`: some row of its table.
pub open spec fn scan_may_yield(m: MockScanExecutor, row: Seq<ValueView>) -> bool {
    scan_yields(m.plan(), m.order(), m.size(), row)
}

/// The rows of the tuples `ts`.
pub open spec fn tuple_views(ts: Seq<Tuple>) -> Seq<Seq<ValueView>> {
    ts.map_values(|t: Tuple| t@)
}

/// The projections by `es` of the rows `rows`.
pub open spec fn project_rows(es: Seq<AbstractExpression>, rows: Seq<Seq<ValueView>>) -> Seq<Seq<ValueView>> {
    rows.map_values(|row: Seq<ValueView>| project_row(es, row))
}

/// The rows the mock scan `m` has still to produce, in order.
pub open spec fn scan_rest(m: MockScanExecutor) -> Seq<Seq<ValueView>> {
    Seq::new(
        (m.size() - m.produced()) as nat,
        |j: int| mock_row(m.plan().table@, m.order()[m.produced() + j] as int, m.plan().output_schema@.columns),
    )
}

/// The ProjectionExecutor executes a projection over the rows of a mock scan.
pub struct ProjectionExecutor<'a> {
    exec_ctx: &'a ExecutorContext,
    plan: &'a ProjectionPlanNode,
    child_executor: Box<MockScanExecutor<'a>>,
    /// The position in the child batch where the next batch starts.
    child_offset: usize,
    /// The child's latest batch.
    child_tuples: Vec<Tuple>,
    child_rids: Vec<RID>,
}

impl<'a> ProjectionExecutor<'a> {
    /// The plan this executor runs.
    pub closed spec fn plan(&self) -> ProjectionPlanNode {
        *self.plan
    }

    /// The child scan.
    pub closed spec fn child(&self) -> MockScanExecutor<'a> {
        *self.child_executor
    }

    /// The executor is consistent, and every expression can be evaluated on
    /// every row its child yields.
    pub closed spec fn wf(&self) -> bool {
        &&& self.child_executor.wf()
        &&& self.child_offset <= self.child_tuples@.len()
        &&& self.child_rids@.len() == self.child_tuples@.len()
        &&& (self.child_offset < self.child_tuples@.len() || self.child_tuples@.len() == 0)
        &&& forall|i: int|
            0 <= i < self.child_rids@.len() ==> packed_rid(
                #[trigger] self.child_rids@[i].spec_page_id(),
                self.child_rids@[i].spec_slot_num(),
            ) == 0
        &&& forall|i: int|
            0 <= i < self.child_tuples@.len() ==> scan_may_yield(
                *self.child_executor,
                #[trigger] self.child_tuples@[i]@,
            )
    }

    /// The rows this executor has still to project, in order: the rest of
    /// the buffered child batch, then the rows the child has still to produce.
    pub closed spec fn stream(&self) -> Seq<Seq<ValueView>> {
        tuple_views(self.child_tuples@).skip(self.child_offset as int) + scan_rest(*self.child_executor)
    }

    /// Whether every expression can be evaluated on every row the child yields.
    pub closed spec fn exprs_evaluable(&self) -> bool {
        forall|row: Seq<ValueView>, i: int|
            scan_may_yield(*self.child_executor, row) && 0 <= i < self.plan.expressions@.len()
                ==> #[trigger] evaluable(self.plan.expressions@[i], row, row)
    }

    /// A projection of `plan` over `child`.
    pub fn new(exec_ctx: &'a ExecutorContext, plan: &'a ProjectionPlanNode, child: MockScanExecutor<'a>) -> (r:
        Self)
        requires
            child.wf(),
        ensures
            r.wf(),
            r.plan() == *plan,
            r.child() == child,
            r.stream() == scan_rest(child),
    {
        let r = ProjectionExecutor {
            exec_ctx,
            plan,
            child_executor: Box::new(child),
            child_offset: 0,
            child_tuples: Vec::new(),
            child_rids: Vec::new(),
        };
        assert(r.stream() =~= scan_rest(child));
        r
    }

    /// The values of the projection's expressions on `tuple`.
    fn project(&self, tuple: &Tuple) -> (r: Tuple)
        requires
            self.wf(),
            self.exprs_evaluable(),
            scan_may_yield(*self.child_executor, tuple@),
        ensures
            r@ == project_row(self.plan.expressions@, tuple@),
    {
        let child_schema = self.child_executor.plan_node().output_schema_ref();
        let exprs = &self.plan.expressions;
        let mut values: Vec<Value> = Vec::new();
        let mut k: usize = 0;
        while k < exprs.len()
            invariant
                0 <= k <= exprs@.len(),
                self.wf(),
                self.exprs_evaluable(),
                scan_may_yield(*self.child_executor, tuple@),
                *exprs == self.plan.expressions,
                values@.map_values(|v: Value| v@) == project_row(exprs@.take(k as int), tuple@),
            decreases exprs@.len() - k,
        {
            assert(evaluable(exprs@[k as int], tuple@, tuple@));
            let v = exprs[k].evaluate(tuple, child_schema);
            let ghost before = values@;
            values.push(v);
            proof {
                assert(values@.map_values(|v: Value| v@) =~= before.map_values(|v: Value| v@).push(v@));
                assert(exprs@.take(k + 1) =~= exprs@.take(k as int).push(exprs@[k as int]));
                assert(project_row(exprs@.take(k + 1), tuple@) =~= project_row(
                    exprs@.take(k as int),
                    tuple@,
                ).push(eval(exprs@[k as int], tuple@, tuple@)));
            }
            k += 1;
        }
        assert(exprs@.take(k as int) =~= exprs@);
        Tuple::new_with_values(values, &self.plan.output_schema)
    }

    /// The next batch of at most `batch_size` projected rows: the
    /// projections of the first rows of the stream, or `None` when the
    /// stream is empty or `batch_size` is 0. A batch that fills up ends on a
    /// row that the next batch starts with again; once the child is done,
    /// the buffered rows stay in the stream, so they come out again on every
    /// later call.
    pub fn next(&mut self, batch_size: usize) -> (r: Option<(Vec<Tuple>, Vec<RID>)>)
        requires
            old(self).wf(),
            old(self).exprs_evaluable(),
        ensures
            final(self).wf(),
            final(self).exprs_evaluable(),
            final(self).plan() == old(self).plan(),
            final(self).child().plan() == old(self).child().plan(),
            final(self).child().order() == old(self).child().order(),
            final(self).child().size() == old(self).child().size(),
            ({
                let s = old(self).stream();
                let n: int = if s.len() < batch_size {
                    s.len() as int
                } else {
                    batch_size as int
                };
                &&& r is None <==> n == 0
                &&& r matches Some((tuples, rids)) ==> {
                    &&& tuple_views(tuples@) == project_rows(old(self).plan().expressions@, s.take(n))
                    &&& rids@.len() == n
                    &&& forall|j: int|
                        0 <= j < n ==> packed_rid(#[trigger] rids@[j].spec_page_id(), rids@[j].spec_slot_num())
                            == 0
                }
                &&& batch_size == 0 ==> *final(self) == *old(self)
                &&& 0 < batch_size <= s.len() ==> final(self).stream() == s.skip(batch_size - 1)
                &&& 0 < batch_size && s.len() < batch_size ==> {
                    &&& final(self).child().produced() == final(self).child().size()
                    &&& exists|k: int| 0 <= k <= s.len() && final(self).stream() == #[trigger] s.skip(k)
                    &&& s.len() > 0 ==> final(self).stream().len() > 0
                }
            }),
    {
        if batch_size == 0 {
            return None;
        }
        let ghost s0 = self.stream();
        let ghost es = self.plan.expressions@;
        let mut tuple_batch: Vec<Tuple> = Vec::new();
        let mut rid_batch: Vec<RID> = Vec::new();
        let mut full = false;
        let ghost mut suffix_at: int = 0;
        proof {
            assert(tuple_views(tuple_batch@) =~= project_rows(es, s0.take(0)));
            assert(s0.skip(0) =~= s0);
        }
        while tuple_batch.len() < batch_size
            invariant_except_break
                !full,
                tuple_batch@.len() < batch_size,
                self.stream() == s0.skip(tuple_batch@.len() as int),
                self.child_tuples@.len() == 0 ==> tuple_batch@.len() == 0,
            invariant
                self.wf(),
                self.exprs_evaluable(),
                self.plan == old(self).plan,
                es == self.plan.expressions@,
                s0 == old(self).stream(),
                self.child_executor.plan() == old(self).child_executor.plan(),
                self.child_executor.order() == old(self).child_executor.order(),
                self.child_executor.size() == old(self).child_executor.size(),
                0 < batch_size,
                tuple_batch@.len() <= batch_size,
                tuple_batch@.len() <= s0.len(),
                tuple_views(tuple_batch@) == project_rows(es, s0.take(tuple_batch@.len() as int)),
                rid_batch@.len() == tuple_batch@.len(),
                forall|j: int|
                    0 <= j < rid_batch@.len() ==> packed_rid(
                        #[trigger] rid_batch@[j].spec_page_id(),
                        rid_batch@[j].spec_slot_num(),
                    ) == 0,
            ensures
                full ==> tuple_batch@.len() == batch_size && self.stream() == s0.skip(batch_size - 1),
                !full ==> {
                    &&& self.child_executor.produced() == self.child_executor.size()
                    &&& tuple_batch@.len() == s0.len()
                    &&& tuple_batch@.len() < batch_size
                    &&& 0 <= suffix_at <= s0.len()
                    &&& self.stream() == s0.skip(suffix_at)
                    &&& s0.len() > 0 ==> self.stream().len() > 0
                },
            decreases self.child_executor.size() - self.child_executor.produced(),
        {
            let mut i: usize = self.child_offset;
            let ghost child_before = *self.child_executor;
            let ghost start = tuple_batch@.len() as int;
            while i < self.child_tuples.len()
                invariant_except_break
                    !full,
                    tuple_batch@.len() < batch_size,
                    self.stream() == s0.skip(start),
                    self.child_offset <= i <= self.child_tuples@.len(),
                    tuple_views(self.child_tuples@).skip(i as int) + scan_rest(*self.child_executor) == s0.skip(
                        tuple_batch@.len() as int,
                    ),
                    self.child_tuples@.len() == 0 ==> tuple_batch@.len() == 0,
                invariant
                    *self.child_executor == child_before,
                    self.wf(),
                    self.exprs_evaluable(),
                    self.plan == old(self).plan,
                    es == self.plan.expressions@,
                    s0 == old(self).stream(),
                    self.child_executor.plan() == old(self).child_executor.plan(),
                    self.child_executor.order() == old(self).child_executor.order(),
                    self.child_executor.size() == old(self).child_executor.size(),
                    0 < batch_size,
                    tuple_batch@.len() <= batch_size,
                    tuple_batch@.len() <= s0.len(),
                    tuple_views(tuple_batch@) == project_rows(es, s0.take(tuple_batch@.len() as int)),
                    rid_batch@.len() == tuple_batch@.len(),
                    forall|j: int|
                        0 <= j < rid_batch@.len() ==> packed_rid(
                            #[trigger] rid_batch@[j].spec_page_id(),
                            rid_batch@[j].spec_slot_num(),
                        ) == 0,
                ensures
                    full ==> tuple_batch@.len() == batch_size && self.stream() == s0.skip(batch_size - 1),
                    !full ==> {
                        &&& i == self.child_tuples@.len()
                        &&& tuple_batch@.len() < batch_size
                        &&& self.stream() == s0.skip(start)
                        &&& scan_rest(*self.child_executor) == s0.skip(tuple_batch@.len() as int)
                        &&& self.child_tuples@.len() == 0 ==> tuple_batch@.len() == 0
                    },
                decreases self.child_tuples@.len() - i,
            {
                let ghost len0 = tuple_batch@.len() as int;
                let ghost views = tuple_views(self.child_tuples@);
                let ghost rest = scan_rest(*self.child_executor);
                proof {
                    assert(views.len() == self.child_tuples@.len());
                    assert(views.skip(i as int).len() > 0);
                    assert((views.skip(i as int) + rest).len() > 0);
                    assert(s0.skip(len0).len() == s0.len() - len0);
                    assert(len0 < s0.len());
                    assert(views.skip(i as int)[0] == self.child_tuples@[i as int]@);
                    assert((views.skip(i as int) + rest)[0] == s0.skip(len0)[0]);
                    assert(s0.skip(len0)[0] == s0[len0]);
                }
                let t = self.project(&self.child_tuples[i]);
                let ghost before = tuple_batch@;
                tuple_batch.push(t);
                proof {
                    assert(s0.take(len0 + 1) =~= s0.take(len0).push(s0[len0]));
                    assert(tuple_views(tuple_batch@) =~= tuple_views(before).push(t@));
                    assert(project_rows(es, s0.take(len0 + 1)) =~= project_rows(es, s0.take(len0)).push(
                        project_row(es, s0[len0]),
                    ));
                }
                let ghost rids_before = rid_batch@;
                rid_batch.push(self.child_rids[i]);
                proof {
                    assert forall|j: int| 0 <= j < rid_batch@.len() implies packed_rid(
                        #[trigger] rid_batch@[j].spec_page_id(),
                        rid_batch@[j].spec_slot_num(),
                    ) == 0 by {
                        if j < rids_before.len() {
                            assert(rid_batch@[j] == rids_before[j]);
                        } else {
                            assert(rid_batch@[j] == self.child_rids@[i as int]);
                        }
                    }
                }
                if tuple_batch.len() == batch_size {
                    self.child_offset = i;
                    full = true;
                    break;
                }
                proof {
                    assert forall|k: int| 0 <= k < s0.skip(len0 + 1).len() implies (views.skip(i + 1) + rest)[k]
                        == #[trigger] s0.skip(len0 + 1)[k] by {
                        assert((views.skip(i as int) + rest)[k + 1] == s0.skip(len0)[k + 1]);
                    }
                    assert(views.skip(i + 1) + rest =~= s0.skip(len0 + 1));
                }
                i += 1;
            }
            if full {
                break;
            }
            let ghost before_child = *self.child_executor;
            proof {
                self.child_executor.lemma_wf();
            }
            match self.child_executor.next(batch_size) {
                None => {
                    proof {
                        suffix_at = start;
                        assert(scan_rest(*self.child_executor).len() == 0);
                    }
                    break;
                },
                Some((tuples, rids)) => {
                    proof {
                        lemma_scan_rest_after_batch(before_child, *self.child_executor, tuples@);
                        reveal(scan_yields);
                        assert forall|k: int| 0 <= k < tuples@.len() implies scan_may_yield(
                            *self.child_executor,
                            #[trigger] tuples@[k]@,
                        ) by {
                            let c = before_child.produced() + k;
                            assert(0 <= c < self.child_executor.size());
                        }
                    }
                    self.child_tuples = tuples;
                    self.child_rids = rids;
                },
            }
            self.child_offset = 0;
            proof {
                assert(tuple_views(self.child_tuples@).skip(0) =~= tuple_views(self.child_tuples@));
            }
        }
        if tuple_batch.len() == 0 {
            None
        } else {
            Some((tuple_batch, rid_batch))
        }
    }
}

/// What a batch of a mock scan takes off the rows it has still to produce.
proof fn lemma_scan_rest_after_batch(before: MockScanExecutor, after: MockScanExecutor, tuples: Seq<Tuple>)
    requires
        after.plan() == before.plan(),
        after.order() == before.order(),
        after.size() == before.size(),
        before.produced() <= after.produced() <= after.size(),
        tuples.len() == after.produced() - before.produced(),
        forall|j: int|
            0 <= j < tuples.len() ==> #[trigger] tuples[j]@ == mock_row(
                before.plan().table@,
                before.order()[before.produced() + j] as int,
                before.plan().output_schema@.columns,
            ),
    ensures
        scan_rest(before) == tuple_views(tuples) + scan_rest(after),
{
    assert(scan_rest(before) =~= tuple_views(tuples) + scan_rest(after));
}

} // verus!

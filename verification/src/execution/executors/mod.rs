pub mod mock_scan_executor;
pub mod projection_executor;

use vstd::prelude::*;

use crate::common::errors::BustubError;
use crate::common::rid::RID;
use crate::execution::executor_context::ExecutorContext;
use crate::execution::executors::mock_scan_executor::{mock_size, MockScanExecutor};
use crate::execution::executors::projection_executor::ProjectionExecutor;
use crate::execution::plans::{
    plan_name, AggregationPlanNode, DeletePlanNode, FilterPlanNode, HashJoinPlanNode,
    IndexScanPlanNode, InsertPlanNode, LimitPlanNode, MockScanPlanNode, NestedIndexJoinPlanNode,
    PlanNode, ProjectionPlanNode, SeqScanPlanNode, SortPlanNode, TopNPerGroupPlanNode,
    UpdatePlanNode, ValuesPlanNode, WindowFunctionPlanNode,
};
use crate::planner::plan_expression::fails_with;
use crate::planner::plan_table::message_with;
use crate::storage::tuple::Tuple;

verus! {

/// An executor tree, one executor per plan node. Mock scans, and
/// projections over them, run; the other executors are built over their
/// plan and children and do not run here.
pub enum Executor<'a> {
    SeqScan(&'a SeqScanPlanNode),
    IndexScan(&'a IndexScanPlanNode),
    Insert(&'a InsertPlanNode, Box<Executor<'a>>),
    Update(&'a UpdatePlanNode, Box<Executor<'a>>),
    Delete(&'a DeletePlanNode, Box<Executor<'a>>),
    Limit(&'a LimitPlanNode, Box<Executor<'a>>),
    Aggregation(&'a AggregationPlanNode, Box<Executor<'a>>),
    Window(&'a WindowFunctionPlanNode, Box<Executor<'a>>),
    NestedIndexJoin(&'a NestedIndexJoinPlanNode, Box<Executor<'a>>),
    HashJoin(&'a HashJoinPlanNode, Box<Executor<'a>>, Box<Executor<'a>>),
    MockScan(MockScanExecutor<'a>),
    ProjectionOverScan(ProjectionExecutor<'a>),
    Projection(&'a ProjectionPlanNode, Box<Executor<'a>>),
    Filter(&'a FilterPlanNode, Box<Executor<'a>>),
    Values(&'a ValuesPlanNode),
    Sort(&'a SortPlanNode, Box<Executor<'a>>),
    TopNPerGroup(&'a TopNPerGroupPlanNode, Box<Executor<'a>>),
}

/// Whether every plan node that an executor is built for has the children
/// its executor takes: one for most, two for a hash join.
pub open spec fn executable(p: PlanNode) -> bool
    decreases p,
{
    match p {
        PlanNode::SeqScan(_) => true,
        PlanNode::IndexScan(_) => true,
        PlanNode::MockScan(_) => true,
        PlanNode::Values(_) => true,
        PlanNode::NestedLoopJoin(_) => true,
        PlanNode::TopN(_) => true,
        PlanNode::HashJoin(n) => n.children@.len() >= 2 && executable(n.children@[0]) && executable(
            n.children@[1],
        ),
        PlanNode::Insert(n) => n.children@.len() >= 1 && executable(n.children@[0]),
        PlanNode::Update(n) => n.children@.len() >= 1 && executable(n.children@[0]),
        PlanNode::Delete(n) => n.children@.len() >= 1 && executable(n.children@[0]),
        PlanNode::Limit(n) => n.children@.len() >= 1 && executable(n.children@[0]),
        PlanNode::Aggregation(n) => n.children@.len() >= 1 && executable(n.children@[0]),
        PlanNode::Window(n) => n.children@.len() >= 1 && executable(n.children@[0]),
        PlanNode::NestedIndexJoin(n) => n.children@.len() >= 1 && executable(n.children@[0]),
        PlanNode::Projection(n) => n.children@.len() >= 1 && executable(n.children@[0]),
        PlanNode::Filter(n) => n.children@.len() >= 1 && executable(n.children@[0]),
        PlanNode::Sort(n) => n.children@.len() >= 1 && executable(n.children@[0]),
        PlanNode::TopNPerGroup(n) => n.children@.len() >= 1 && executable(n.children@[0]),
    }
}

/// Why no executor can be built for `p`: the first nested-loop join or
/// top-N node reached, children in order.
pub open spec fn creation_error(p: PlanNode) -> Option<Seq<char>>
    decreases p,
{
    match p {
        PlanNode::NestedLoopJoin(_) => Some(plan_name(p) + " plan executor is not supported yet."@),
        PlanNode::TopN(_) => Some(plan_name(p) + " plan executor is not supported yet."@),
        PlanNode::SeqScan(_) => None,
        PlanNode::IndexScan(_) => None,
        PlanNode::MockScan(_) => None,
        PlanNode::Values(_) => None,
        PlanNode::HashJoin(n) => if n.children@.len() > 1 {
            match creation_error(n.children@[0]) {
                Some(m) => Some(m),
                None => creation_error(n.children@[1]),
            }
        } else {
            None
        },
        PlanNode::Insert(n) => if n.children@.len() > 0 {
            creation_error(n.children@[0])
        } else {
            None
        },
        PlanNode::Update(n) => if n.children@.len() > 0 {
            creation_error(n.children@[0])
        } else {
            None
        },
        PlanNode::Delete(n) => if n.children@.len() > 0 {
            creation_error(n.children@[0])
        } else {
            None
        },
        PlanNode::Limit(n) => if n.children@.len() > 0 {
            creation_error(n.children@[0])
        } else {
            None
        },
        PlanNode::Aggregation(n) => if n.children@.len() > 0 {
            creation_error(n.children@[0])
        } else {
            None
        },
        PlanNode::Window(n) => if n.children@.len() > 0 {
            creation_error(n.children@[0])
        } else {
            None
        },
        PlanNode::NestedIndexJoin(n) => if n.children@.len() > 0 {
            creation_error(n.children@[0])
        } else {
            None
        },
        PlanNode::Projection(n) => if n.children@.len() > 0 {
            creation_error(n.children@[0])
        } else {
            None
        },
        PlanNode::Filter(n) => if n.children@.len() > 0 {
            creation_error(n.children@[0])
        } else {
            None
        },
        PlanNode::Sort(n) => if n.children@.len() > 0 {
            creation_error(n.children@[0])
        } else {
            None
        },
        PlanNode::TopNPerGroup(n) => if n.children@.len() > 0 {
            creation_error(n.children@[0])
        } else {
            None
        },
    }
}

/// Whether `e` is the executor tree built for the plan `p`, with every scan
/// at its first row.
pub open spec fn built_for(e: Executor, p: PlanNode) -> bool
    decreases p,
{
    match p {
        PlanNode::SeqScan(n) => e matches Executor::SeqScan(x) && *x == n,
        PlanNode::IndexScan(n) => e matches Executor::IndexScan(x) && *x == n,
        PlanNode::Values(n) => e matches Executor::Values(x) && *x == n,
        PlanNode::MockScan(n) => e matches Executor::MockScan(m) && m.wf() && m.plan() == n
            && m.produced() == 0,
        PlanNode::Insert(n) => e matches Executor::Insert(x, c) && *x == n && n.children@.len() > 0
            && built_for(*c, n.children@[0]),
        PlanNode::Update(n) => e matches Executor::Update(x, c) && *x == n && n.children@.len() > 0
            && built_for(*c, n.children@[0]),
        PlanNode::Delete(n) => e matches Executor::Delete(x, c) && *x == n && n.children@.len() > 0
            && built_for(*c, n.children@[0]),
        PlanNode::Limit(n) => e matches Executor::Limit(x, c) && *x == n && n.children@.len() > 0
            && built_for(*c, n.children@[0]),
        PlanNode::Aggregation(n) => e matches Executor::Aggregation(x, c) && *x == n && n.children@.len() > 0
            && built_for(*c, n.children@[0]),
        PlanNode::Window(n) => e matches Executor::Window(x, c) && *x == n && n.children@.len() > 0
            && built_for(*c, n.children@[0]),
        PlanNode::NestedIndexJoin(n) => e matches Executor::NestedIndexJoin(x, c) && *x == n
            && n.children@.len() > 0 && built_for(*c, n.children@[0]),
        PlanNode::HashJoin(n) => e matches Executor::HashJoin(x, l, r) && *x == n && n.children@.len()
            > 1 && built_for(*l, n.children@[0]) && built_for(*r, n.children@[1]),
        PlanNode::Projection(n) => n.children@.len() > 0 && match n.children@[0] {
            PlanNode::MockScan(s) => e matches Executor::ProjectionOverScan(pe) && pe.wf()
                && pe.plan() == n && pe.child().plan() == s && pe.child().produced() == 0,
            _ => e matches Executor::Projection(x, c) && *x == n && n.children@.len() > 0 && built_for(*c, n.children@[0]),
        },
        PlanNode::Filter(n) => e matches Executor::Filter(x, c) && *x == n && n.children@.len() > 0
            && built_for(*c, n.children@[0]),
        PlanNode::Sort(n) => e matches Executor::Sort(x, c) && *x == n && n.children@.len() > 0
            && built_for(*c, n.children@[0]),
        PlanNode::TopNPerGroup(n) => e matches Executor::TopNPerGroup(x, c) && *x == n && n.children@.len() > 0
            && built_for(*c, n.children@[0]),
        _ => false,
    }
}

/// Builds executors for plans.
pub struct ExecutorFactory;

impl ExecutorFactory {
    /// Creates a new executor tree for the plan node `plan`, or an error
    /// when the plan holds a node no executor runs.
    pub fn create_executor<'a>(exec_ctx: &'a ExecutorContext, plan: &'a PlanNode) -> (r: Result<
        Executor<'a>,
        BustubError,
    >)
        requires
            executable(*plan),
        ensures
            match creation_error(*plan) {
                Some(m) => fails_with(r, m),
                None => r matches Ok(e) && built_for(e, *plan),
            },
        decreases plan,
    {
        match plan {
            PlanNode::SeqScan(p) => Ok(Executor::SeqScan(p)),
            PlanNode::IndexScan(p) => Ok(Executor::IndexScan(p)),
            PlanNode::Insert(p) => {
                let child = match ExecutorFactory::create_executor(exec_ctx, &p.children[0]) {
                    Ok(c) => c,
                    Err(e) => {
                        return Err(e);
                    },
                };
                Ok(Executor::Insert(p, Box::new(child)))
            },
            PlanNode::Update(p) => {
                let child = match ExecutorFactory::create_executor(exec_ctx, &p.children[0]) {
                    Ok(c) => c,
                    Err(e) => {
                        return Err(e);
                    },
                };
                Ok(Executor::Update(p, Box::new(child)))
            },
            PlanNode::Delete(p) => {
                let child = match ExecutorFactory::create_executor(exec_ctx, &p.children[0]) {
                    Ok(c) => c,
                    Err(e) => {
                        return Err(e);
                    },
                };
                Ok(Executor::Delete(p, Box::new(child)))
            },
            PlanNode::Limit(p) => {
                let child = match ExecutorFactory::create_executor(exec_ctx, &p.children[0]) {
                    Ok(c) => c,
                    Err(e) => {
                        return Err(e);
                    },
                };
                Ok(Executor::Limit(p, Box::new(child)))
            },
            PlanNode::Aggregation(p) => {
                let child = match ExecutorFactory::create_executor(exec_ctx, &p.children[0]) {
                    Ok(c) => c,
                    Err(e) => {
                        return Err(e);
                    },
                };
                Ok(Executor::Aggregation(p, Box::new(child)))
            },
            PlanNode::Window(p) => {
                let child = match ExecutorFactory::create_executor(exec_ctx, &p.children[0]) {
                    Ok(c) => c,
                    Err(e) => {
                        return Err(e);
                    },
                };
                Ok(Executor::Window(p, Box::new(child)))
            },
            PlanNode::NestedIndexJoin(p) => {
                let child = match ExecutorFactory::create_executor(exec_ctx, &p.children[0]) {
                    Ok(c) => c,
                    Err(e) => {
                        return Err(e);
                    },
                };
                Ok(Executor::NestedIndexJoin(p, Box::new(child)))
            },
            PlanNode::HashJoin(p) => {
                let left = match ExecutorFactory::create_executor(exec_ctx, &p.children[0]) {
                    Ok(c) => c,
                    Err(e) => {
                        return Err(e);
                    },
                };
                let right = match ExecutorFactory::create_executor(exec_ctx, &p.children[1]) {
                    Ok(c) => c,
                    Err(e) => {
                        return Err(e);
                    },
                };
                Ok(Executor::HashJoin(p, Box::new(left), Box::new(right)))
            },
            PlanNode::MockScan(p) => Ok(Executor::MockScan(MockScanExecutor::new(exec_ctx, p))),
            PlanNode::Projection(p) => {
                match &p.children[0] {
                    PlanNode::MockScan(s) => {
                        assert(creation_error(p.children@[0]) is None);
                        let scan = MockScanExecutor::new(exec_ctx, s);
                        Ok(Executor::ProjectionOverScan(ProjectionExecutor::new(exec_ctx, p, scan)))
                    },
                    _ => {
                        let child = match ExecutorFactory::create_executor(exec_ctx, &p.children[0]) {
                    Ok(c) => c,
                    Err(e) => {
                        return Err(e);
                    },
                };
                        Ok(Executor::Projection(p, Box::new(child)))
                    },
                }
            },
            PlanNode::Filter(p) => {
                let child = match ExecutorFactory::create_executor(exec_ctx, &p.children[0]) {
                    Ok(c) => c,
                    Err(e) => {
                        return Err(e);
                    },
                };
                Ok(Executor::Filter(p, Box::new(child)))
            },
            PlanNode::Values(p) => Ok(Executor::Values(p)),
            PlanNode::Sort(p) => {
                let child = match ExecutorFactory::create_executor(exec_ctx, &p.children[0]) {
                    Ok(c) => c,
                    Err(e) => {
                        return Err(e);
                    },
                };
                Ok(Executor::Sort(p, Box::new(child)))
            },
            PlanNode::TopNPerGroup(p) => {
                let child = match ExecutorFactory::create_executor(exec_ctx, &p.children[0]) {
                    Ok(c) => c,
                    Err(e) => {
                        return Err(e);
                    },
                };
                Ok(Executor::TopNPerGroup(p, Box::new(child)))
            },
            PlanNode::NestedLoopJoin(_) => {
                let name = plan.to_string();
                let mut m = name;
                m.append(" plan executor is not supported yet.");
                Err(BustubError::Message(m))
            },
            PlanNode::TopN(_) => {
                let name = plan.to_string();
                let mut m = name;
                m.append(" plan executor is not supported yet.");
                Err(BustubError::Message(m))
            },
        }
    }
}

} // verus!

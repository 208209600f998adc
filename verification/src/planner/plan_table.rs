use std::rc::Rc;
use vstd::prelude::*;

use crate::binder::table_ref::{visible_name, BaseTableRef, TableRef};
use crate::common::errors::BustubError;
use crate::common::text::starts_with;
use crate::execution::plans::{
    scan_columns, MockScanPlanNode, PlanNode, SeqScanPlanNode,
};
use crate::catalog::schema::schema_of;

verus! {

/// Why a base table cannot be planned: a name starting with `__` that is
/// not a mock table's.
pub open spec fn base_table_error(b: BaseTableRef) -> Option<Seq<char>> {
    if "__"@.is_prefix_of(b.table@) && !"__mock"@.is_prefix_of(b.table@) {
        Some("unsupported internal table: "@ + b.table@)
    } else {
        None
    }
}

/// Whether `p` is the plan of the base table `b`: a mock scan for a mock
/// table, else a sequential scan, each with the table's columns named
/// `table.column`.
pub open spec fn is_base_table_plan(b: BaseTableRef, p: PlanNode) -> bool {
    if "__mock"@.is_prefix_of(b.table@) {
        p matches PlanNode::MockScan(n) && n.output_schema@ == schema_of(
            scan_columns(visible_name(b), b.schema@.columns),
        ) && n.table@ == b.table@
    } else {
        p matches PlanNode::SeqScan(n) && n.output_schema@ == schema_of(
            scan_columns(visible_name(b), b.schema@.columns),
        ) && n.table_name@ == b.table@ && n.table_oid == b.oid && n.filter_predicate is None
    }
}

/// The message `prefix` followed by `name`.
pub(crate) fn message_with(prefix: &str, name: &str) -> (r: BustubError)
    ensures
        r matches BustubError::Message(m) && m@ == prefix@ + name@,
{
    let m = String::from_str(prefix).concat(name);
    BustubError::Message(m)
}

/// Plan a scan of a base table: a mock scan for `__mock` tables, an error
/// for other `__` tables, a sequential scan otherwise.
pub fn plan_base_table_ref(table_ref: &BaseTableRef) -> (r: Result<PlanNode, BustubError>)
    ensures
        match base_table_error(*table_ref) {
            Some(m) => r matches Err(BustubError::Message(s)) && s@ == m,
            None => r matches Ok(p) && is_base_table_plan(*table_ref, p),
        },
{
    proof {
        reveal_strlit("__");
        reveal_strlit("__mock");
    }
    let table_name = table_ref.table.as_str();
    if starts_with(table_name, "__") {
        if starts_with(table_name, "__mock") {
            return Ok(
                PlanNode::MockScan(
                    MockScanPlanNode {
                        output_schema: Rc::new(SeqScanPlanNode::infer_scan_schema(table_ref)),
                        table: table_ref.table.clone(),
                    },
                ),
            );
        } else {
            return Err(message_with("unsupported internal table: ", table_name));
        }
    }
    proof {
        assert(!"__mock"@.is_prefix_of(table_ref.table@)) by {
            if "__mock"@.is_prefix_of(table_ref.table@) {
                assert("__"@ =~= "__mock"@.take(2));
                assert(table_ref.table@[0] == '_' && table_ref.table@[1] == '_');
                assert("__"@.is_prefix_of(table_ref.table@));
            }
        }
    }
    Ok(
        PlanNode::SeqScan(
            SeqScanPlanNode {
                output_schema: Rc::new(SeqScanPlanNode::infer_scan_schema(table_ref)),
                table_name: table_ref.table.clone(),
                table_oid: table_ref.oid,
                filter_predicate: None,
            },
        ),
    )
}

/// The kind of a table reference, as named in planning errors.
pub open spec fn table_ref_kind(t: TableRef) -> Seq<char> {
    match t {
        TableRef::Empty => "Empty"@,
        TableRef::BaseTableRef(_) => "BaseTableRef"@,
        TableRef::CrossProductRef(_) => "CrossProductRef"@,
        TableRef::CTERef(_) => "CTERef"@,
        TableRef::ExpressionListRef(_) => "ExpressionListRef"@,
        TableRef::JoinRef(_) => "JoinRef"@,
        TableRef::SubqueryRef(_) => "SubqueryRef"@,
    }
}

/// Plan the scan of a table reference: a base table as
/// `plan_base_table_ref` plans it; no other kind of table reference is
/// planned yet.
pub fn plan_table_ref(table_ref: &TableRef) -> (r: Result<PlanNode, BustubError>)
    ensures
        match *table_ref {
            TableRef::BaseTableRef(b) => match base_table_error(b) {
                Some(m) => r matches Err(BustubError::Message(s)) && s@ == m,
                None => r matches Ok(p) && is_base_table_plan(b, p),
            },
            t => r matches Err(BustubError::Message(s)) && s@ == "table ref planning not supported yet: "@
                + table_ref_kind(t),
        },
{
    proof {
        reveal_strlit("Empty");
        reveal_strlit("CrossProductRef");
        reveal_strlit("CTERef");
        reveal_strlit("ExpressionListRef");
        reveal_strlit("JoinRef");
        reveal_strlit("SubqueryRef");
        reveal_strlit("BaseTableRef");
    }
    let kind = match table_ref {
        TableRef::BaseTableRef(b) => {
            return plan_base_table_ref(b);
        },
        TableRef::Empty => "Empty",
        TableRef::CrossProductRef(_) => "CrossProductRef",
        TableRef::CTERef(_) => "CTERef",
        TableRef::ExpressionListRef(_) => "ExpressionListRef",
        TableRef::JoinRef(_) => "JoinRef",
        TableRef::SubqueryRef(_) => "SubqueryRef",
    };
    message_err(kind)
}

/// The error for a table reference of kind `kind` that is not planned.
fn message_err(kind: &str) -> (r: Result<PlanNode, BustubError>)
    ensures
        r matches Err(BustubError::Message(s)) && s@ == "table ref planning not supported yet: "@ + kind@,
{
    Err(message_with("table ref planning not supported yet: ", kind))
}

} // verus!

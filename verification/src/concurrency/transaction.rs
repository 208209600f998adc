use vstd::prelude::*;

use crate::catalog::catalog::TableOid;
use crate::binder::binder::string_views;
use crate::common::rid::RID;
use crate::common::{TxnId, INVALID_TXN_ID};
use crate::sql_type::value::Value;
use crate::storage::tuple::{TimeStamp, Tuple, INVALID_TS};

verus! {

/// Transaction identifier start value (first txn id).
pub const TXN_START_ID: TxnId = 0x4000_0000_0000_0000i64;

/// Transaction state.
#[derive(Debug, Clone, Copy, PartialEq, Eq, Structural)]
pub enum TransactionState {
    Running,
    Tainted,
    Committed,
    Aborted,
}

/// Transaction isolation level.
#[derive(Debug, Clone, Copy, PartialEq, Eq, Structural)]
pub enum IsolationLevel {
    ReadUncommitted,
    SnapshotIsolation,
    Serializable,
}

/// Represents a link to a previous version of this tuple.
#[derive(Debug, Clone, Copy, PartialEq, Eq, Structural)]
pub struct UndoLink {
    /// Previous version can be found in which txn.
    pub prev_txn: TxnId,
    /// The log index of the previous version in `prev_txn`.
    pub prev_log_idx: i32,
}

impl UndoLink {
    /// Create a new UndoLink pointing to nothing.
    pub fn new() -> (r: Self)
        ensures
            r == (UndoLink { prev_txn: INVALID_TXN_ID, prev_log_idx: 0 }),
    {
        UndoLink { prev_txn: INVALID_TXN_ID, prev_log_idx: 0 }
    }

    /// Checks if the undo link points to something.
    pub fn is_valid(&self) -> (r: bool)
        ensures
            r == (self.prev_txn != INVALID_TXN_ID),
    {
        self.prev_txn != INVALID_TXN_ID
    }
}

impl Default for UndoLink {
    fn default() -> (r: Self)
        ensures
            r == (UndoLink { prev_txn: INVALID_TXN_ID, prev_log_idx: 0 }),
    {
        Self::new()
    }
}

/// Undo log entry for a transaction.
pub struct UndoLog {
    /// Whether this log is a deletion marker.
    pub is_deleted: bool,
    /// The fields modified by this undo log.
    pub modified_fields: Vec<bool>,
    /// The modified fields.
    pub tuple: Tuple,
    /// Timestamp of this undo log.
    pub ts: TimeStamp,
    /// Undo log previous version.
    pub prev_version: UndoLink,
}

/// The mathematical view of an undo log.
pub struct UndoLogView {
    pub is_deleted: bool,
    pub modified_fields: Seq<bool>,
    pub tuple: Seq<crate::sql_type::value::ValueView>,
    pub ts: TimeStamp,
    pub prev_version: UndoLink,
}

impl View for UndoLog {
    type V = UndoLogView;

    open spec fn view(&self) -> UndoLogView {
        UndoLogView {
            is_deleted: self.is_deleted,
            modified_fields: self.modified_fields@,
            tuple: self.tuple@,
            ts: self.ts,
            prev_version: self.prev_version,
        }
    }
}

impl UndoLog {
    /// A copy of this undo log.
    pub fn duplicate(&self) -> (r: Self)
        ensures
            r@ == self@,
    {
        let mut fields: Vec<bool> = Vec::new();
        let mut i: usize = 0;
        while i < self.modified_fields.len()
            invariant
                0 <= i <= self.modified_fields@.len(),
                fields@ == self.modified_fields@.take(i as int),
            decreases self.modified_fields@.len() - i,
        {
            fields.push(self.modified_fields[i]);
            i += 1;
            assert(fields@ =~= self.modified_fields@.take(i as int));
        }
        assert(self.modified_fields@.take(i as int) =~= self.modified_fields@);
        UndoLog {
            is_deleted: self.is_deleted,
            modified_fields: fields,
            tuple: self.tuple.duplicate(),
            ts: self.ts,
            prev_version: self.prev_version,
        }
    }
}

/// Transaction tracks information related to a transaction.
pub struct Transaction {
    state: TransactionState,
    read_ts: TimeStamp,
    commit_ts: TimeStamp,
    undo_logs: Vec<UndoLog>,
    write_set: Vec<(TableOid, RID)>,
    scan_predicates: Vec<(TableOid, Vec<String>)>,
    isolation_level: IsolationLevel,
    txn_id: TxnId,
}

/// The mathematical view of a transaction.
pub struct TransactionView {
    pub state: TransactionState,
    pub read_ts: TimeStamp,
    pub commit_ts: TimeStamp,
    pub undo_logs: Seq<UndoLogView>,
    /// The written rows: each table's written record ids, by their packed value.
    pub write_set: Set<(TableOid, int)>,
    /// The scan predicates: per table, in the order in which tables first got
    /// one, the table's predicates in the order in which they came.
    pub scan_predicates: Seq<(TableOid, Seq<Seq<char>>)>,
    pub isolation_level: IsolationLevel,
    pub txn_id: TxnId,
}

/// The view of per-table predicate lists.
pub open spec fn predicate_views(s: Seq<(TableOid, Vec<String>)>) -> Seq<(TableOid, Seq<Seq<char>>)> {
    s.map_values(|p: (TableOid, Vec<String>)| (p.0, string_views(p.1@)))
}

/// Where table `t` stands in `s`: the first index whose table is `t`, or -1.
pub open spec fn predicate_slot(s: Seq<(TableOid, Seq<Seq<char>>)>, t: TableOid) -> int {
    if exists|i: int| 0 <= i < s.len() && s[i].0 == t {
        choose|i: int| 0 <= i < s.len() && s[i].0 == t && forall|j: int| 0 <= j < i ==> s[j].0 != t
    } else {
        -1
    }
}

/// `s` with predicate `p` added at the end of table `t`'s list, that list
/// added at the end when `t` has none yet.
pub open spec fn predicate_added(s: Seq<(TableOid, Seq<Seq<char>>)>, t: TableOid, p: Seq<char>) -> Seq<
    (TableOid, Seq<Seq<char>>),
> {
    let i = predicate_slot(s, t);
    if i >= 0 {
        s.update(i, (t, s[i].1.push(p)))
    } else {
        s.push((t, seq![p]))
    }
}

/// The packed value of a record id.
pub open spec fn rid_key(r: RID) -> int {
    crate::common::rid::packed_rid(r.spec_page_id(), r.spec_slot_num())
}

impl View for Transaction {
    type V = TransactionView;

    closed spec fn view(&self) -> TransactionView {
        TransactionView {
            state: self.state,
            read_ts: self.read_ts,
            commit_ts: self.commit_ts,
            undo_logs: self.undo_logs@.map_values(|l: UndoLog| l@),
            write_set: self.write_set@.map_values(|w: (TableOid, RID)| (w.0, rid_key(w.1))).to_set(),
            scan_predicates: predicate_views(self.scan_predicates@),
            isolation_level: self.isolation_level,
            txn_id: self.txn_id,
        }
    }
}

impl Transaction {
    /// Create a new transaction with the given `txn_id` and `isolation_level`.
    pub fn new(txn_id: TxnId, isolation_level: IsolationLevel) -> (r: Self)
        ensures
            r@ == (TransactionView {
                state: TransactionState::Running,
                read_ts: 0,
                commit_ts: INVALID_TS,
                undo_logs: Seq::empty(),
                write_set: Set::empty(),
                scan_predicates: Seq::empty(),
                isolation_level,
                txn_id,
            }),
    {
        let r = Transaction {
            state: TransactionState::Running,
            read_ts: 0,
            commit_ts: INVALID_TS,
            undo_logs: Vec::new(),
            write_set: Vec::new(),
            scan_predicates: Vec::new(),
            isolation_level,
            txn_id,
        };
        assert(r@.undo_logs =~= Seq::<UndoLogView>::empty());
        assert(r@.write_set =~= Set::<(TableOid, int)>::empty());
        assert(r@.scan_predicates =~= Seq::<(TableOid, Seq<Seq<char>>)>::empty());
        r
    }

    /// Get the ID of this transaction.
    pub fn get_transaction_id(&self) -> (r: TxnId)
        ensures
            r == self@.txn_id,
    {
        self.txn_id
    }

    /// Get the ID of this transaction, stripping the highest bit.
    /// NEVER use/store this value unless for debugging.
    pub fn get_transaction_id_human_readable(&self) -> (r: TxnId)
        ensures
            r == self@.txn_id ^ TXN_START_ID,
    {
        self.txn_id ^ TXN_START_ID
    }

    /// Get the temporary timestamp of this transaction.
    pub fn get_transaction_temp_ts(&self) -> (r: TimeStamp)
        ensures
            r == self@.txn_id,
    {
        self.txn_id
    }

    /// Get the isolation level of this transaction.
    pub fn get_isolation_level(&self) -> (r: IsolationLevel)
        ensures
            r == self@.isolation_level,
    {
        self.isolation_level
    }

    /// Get the transaction state.
    pub fn get_state(&self) -> (r: TransactionState)
        ensures
            r == self@.state,
    {
        self.state
    }

    /// Get the read timestamp.
    pub fn get_read_ts(&self) -> (r: TimeStamp)
        ensures
            r == self@.read_ts,
    {
        self.read_ts
    }

    /// Get the commit timestamp.
    pub fn get_commit_ts(&self) -> (r: TimeStamp)
        ensures
            r == self@.commit_ts,
    {
        self.commit_ts
    }

    /// Modify an existing undo log at the given index.
    pub fn modify_undo_log(&mut self, log_idx: usize, new_log: UndoLog)
        requires
            log_idx < old(self)@.undo_logs.len(),
        ensures
            final(self)@ == (TransactionView {
                undo_logs: old(self)@.undo_logs.update(log_idx as int, new_log@),
                ..old(self)@
            }),
    {
        let ghost nl = new_log@;
        self.undo_logs.set(log_idx, new_log);
        assert(self@.undo_logs =~= old(self)@.undo_logs.update(log_idx as int, nl));
    }

    /// Append an undo log and return the UndoLink pointing to it.
    pub fn append_undo_log(&mut self, log: UndoLog) -> (r: UndoLink)
        requires
            old(self)@.undo_logs.len() < i32::MAX,
        ensures
            final(self)@ == (TransactionView {
                undo_logs: old(self)@.undo_logs.push(log@),
                ..old(self)@
            }),
            r == (UndoLink { prev_txn: old(self)@.txn_id, prev_log_idx: old(self)@.undo_logs.len() as i32 }),
    {
        let ghost l = log@;
        self.undo_logs.push(log);
        assert(self@.undo_logs =~= old(self)@.undo_logs.push(l));
        UndoLink { prev_txn: self.txn_id, prev_log_idx: (self.undo_logs.len() - 1) as i32 }
    }

    /// Add a record id to the write set of table `t`.
    pub fn append_write_set(&mut self, t: TableOid, rid: RID)
        ensures
            final(self)@ == (TransactionView {
                write_set: old(self)@.write_set.insert((t, rid_key(rid))),
                ..old(self)@
            }),
    {
        let ghost key = (t, rid_key(rid));
        self.write_set.push((t, rid));
        proof {
            let f = |w: (TableOid, RID)| (w.0, rid_key(w.1));
            let old_seq = old(self).write_set@;
            assert(self.write_set@.map_values(f) =~= old_seq.map_values(f).push(key));
            old_seq.map_values(f).lemma_push_to_set_commute(key);
        }
    }

    /// The write set: each written row as its table and record id, every
    /// written row once.
    pub fn get_write_sets(&self) -> (r: Vec<(TableOid, RID)>)
        ensures
            r@.map_values(|w: (TableOid, RID)| (w.0, rid_key(w.1))).to_set() == self@.write_set,
    {
        let mut out: Vec<(TableOid, RID)> = Vec::new();
        let mut i: usize = 0;
        while i < self.write_set.len()
            invariant
                0 <= i <= self.write_set@.len(),
                out@.map_values(|w: (TableOid, RID)| (w.0, rid_key(w.1))).to_set() == self.write_set@.take(
                    i as int,
                ).map_values(|w: (TableOid, RID)| (w.0, rid_key(w.1))).to_set(),
            decreases self.write_set@.len() - i,
        {
            let w = self.write_set[i];
            let ghost f = |w: (TableOid, RID)| (w.0, rid_key(w.1));
            let ghost before = out@;
            proof {
                let seen = self.write_set@.take(i as int).map_values(f);
                assert(self.write_set@.take(i + 1).map_values(f) =~= seen.push(f(w)));
                seen.lemma_push_to_set_commute(f(w));
            }
            if !Self::holds_row(&out, w) {
                out.push(w);
                proof {
                    assert(out@.map_values(f) =~= before.map_values(f).push(f(w)));
                    before.map_values(f).lemma_push_to_set_commute(f(w));
                }
            } else {
                proof {
                    assert(before.map_values(f).to_set().contains(f(w))) by {
                        let k = choose|k: int|
                            0 <= k < before.len() && before[k].0 == w.0 && rid_key(before[k].1) == rid_key(w.1);
                        assert(before.map_values(f)[k] == f(w));
                    }
                    assert(before.map_values(f).to_set().insert(f(w)) =~= before.map_values(f).to_set());
                }
            }
            i += 1;
        }
        assert(self.write_set@.take(self.write_set@.len() as int) =~= self.write_set@);
        out
    }

    /// Whether `rows` holds `w`.
    fn holds_row(rows: &Vec<(TableOid, RID)>, w: (TableOid, RID)) -> (r: bool)
        ensures
            r == exists|k: int|
                0 <= k < rows@.len() && rows@[k].0 == w.0 && rid_key(rows@[k].1) == rid_key(w.1),
    {
        let mut i: usize = 0;
        while i < rows.len()
            invariant
                0 <= i <= rows@.len(),
                forall|k: int| 0 <= k < i ==> !(rows@[k].0 == w.0 && rid_key(rows@[k].1) == rid_key(w.1)),
            decreases rows@.len() - i,
        {
            let x = rows[i];
            if x.0 == w.0 && x.1.page_id() == w.1.page_id() && x.1.slot_num() == w.1.slot_num() {
                return true;
            }
            proof {
                if rid_key(x.1) == rid_key(w.1) {
                    crate::common::rid::lemma_packed_rid_injective(
                        x.1.spec_page_id(), x.1.spec_slot_num(), w.1.spec_page_id(), w.1.spec_slot_num());
                }
            }
            i += 1;
        }
        false
    }

    /// Add a scan predicate for table `t`.
    pub fn append_scan_predicate(&mut self, t: TableOid, predicate: String)
        ensures
            final(self)@ == (TransactionView {
                scan_predicates: predicate_added(old(self)@.scan_predicates, t, predicate@),
                ..old(self)@
            }),
    {
        let ghost s = old(self)@.scan_predicates;
        let ghost p = predicate@;
        let mut i: usize = 0;
        while i < self.scan_predicates.len()
            invariant
                0 <= i <= self.scan_predicates@.len(),
                *self == *old(self),
                s == predicate_views(self.scan_predicates@),
                s.len() == self.scan_predicates@.len(),
                p == predicate@,
                s == old(self)@.scan_predicates,
                forall|j: int| 0 <= j < i ==> s[j].0 != t,
            decreases self.scan_predicates@.len() - i,
        {
            if self.scan_predicates[i].0 == t {
                proof {
                    assert(s[i as int].0 == t);
                    let k = predicate_slot(s, t);
                    assert(0 <= k < s.len() && s[k].0 == t && forall|j: int| 0 <= j < k ==> s[j].0 != t);
                    assert(k == i) by {
                        if k < i {
                            assert(s[k].0 != t);
                        }
                        if k > i {
                            assert(s[i as int].0 != t);
                        }
                    }
                }
                let ghost whole = self.scan_predicates@;
                let (table, mut preds) = self.scan_predicates.remove(i);
                let ghost before = preds@;
                preds.push(predicate);
                proof {
                    assert(string_views(preds@) =~= string_views(before).push(p));
                }
                self.scan_predicates.insert(i, (table, preds));
                proof {
                    assert(self.scan_predicates@ =~= whole.update(i as int, (table, preds)));
                    assert(predicate_views(self.scan_predicates@) =~= s.update(i as int, (t, s[i as int].1.push(p))));
                }
                return;
            }
            i += 1;
        }
        proof {
            assert(!exists|i: int| 0 <= i < s.len() && s[i].0 == t);
        }
        let mut preds: Vec<String> = Vec::new();
        preds.push(predicate);
        proof {
            assert(string_views(preds@) =~= seq![p]);
        }
        self.scan_predicates.push((t, preds));
        proof {
            assert(predicate_views(self.scan_predicates@) =~= s.push((t, seq![p])));
        }
    }

    /// A copy of the scan predicates.
    pub fn get_scan_predicates(&self) -> (r: Vec<(TableOid, Vec<String>)>)
        ensures
            predicate_views(r@) == self@.scan_predicates,
    {
        let mut out: Vec<(TableOid, Vec<String>)> = Vec::new();
        let mut i: usize = 0;
        while i < self.scan_predicates.len()
            invariant
                0 <= i <= self.scan_predicates@.len(),
                predicate_views(out@) =~= predicate_views(self.scan_predicates@.take(i as int)),
            decreases self.scan_predicates@.len() - i,
        {
            let t = self.scan_predicates[i].0;
            let preds = crate::binder::binder::clone_strings(self.scan_predicates[i].1.as_slice());
            let ghost before = out@;
            out.push((t, preds));
            proof {
                let whole = self.scan_predicates@;
                assert(whole.take(i + 1) =~= whole.take(i as int).push(whole[i as int]));
                assert(out@ =~= before.push((t, preds)));
                assert(predicate_views(out@) =~= predicate_views(before).push(predicate_views(whole)[i as int]));
                assert(predicate_views(whole.take(i + 1)) =~= predicate_views(whole.take(i as int)).push(
                    predicate_views(whole)[i as int],
                ));
            }
            i += 1;
        }
        assert(self.scan_predicates@.take(self.scan_predicates@.len() as int) =~= self.scan_predicates@);
        out
    }

    /// Get the number of undo logs.
    pub fn get_undo_log_num(&self) -> (r: usize)
        ensures
            r == self@.undo_logs.len(),
    {
        self.undo_logs.len()
    }

    /// Get a copy of the undo log at the given index.
    pub fn get_undo_log(&self, log_id: usize) -> (r: UndoLog)
        requires
            log_id < self@.undo_logs.len(),
        ensures
            r@ == self@.undo_logs[log_id as int],
    {
        self.undo_logs[log_id].duplicate()
    }

    /// Clear the undo logs and return the number of logs before clearing.
    pub fn clear_undo_log(&mut self) -> (r: usize)
        ensures
            r == old(self)@.undo_logs.len(),
            final(self)@ == (TransactionView { undo_logs: Seq::empty(), ..old(self)@ }),
    {
        let len = self.undo_logs.len();
        self.undo_logs.clear();
        assert(self@.undo_logs =~= Seq::<UndoLogView>::empty());
        len
    }

    /// Set the transaction state to Tainted.
    pub fn set_tainted(&mut self)
        ensures
            final(self)@ == (TransactionView { state: TransactionState::Tainted, ..old(self)@ }),
    {
        self.state = TransactionState::Tainted;
    }

    /// Set the transaction state.
    pub(crate) fn set_state(&mut self, state: TransactionState)
        ensures
            final(self)@ == (TransactionView { state, ..old(self)@ }),
    {
        self.state = state;
    }

    /// Set the read timestamp.
    pub(crate) fn set_read_ts(&mut self, ts: TimeStamp)
        ensures
            final(self)@ == (TransactionView { read_ts: ts, ..old(self)@ }),
    {
        self.read_ts = ts;
    }

    /// Set the commit timestamp.
    pub(crate) fn set_commit_ts(&mut self, ts: TimeStamp)
        ensures
            final(self)@ == (TransactionView { commit_ts: ts, ..old(self)@ }),
    {
        self.commit_ts = ts;
    }
}

} // verus!

use std::collections::HashMap;
use vstd::prelude::*;

use crate::common::errors::BustubError;
use crate::common::rid::{packed_rid, RID};
use crate::common::TxnId;
use crate::concurrency::transaction::{
    IsolationLevel, Transaction, TransactionState, TransactionView, UndoLink, UndoLog, UndoLogView,
    TXN_START_ID,
};
use crate::concurrency::watermark::{is_lowest, Watermark, WatermarkView};
use crate::storage::tuple::{TimeStamp, INVALID_TS};

verus! {

broadcast use vstd::std_specs::hash::group_hash_axioms;

/// Whether a transaction in state `s` can commit: it is running.
pub open spec fn can_commit(s: TransactionState) -> bool {
    s == TransactionState::Running
}

/// Whether a transaction in state `s` can abort: it is running or tainted.
pub open spec fn can_abort(s: TransactionState) -> bool {
    s == TransactionState::Running || s == TransactionState::Tainted
}

/// The packed value of a record id, as the undo links are keyed.
pub open spec fn link_key(r: RID) -> int {
    packed_rid(r.spec_page_id(), r.spec_slot_num())
}

/// TransactionManager keeps track of all the transactions of the system.
pub struct TransactionManager {
    /// Every transaction ever begun, by id: the `i`-th has id `TXN_START_ID + i`.
    txns: Vec<Transaction>,
    /// The read timestamps of the running transactions.
    watermark: Watermark,
    /// The last committed timestamp.
    last_commit_ts: TimeStamp,
    /// The next transaction ID to assign.
    next_txn_id: TxnId,
    /// The first undo link of each tuple, by packed record id.
    version_info: HashMap<i64, UndoLink>,
}

/// The mathematical view of the transaction manager.
/// `reads` with one more transaction reading at `ts`.
pub open spec fn reads_added(reads: Map<int, int>, ts: int) -> Map<int, int> {
    reads.insert(
        ts,
        if reads.contains_key(ts) {
            reads[ts] + 1
        } else {
            1
        },
    )
}

/// `reads` with one transaction reading at `ts` fewer; a timestamp no
/// transaction reads at any more is forgotten.
pub open spec fn reads_removed(reads: Map<int, int>, ts: int) -> Map<int, int> {
    if !reads.contains_key(ts) {
        reads
    } else if reads[ts] == 1 {
        reads.remove(ts)
    } else {
        reads.insert(ts, reads[ts] - 1)
    }
}

pub struct TransactionManagerView {
    pub txns: Seq<TransactionView>,
    pub watermark: WatermarkView,
    pub undo_links: Map<int, UndoLink>,
}

impl View for TransactionManager {
    type V = TransactionManagerView;

    closed spec fn view(&self) -> TransactionManagerView {
        TransactionManagerView {
            txns: self.txns@.map_values(|t: Transaction| t@),
            watermark: self.watermark@,
            undo_links: Map::new(
                |k: int| i64::MIN <= k <= i64::MAX && self.version_info@.contains_key(k as i64),
                |k: int| self.version_info@[k as i64],
            ),
        }
    }
}

impl TransactionManager {
    /// Transactions are numbered from `TXN_START_ID` in the order they began.
    pub closed spec fn wf(&self) -> bool {
        &&& self.watermark.wf()
        &&& self.next_txn_id == TXN_START_ID + self.txns@.len()
        &&& forall|i: int|
            0 <= i < self.txns@.len() ==> (#[trigger] self.txns@[i])@.txn_id == TXN_START_ID + i
    }

    /// Whether `id` names a transaction of this manager.
    pub open spec fn has_txn(&self, id: TxnId) -> bool {
        TXN_START_ID <= id < TXN_START_ID + self@.txns.len()
    }

    /// The transaction named `id`.
    pub open spec fn txn(&self, id: TxnId) -> TransactionView {
        self@.txns[id - TXN_START_ID]
    }

    /// What consistency gives: transaction `i` has id `TXN_START_ID + i`.
    pub proof fn lemma_wf(&self)
        requires
            self.wf(),
        ensures
            TXN_START_ID + self@.txns.len() <= i64::MAX,
            forall|i: int| 0 <= i < self@.txns.len() ==> #[trigger] self@.txns[i].txn_id == TXN_START_ID + i,
    {
        assert forall|i: int| 0 <= i < self@.txns.len() implies #[trigger] self@.txns[i].txn_id
            == TXN_START_ID + i by {
            assert(self@.txns[i] == self.txns@[i]@);
        }
    }

    /// A manager with no transaction, at commit timestamp 0.
    pub fn new() -> (r: Self)
        ensures
            r.wf(),
            r@.txns == Seq::<TransactionView>::empty(),
            r@.watermark.commit_ts == 0,
            r@.watermark.watermark == 0,
            r@.watermark.reads == Map::<int, int>::empty(),
            r@.undo_links == Map::<int, UndoLink>::empty(),
    {
        let r = TransactionManager {
            txns: Vec::new(),
            watermark: Watermark::new(0),
            last_commit_ts: 0,
            next_txn_id: TXN_START_ID,
            version_info: HashMap::new(),
        };
        assert(r@.txns =~= Seq::<TransactionView>::empty());
        assert(r@.undo_links =~= Map::<int, UndoLink>::empty());
        r
    }

    /// Begin a new transaction with the default isolation level (Snapshot Isolation).
    pub fn new_txn(&mut self) -> (r: Result<TxnId, BustubError>)
        requires
            old(self).wf(),
            TXN_START_ID + old(self)@.txns.len() < i64::MAX,
            old(self)@.watermark.reads.contains_key(0) ==> old(self)@.watermark.reads[0] < i32::MAX,
        ensures
            final(self).wf(),
            r == Ok::<TxnId, BustubError>((TXN_START_ID + old(self)@.txns.len()) as TxnId),
            final(self)@.txns == old(self)@.txns.push(
                TransactionView {
                    state: TransactionState::Running,
                    read_ts: 0,
                    commit_ts: INVALID_TS,
                    undo_logs: Seq::empty(),
                    write_set: Set::empty(),
                    scan_predicates: Seq::empty(),
                    isolation_level: IsolationLevel::SnapshotIsolation,
                    txn_id: (TXN_START_ID + old(self)@.txns.len()) as TxnId,
                },
            ),
            final(self)@.undo_links == old(self)@.undo_links,
    {
        self.new_txn_with_iso_level(IsolationLevel::SnapshotIsolation)
    }

    /// Begin a new transaction with the given isolation level: it gets the
    /// next id, runs, reads at timestamp 0 and is registered in the watermark.
    pub fn new_txn_with_iso_level(&mut self, iso_level: IsolationLevel) -> (r: Result<TxnId, BustubError>)
        requires
            old(self).wf(),
            TXN_START_ID + old(self)@.txns.len() < i64::MAX,
            old(self)@.watermark.reads.contains_key(0) ==> old(self)@.watermark.reads[0] < i32::MAX,
        ensures
            final(self).wf(),
            r == Ok::<TxnId, BustubError>((TXN_START_ID + old(self)@.txns.len()) as TxnId),
            final(self)@.txns == old(self)@.txns.push(
                TransactionView {
                    state: TransactionState::Running,
                    read_ts: 0,
                    commit_ts: INVALID_TS,
                    undo_logs: Seq::empty(),
                    write_set: Set::empty(),
                    scan_predicates: Seq::empty(),
                    isolation_level: iso_level,
                    txn_id: (TXN_START_ID + old(self)@.txns.len()) as TxnId,
                },
            ),
            final(self)@.watermark.commit_ts == old(self)@.watermark.commit_ts,
            final(self)@.watermark.reads == old(self)@.watermark.reads.insert(
                0,
                if old(self)@.watermark.reads.contains_key(0) {
                    old(self)@.watermark.reads[0] + 1
                } else {
                    1
                },
            ),
            final(self)@.undo_links == old(self)@.undo_links,
    {
        let txn_id = self.next_txn_id;
        self.next_txn_id = self.next_txn_id + 1;
        let txn = Transaction::new(txn_id, iso_level);
        let read_ts = txn.get_read_ts();
        let ghost tv = txn@;
        self.txns.push(txn);
        self.watermark.add_txn(read_ts);
        assert(self@.txns =~= old(self)@.txns.push(tv));
        assert forall|i: int| 0 <= i < self.txns@.len() implies (#[trigger] self.txns@[i])@.txn_id
            == TXN_START_ID + i by {
            if i < old(self).txns@.len() {
                assert(self.txns@[i] == old(self).txns@[i]);
            }
        }
        Ok(txn_id)
    }

    /// The transaction named `txn_id`.
    pub fn get_txn(&self, txn_id: TxnId) -> (r: &Transaction)
        requires
            self.wf(),
            self.has_txn(txn_id),
        ensures
            r@ == self.txn(txn_id),
    {
        let n = self.txns.len();
        assert(self@.txns.len() == n);
        let idx = (txn_id - TXN_START_ID) as usize;
        assert(idx as int == txn_id - TXN_START_ID);
        assert(self@.txns[idx as int] == self.txns@[idx as int]@);
        &self.txns[idx]
    }

    /// Verify if a transaction satisfies serializability: every one does.
    fn verify_txn(&self, txn_id: TxnId) -> (r: bool)
        ensures
            r,
    {
        true
    }

    /// Commit a running transaction: it is committed, the watermark takes its
    /// commit timestamp and forgets its read timestamp.
    pub fn commit_txn(&mut self, txn_id: TxnId) -> (r: Result<(), BustubError>)
        requires
            old(self).wf(),
            old(self).has_txn(txn_id),
        ensures
            final(self).wf(),
            final(self)@.undo_links == old(self)@.undo_links,
            !can_commit(old(self).txn(txn_id).state) ==> {
                &&& r matches Err(BustubError::Message(m)) && m@ == "txn not in running state"@
                &&& final(self)@ == old(self)@
            },
            can_commit(old(self).txn(txn_id).state) ==> {
                let t = old(self).txn(txn_id);
                &&& r is Ok
                &&& final(self)@.txns == old(self)@.txns.update(
                    txn_id - TXN_START_ID,
                    TransactionView { state: TransactionState::Committed, ..t },
                )
                &&& final(self)@.watermark.commit_ts == t.commit_ts
                &&& !final(self)@.watermark.reads.is_empty() ==> is_lowest(
                    final(self)@.watermark.reads,
                    final(self)@.watermark.watermark,
                )
                &&& final(self)@.watermark.reads.is_empty() ==> final(self)@.watermark.watermark
                    == old(self)@.watermark.watermark
                &&& final(self)@.watermark.reads == if !old(self)@.watermark.reads.contains_key(
                    t.read_ts as int,
                ) {
                    old(self)@.watermark.reads
                } else if old(self)@.watermark.reads[t.read_ts as int] == 1 {
                    old(self)@.watermark.reads.remove(t.read_ts as int)
                } else {
                    old(self)@.watermark.reads.insert(
                        t.read_ts as int,
                        old(self)@.watermark.reads[t.read_ts as int] - 1,
                    )
                }
            },
    {
        let n = self.txns.len();
        assert(self@.txns.len() == n);
        let idx = (txn_id - TXN_START_ID) as usize;
        assert(idx as int == txn_id - TXN_START_ID);
        proof {
            self.lemma_wf();
            assert(self@.txns[idx as int] == self.txns@[idx as int]@);
        }
        if self.txns[idx].get_state() != TransactionState::Running {
            return Err(BustubError::Message(String::from_str("txn not in running state")));
        }
        if self.txns[idx].get_isolation_level() == IsolationLevel::Serializable {
            if !self.verify_txn(txn_id) {
                return Err(BustubError::Message(String::from_str("txn verification failed")));
            }
        }
        let commit_ts = self.txns[idx].get_commit_ts();
        let read_ts = self.txns[idx].get_read_ts();
        self.set_state_at(idx, TransactionState::Committed);
        self.watermark.update_commit_ts(commit_ts);
        self.watermark.remove_txn(read_ts);
        Ok(())
    }

    /// Sets the state of the `idx`-th transaction.
    fn set_state_at(&mut self, idx: usize, state: TransactionState)
        requires
            old(self).wf(),
            idx < old(self)@.txns.len(),
        ensures
            final(self).wf(),
            final(self).watermark == old(self).watermark,
            final(self).version_info == old(self).version_info,
            final(self)@.txns == old(self)@.txns.update(
                idx as int,
                TransactionView { state, ..old(self)@.txns[idx as int] },
            ),
    {
        let mut txn = self.txns.remove(idx);
        txn.set_state(state);
        self.txns.insert(idx, txn);
        assert(self@.txns =~= old(self)@.txns.update(
            idx as int,
            TransactionView { state, ..old(self)@.txns[idx as int] },
        ));
        assert forall|i: int| 0 <= i < self.txns@.len() implies (#[trigger] self.txns@[i])@.txn_id
            == TXN_START_ID + i by {
            assert(self@.txns[i] == self.txns@[i]@);
            assert(old(self)@.txns[i] == old(self).txns@[i]@);
        }
    }

    /// Abort a running or tainted transaction: it is aborted and the
    /// watermark forgets its read timestamp.
    pub fn abort_txn(&mut self, txn_id: TxnId) -> (r: Result<(), BustubError>)
        requires
            old(self).wf(),
            old(self).has_txn(txn_id),
        ensures
            final(self).wf(),
            final(self)@.undo_links == old(self)@.undo_links,
            !can_abort(old(self).txn(txn_id).state) ==> {
                &&& r matches Err(BustubError::Message(m)) && m@ == "txn not in running / tainted state"@
                &&& final(self)@ == old(self)@
            },
            can_abort(old(self).txn(txn_id).state) ==> {
                let t = old(self).txn(txn_id);
                &&& r is Ok
                &&& final(self)@.txns == old(self)@.txns.update(
                    txn_id - TXN_START_ID,
                    TransactionView { state: TransactionState::Aborted, ..t },
                )
                &&& final(self)@.watermark.commit_ts == old(self)@.watermark.commit_ts
                &&& !final(self)@.watermark.reads.is_empty() ==> is_lowest(
                    final(self)@.watermark.reads,
                    final(self)@.watermark.watermark,
                )
                &&& final(self)@.watermark.reads.is_empty() ==> final(self)@.watermark.watermark
                    == old(self)@.watermark.watermark
                &&& final(self)@.watermark.reads == if !old(self)@.watermark.reads.contains_key(
                    t.read_ts as int,
                ) {
                    old(self)@.watermark.reads
                } else if old(self)@.watermark.reads[t.read_ts as int] == 1 {
                    old(self)@.watermark.reads.remove(t.read_ts as int)
                } else {
                    old(self)@.watermark.reads.insert(
                        t.read_ts as int,
                        old(self)@.watermark.reads[t.read_ts as int] - 1,
                    )
                }
            },
    {
        let n = self.txns.len();
        assert(self@.txns.len() == n);
        let idx = (txn_id - TXN_START_ID) as usize;
        assert(idx as int == txn_id - TXN_START_ID);
        proof {
            self.lemma_wf();
            assert(self@.txns[idx as int] == self.txns@[idx as int]@);
        }
        let state = self.txns[idx].get_state();
        if state != TransactionState::Running && state != TransactionState::Tainted {
            return Err(BustubError::Message(String::from_str("txn not in running / tainted state")));
        }
        let read_ts = self.txns[idx].get_read_ts();
        self.set_state_at(idx, TransactionState::Aborted);
        self.watermark.remove_txn(read_ts);
        Ok(())
    }

    /// Set the first undo link of the tuple `rid`, or remove it when
    /// `prev_link` is `None`. When `check` is given, it is first called on
    /// the current link; if it says no, nothing changes and `false` comes back.
    pub fn update_undo_link<F: Fn(Option<UndoLink>) -> bool>(
        &mut self,
        rid: RID,
        prev_link: Option<UndoLink>,
        check: Option<F>,
    ) -> (r: bool)
        requires
            old(self).wf(),
            check matches Some(f) ==> f.requires(
                (if old(self)@.undo_links.contains_key(link_key(rid)) {
                    Some(old(self)@.undo_links[link_key(rid)])
                } else {
                    None
                },),
            ),
        ensures
            final(self).wf(),
            final(self)@.txns == old(self)@.txns,
            final(self)@.watermark == old(self)@.watermark,
            ({
                let existing = if old(self)@.undo_links.contains_key(link_key(rid)) {
                    Some(old(self)@.undo_links[link_key(rid)])
                } else {
                    None
                };
                &&& check is None ==> r
                &&& check matches Some(f) ==> f.ensures((existing,), r)
                &&& r ==> final(self)@.undo_links == match prev_link {
                    Some(l) => old(self)@.undo_links.insert(link_key(rid), l),
                    None => old(self)@.undo_links.remove(link_key(rid)),
                }
                &&& !r ==> final(self)@.undo_links == old(self)@.undo_links
            }),
    {
        let key = rid.get();
        let existing = match self.version_info.get(&key) {
            Some(l) => Some(*l),
            None => None,
        };
        assert(existing == if old(self)@.undo_links.contains_key(link_key(rid)) {
            Some(old(self)@.undo_links[link_key(rid)])
        } else {
            None
        });
        match check {
            Some(f) => {
                if !f(existing) {
                    return false;
                }
            },
            None => {},
        }
        match prev_link {
            Some(link) => {
                self.version_info.insert(key, link);
                assert(self@.undo_links =~= old(self)@.undo_links.insert(link_key(rid), link));
            },
            None => {
                self.version_info.remove(&key);
                assert(self@.undo_links =~= old(self)@.undo_links.remove(link_key(rid)));
            },
        }
        true
    }

    /// Get the first undo link of a tuple, `None` if it has none.
    pub fn get_undo_link(&self, rid: RID) -> (r: Option<UndoLink>)
        requires
            self.wf(),
        ensures
            r == if self@.undo_links.contains_key(link_key(rid)) {
                Some(self@.undo_links[link_key(rid)])
            } else {
                None
            },
    {
        let key = rid.get();
        match self.version_info.get(&key) {
            Some(l) => Some(*l),
            None => None,
        }
    }

    /// The undo log a link points to, `None` if its transaction is unknown.
    pub fn get_undo_log_optional(&self, link: UndoLink) -> (r: Option<UndoLog>)
        requires
            self.wf(),
            self.has_txn(link.prev_txn) ==> 0 <= link.prev_log_idx < self.txn(
                link.prev_txn,
            ).undo_logs.len(),
        ensures
            match r {
                None => !self.has_txn(link.prev_txn),
                Some(l) => self.has_txn(link.prev_txn) && l@ == self.txn(
                    link.prev_txn,
                ).undo_logs[link.prev_log_idx as int],
            },
    {
        if link.prev_txn < TXN_START_ID || link.prev_txn - TXN_START_ID >= self.txns.len() as i64 {
            return None;
        }
        let txn = self.get_txn(link.prev_txn);
        Some(txn.get_undo_log(link.prev_log_idx as usize))
    }

    /// The undo log a link points to, an error if its transaction is unknown.
    pub fn get_undo_log(&self, link: UndoLink) -> (r: Result<UndoLog, BustubError>)
        requires
            self.wf(),
            self.has_txn(link.prev_txn) ==> 0 <= link.prev_log_idx < self.txn(
                link.prev_txn,
            ).undo_logs.len(),
        ensures
            match r {
                Err(e) => !self.has_txn(link.prev_txn) && (e matches BustubError::Message(m) && m@
                    == "undo log not exist"@),
                Ok(l) => self.has_txn(link.prev_txn) && l@ == self.txn(
                    link.prev_txn,
                ).undo_logs[link.prev_log_idx as int],
            },
    {
        match self.get_undo_log_optional(link) {
            Some(l) => Ok(l),
            None => Err(BustubError::Message(String::from_str("undo log not exist"))),
        }
    }

    /// Get the lowest read timestamp in the system (the watermark).
    pub fn get_watermark(&self) -> (r: TimeStamp)
        requires
            self.wf(),
        ensures
            r == if self@.watermark.reads.is_empty() {
                self@.watermark.commit_ts
            } else {
                self@.watermark.watermark
            },
    {
        self.watermark.get_watermark()
    }
}

/// A transaction that has committed or aborted can neither commit nor abort again.
pub proof fn lemma_finished_stays_finished(s: TransactionState)
    requires
        s == TransactionState::Committed || s == TransactionState::Aborted,
    ensures
        !can_commit(s),
        !can_abort(s),
{
}

impl TransactionManager {
    /// Whether a transaction can begin without its id or the count of
    /// transactions reading at timestamp 0 overflowing.
    pub fn can_begin(&self) -> (r: bool)
        requires
            self.wf(),
        ensures
            r == (TXN_START_ID + self@.txns.len() < i64::MAX && (self@.watermark.reads.contains_key(0)
                ==> self@.watermark.reads[0] < i32::MAX)),
    {
        self.next_txn_id < i64::MAX && self.watermark.read_count(0) < i32::MAX
    }
}

} // verus!

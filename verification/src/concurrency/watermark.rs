use std::collections::HashMap;
use vstd::prelude::*;

use crate::storage::tuple::TimeStamp;

verus! {

broadcast use vstd::std_specs::hash::group_hash_axioms;

/// Tracks the read timestamps of the running transactions and the lowest
/// of them.
pub struct Watermark {
    commit_ts: TimeStamp,
    watermark: TimeStamp,
    current_reads: HashMap<TimeStamp, i32>,
}

/// The mathematical view of a watermark: the latest commit timestamp, the
/// tracked watermark, and how many running transactions read at each
/// timestamp.
pub struct WatermarkView {
    pub commit_ts: int,
    pub watermark: int,
    pub reads: Map<int, int>,
}

/// Whether `ts` is the lowest timestamp that `reads` tracks.
pub open spec fn is_lowest(reads: Map<int, int>, ts: int) -> bool {
    &&& reads.contains_key(ts)
    &&& forall|t: int| #[trigger] reads.contains_key(t) ==> ts <= t
}

impl View for Watermark {
    type V = WatermarkView;

    closed spec fn view(&self) -> WatermarkView {
        WatermarkView {
            commit_ts: self.commit_ts as int,
            watermark: self.watermark as int,
            reads: Map::new(
                |ts: int| i64::MIN <= ts <= i64::MAX && self.current_reads@.contains_key(ts as i64),
                |ts: int| self.current_reads@[ts as i64] as int,
            ),
        }
    }
}

impl Watermark {
    /// Every tracked timestamp is read by at least one transaction, and
    /// while one is, the watermark is the lowest of them.
    pub open spec fn wf(&self) -> bool {
        &&& forall|ts: int| #[trigger] self@.reads.contains_key(ts) ==> self@.reads[ts] >= 1
        &&& forall|ts: int| #[trigger] self@.reads.contains_key(ts) ==> self@.reads[ts] <= i32::MAX
        &&& self@.reads.dom().finite()
        &&& !self@.reads.is_empty() ==> is_lowest(self@.reads, self@.watermark)
    }

    /// A watermark at `commit_ts` with no running transaction.
    pub fn new(commit_ts: TimeStamp) -> (r: Self)
        ensures
            r.wf(),
            r@.commit_ts == commit_ts,
            r@.watermark == commit_ts,
            r@.reads == Map::<int, int>::empty(),
    {
        let r = Watermark { commit_ts, watermark: commit_ts, current_reads: HashMap::new() };
        assert(r@.reads =~= Map::<int, int>::empty());
        r
    }

    /// Register a transaction that reads at `read_ts`.
    pub fn add_txn(&mut self, read_ts: TimeStamp)
        requires
            old(self).wf(),
            old(self)@.reads.contains_key(read_ts as int) ==> old(self)@.reads[read_ts as int] < i32::MAX,
        ensures
            final(self).wf(),
            final(self)@.commit_ts == old(self)@.commit_ts,
            final(self)@.reads == old(self)@.reads.insert(
                read_ts as int,
                if old(self)@.reads.contains_key(read_ts as int) {
                    old(self)@.reads[read_ts as int] + 1
                } else {
                    1
                },
            ),
            final(self)@.watermark == if old(self)@.reads.is_empty() || read_ts < old(self)@.watermark {
                read_ts as int
            } else {
                old(self)@.watermark
            },
    {
        let was_empty = self.current_reads.is_empty();
        proof {
            assert(was_empty == old(self)@.reads.is_empty()) by {
                if !was_empty {
                    let k = choose|k: i64| self.current_reads@.contains_key(k);
                    assert(self@.reads.contains_key(k as int));
                } else {
                    assert(self@.reads =~= Map::<int, int>::empty());
                }
            }
        }
        let count: i32 = match self.current_reads.get(&read_ts) {
            Some(c) => {
                assert(self@.reads.contains_key(read_ts as int));
                assert(self@.reads[read_ts as int] == *c as int);
                *c + 1
            },
            None => {
                assert(!self@.reads.contains_key(read_ts as int));
                1
            },
        };
        self.current_reads.insert(read_ts, count);
        if was_empty || read_ts < self.watermark {
            self.watermark = read_ts;
        }
        assert(self@.reads =~= old(self)@.reads.insert(read_ts as int, count as int));
    }

    /// Unregister a transaction that reads at `read_ts`; a timestamp no
    /// transaction reads at is forgotten, and the watermark rises to the
    /// lowest timestamp still read.
    pub fn remove_txn(&mut self, read_ts: TimeStamp)
        requires
            old(self).wf(),
        ensures
            final(self).wf(),
            final(self)@.commit_ts == old(self)@.commit_ts,
            !final(self)@.reads.is_empty() ==> is_lowest(final(self)@.reads, final(self)@.watermark),
            final(self)@.reads.is_empty() ==> final(self)@.watermark == old(self)@.watermark,
            final(self)@.reads == if !old(self)@.reads.contains_key(read_ts as int) {
                old(self)@.reads
            } else if old(self)@.reads[read_ts as int] == 1 {
                old(self)@.reads.remove(read_ts as int)
            } else {
                old(self)@.reads.insert(read_ts as int, old(self)@.reads[read_ts as int] - 1)
            },
    {
        match self.current_reads.get(&read_ts) {
            Some(c) => {
                assert(self@.reads.contains_key(read_ts as int));
                assert(self@.reads[read_ts as int] == *c as int);
                let count: i32 = *c - 1;
                if count == 0 {
                    self.current_reads.remove(&read_ts);
                    assert(self@.reads =~= old(self)@.reads.remove(read_ts as int));
                    if read_ts == self.watermark && !self.current_reads.is_empty() {
                        proof {
                            let k = choose|k: i64| self.current_reads@.contains_key(k);
                            assert(self.current_reads@.dom().contains(k));
                            assert(self@.reads.contains_key(k as int));
                            assert(self.current_reads@.dom().finite());
                            assert(self.current_reads@.dom().len() > 0);
                        }
                        let low = lowest_key(&self.current_reads);
                        self.watermark = low;
                        proof {
                            assert forall|t: int| #[trigger] self@.reads.contains_key(t) implies low <= t by {
                                assert(self.current_reads@.contains_key(t as i64));
                            }
                        }
                    }
                } else {
                    self.current_reads.insert(read_ts, count);
                    assert(self@.reads =~= old(self)@.reads.insert(read_ts as int, count as int));
                }
            },
            None => {
                assert(self@.reads =~= old(self)@.reads);
            },
        }
    }

    /// The caller should update commit ts before removing the txn from the
    /// watermark so that we can track watermark correctly.
    pub fn update_commit_ts(&mut self, commit_ts: TimeStamp)
        requires
            old(self).wf(),
        ensures
            final(self).wf(),
            final(self)@ == (WatermarkView { commit_ts: commit_ts as int, ..old(self)@ }),
    {
        self.commit_ts = commit_ts;
    }

    /// The lowest read timestamp of the running transactions, or the latest
    /// commit timestamp when none runs.
    pub fn get_watermark(&self) -> (r: TimeStamp)
        requires
            self.wf(),
        ensures
            self@.reads.is_empty() ==> r == self@.commit_ts,
            !self@.reads.is_empty() ==> is_lowest(self@.reads, r as int),
    {
        if self.current_reads.is_empty() {
            assert(self@.reads =~= Map::<int, int>::empty());
            return self.commit_ts;
        }
        proof {
            assert(!self@.reads.is_empty()) by {
                let k = choose|k: i64| self.current_reads@.contains_key(k);
                assert(self@.reads.contains_key(k as int));
            }
        }
        self.watermark
    }
}

impl Default for Watermark {
    fn default() -> (r: Self)
        ensures
            r.wf(),
            r@.commit_ts == 0,
            r@.watermark == 0,
            r@.reads == Map::<int, int>::empty(),
    {
        Watermark::new(0)
    }
}

/// While a transaction runs, the watermark is at most its read timestamp.
pub proof fn lemma_watermark_below_reads(w: Watermark, ts: int)
    requires
        w.wf(),
        w@.reads.contains_key(ts),
    ensures
        w@.watermark <= ts,
{
}

impl Watermark {
    /// The number of running transactions that read at `read_ts`.
    pub fn read_count(&self, read_ts: TimeStamp) -> (r: i32)
        requires
            self.wf(),
        ensures
            r == (if self@.reads.contains_key(read_ts as int) {
                self@.reads[read_ts as int]
            } else {
                0
            }),
    {
        match self.current_reads.get(&read_ts) {
            Some(c) => {
                assert(self@.reads.contains_key(read_ts as int));
                *c
            },
            None => {
                assert(!self@.reads.contains_key(read_ts as int));
                0
            },
        }
    }
}


/// The lowest key of a nonempty map.
fn lowest_key(m: &HashMap<TimeStamp, i32>) -> (r: TimeStamp)
    requires
        m@.dom().len() > 0,
        m@.dom().finite(),
    ensures
        m@.contains_key(r),
        forall|k: TimeStamp| m@.contains_key(k) ==> r <= k,
{
    let mut low: TimeStamp = i64::MAX;
    let mut found = false;
    for k in it: m.keys()
        invariant
            found ==> m@.contains_key(low),
            forall|j: int| 0 <= j < it.index() ==> low <= *it.seq()[j],
            found <==> it.index() > 0,
            it.seq().len() == m@.dom().len(),
            forall|k: TimeStamp| #[trigger] m@.contains_key(k) ==> exists|j: int| 0 <= j < it.seq().len() && *it.seq()[j] == k,
            forall|j: int| 0 <= j < it.seq().len() ==> m@.contains_key(#[trigger] it.seq().unref()[j]),
    {
        assert(it.seq().unref()[it.index() as int] == *k);
        if !found || *k < low {
            low = *k;
        }
        found = true;
    }
    low
}

} // verus!

use vstd::prelude::*;

use crate::common::FrameId;

verus! {

/// The type of access that was made to a frame.
#[derive(Debug, Clone, Copy, PartialEq, Eq)]
pub enum AccessType {
    Unknown,
    Lookup,
    Scan,
    Index,
}

/// A fixed-capacity ring buffer that keeps the most recent `cap` values
/// pushed into it, oldest first.
pub struct RingBuffer<T> {
    data: Vec<T>,
    cap: usize,
    size: usize,
    head: usize,
    tail: usize,
}

/// What a ring buffer of capacity `cap` holds after `val` is pushed onto `s`.
pub open spec fn ring_push<T>(s: Seq<T>, val: T, cap: nat) -> Seq<T> {
    if s.len() < cap {
        s.push(val)
    } else {
        s.drop_first().push(val)
    }
}

impl<T> RingBuffer<T> {
    /// The values held, oldest first.
    pub closed spec fn view(&self) -> Seq<T> {
        Seq::new(
            self.size as nat,
            |i: int|
                if self.head + i < self.cap {
                    self.data@[self.head + i]
                } else {
                    self.data@[self.head + i - self.cap]
                },
        )
    }

    /// The number of values the buffer keeps.
    pub closed spec fn capacity(&self) -> nat {
        self.cap as nat
    }

    pub closed spec fn wf(&self) -> bool {
        &&& self.data.len() <= self.cap
        &&& self.data.len() < self.cap ==> {
            &&& self.head == 0
            &&& self.size == self.data.len()
            &&& self.tail == self.data.len()
        }
        &&& self.data.len() == self.cap ==> {
            &&& self.size == self.cap
            &&& self.head == self.tail
            &&& (self.head < self.cap || (self.cap == 0 && self.head == 0))
        }
    }

    pub fn with_capacity(cap: usize) -> (r: Self)
        ensures
            r.wf(),
            r.capacity() == cap,
            r.view() == Seq::<T>::empty(),
    {
        let r = Self { data: Vec::with_capacity(cap), cap, size: 0, head: 0, tail: 0 };
        assert(r.view() =~= Seq::<T>::empty());
        r
    }

    pub fn push(&mut self, val: T)
        requires
            old(self).wf(),
            old(self).capacity() > 0,
        ensures
            final(self).wf(),
            final(self).capacity() == old(self).capacity(),
            final(self).view() == ring_push(old(self).view(), val, old(self).capacity()),
    {
        let ghost old_view = self.view();
        if self.data.len() < self.cap {
            self.data.push(val);
            self.tail = self.data.len();
            self.size = self.data.len();
            if self.tail == self.cap {
                self.tail = 0;
            }
            assert(self.view() =~= old_view.push(val));
            return;
        }
        let ghost old_data = self.data@;
        let ghost h = self.head as int;
        let ghost c = self.cap as int;
        self.data.set(self.tail, val);
        self.tail = self.tail + 1;
        if self.tail == self.cap {
            self.tail = 0;
        }
        // The buffer was full, so the oldest value is overwritten.
        self.head = self.head + 1;
        if self.head == self.cap {
            self.head = 0;
        }
        assert forall|i: int| 0 <= i < self.size implies #[trigger] self.view()[i]
            == old_view.drop_first().push(val)[i] by {
            if i < c - 1 {
                assert(old_view.drop_first()[i] == old_view[i + 1]);
            }
        }
        assert(self.view() =~= old_view.drop_first().push(val));
    }

    /// The oldest value held.
    pub fn front(&self) -> (r: &T)
        requires
            self.wf(),
            self.view().len() > 0,
        ensures
            *r == self.view()[0],
    {
        &self.data[self.head]
    }

    pub fn size(&self) -> (r: usize)
        requires
            self.wf(),
        ensures
            r == self.view().len(),
    {
        self.size
    }

    /// Whether the buffer holds as many values as it keeps.
    pub fn full(&self) -> (r: bool)
        requires
            self.wf(),
        ensures
            r == (self.view().len() == self.capacity()),
    {
        self.size == self.cap
    }
}


/// What the replacer knows of one frame: the timestamps of its most recent
/// accesses (at most `k` of them, oldest first) and whether it may be evicted.
pub struct FrameRecord {
    pub history: Seq<usize>,
    pub evictable: bool,
}

/// The backward k-distance of a frame with access history `history` at time
/// `now`: the time since its k-th most recent access, or `None` (+inf) when
/// it has been accessed fewer than `k` times.
pub open spec fn backward_k_distance(history: Seq<usize>, k: nat, now: int) -> Option<int> {
    if history.len() < k {
        None
    } else {
        Some(now - history[history.len() - k])
    }
}

/// Whether the frame recorded as `a` is chosen for eviction before the frame
/// recorded as `b`: frames with +inf backward k-distance come first, ordered by
/// their earliest recorded access; the others come by their k-th most recent
/// access, the oldest first.
pub open spec fn evicts_before(a: FrameRecord, b: FrameRecord, k: nat) -> bool {
    let a_inf = a.history.len() < k;
    let b_inf = b.history.len() < k;
    (a_inf && !b_inf) || (a_inf == b_inf && a.history[0] < b.history[0])
}

/// The frames that may be evicted.
pub open spec fn evictable_frames(m: Map<FrameId, FrameRecord>) -> Set<FrameId> {
    m.dom().filter(|f: FrameId| m[f].evictable)
}

/// The well-formedness of the access histories: each is a nonempty,
/// strictly increasing sequence of at most `k` timestamps, all before `now`,
/// and no timestamp belongs to two frames.
pub open spec fn histories_wf(m: Map<FrameId, FrameRecord>, k: nat, now: nat) -> bool {
    &&& forall|f: FrameId| #[trigger] m.contains_key(f) ==> {
        &&& 1 <= m[f].history.len() <= k
        &&& forall|i: int, j: int| 0 <= i < j < m[f].history.len() ==> m[f].history[i] < m[f].history[j]
        &&& forall|i: int| 0 <= i < m[f].history.len() ==> m[f].history[i] < now
    }
    &&& forall|f1: FrameId, f2: FrameId, i: int, j: int|
        m.contains_key(f1) && m.contains_key(f2) && f1 != f2 && 0 <= i < m[f1].history.len() && 0
            <= j < m[f2].history.len() ==> #[trigger] m[f1].history[i] != #[trigger] m[f2].history[j]
}

/// LRUKNode stores the access history and eviction metadata for a single
/// frame tracked by the LRU-K replacer.
pub struct LRUKNode {
    /// History of last seen K timestamps of this frame, oldest first.
    history: RingBuffer<usize>,
    /// The K value for this node (the backward k-distance threshold).
    k: usize,
    /// The frame ID this node represents.
    fid: FrameId,
    /// Whether this frame is currently eligible for eviction.
    evictable: bool,
}

impl LRUKNode {
    pub closed spec fn spec_history(&self) -> Seq<usize> {
        self.history.view()
    }

    pub closed spec fn spec_k(&self) -> nat {
        self.k as nat
    }

    pub closed spec fn spec_fid(&self) -> FrameId {
        self.fid
    }

    pub closed spec fn spec_evictable(&self) -> bool {
        self.evictable
    }

    pub closed spec fn wf(&self) -> bool {
        &&& self.history.wf()
        &&& self.history.capacity() == self.k
        &&& self.k > 0
    }

    pub open spec fn record(&self) -> FrameRecord {
        FrameRecord { history: self.spec_history(), evictable: self.spec_evictable() }
    }

    /// Creates a new `LRUKNode` for the given frame. The node starts with
    /// an empty access history and is not evictable; the replacer records
    /// the first access (`first_ts`) itself.
    pub fn new(k: usize, fid: FrameId, first_ts: usize) -> (r: Self)
        requires
            k > 0,
        ensures
            r.wf(),
            r.spec_k() == k,
            r.spec_fid() == fid,
            r.spec_history() == Seq::<usize>::empty(),
            !r.spec_evictable(),
    {
        let history = RingBuffer::with_capacity(k);
        Self { history, k, fid, evictable: false }
    }

    /// Records an access at timestamp `ts`.
    pub fn access_at(&mut self, ts: usize)
        requires
            old(self).wf(),
        ensures
            final(self).wf(),
            final(self).spec_k() == old(self).spec_k(),
            final(self).spec_fid() == old(self).spec_fid(),
            final(self).spec_evictable() == old(self).spec_evictable(),
            final(self).spec_history() == ring_push(old(self).spec_history(), ts, old(self).spec_k()),
    {
        self.history.push(ts);
    }

    /// Whether this node's frame is evicted before `other`'s.
    fn evicts_before(&self, other: &LRUKNode) -> (r: bool)
        requires
            self.wf(),
            other.wf(),
            self.spec_k() == other.spec_k(),
            self.spec_history().len() >= 1,
            other.spec_history().len() >= 1,
            self.spec_history().len() <= self.spec_k(),
            other.spec_history().len() <= other.spec_k(),
        ensures
            r == evicts_before(self.record(), other.record(), self.spec_k()),
    {
        let a_full = self.history.full();
        let b_full = other.history.full();
        if !a_full && b_full {
            true
        } else if a_full && !b_full {
            false
        } else {
            *self.history.front() < *other.history.front()
        }
    }
}


/// LRUKReplacer implements the LRU-k replacement policy.
///
/// The LRU-k algorithm evicts a frame whose backward k-distance is maximum
/// of all frames. Backward k-distance is computed as the difference in time
/// between the current timestamp and the timestamp of the kth previous
/// access.
///
/// A frame with less than k historical references is given +inf as its
/// backward k-distance. When multiple frames have +inf backward k-distance,
/// the classical LRU algorithm is used to choose the victim.
pub struct LRUKReplacer {
    /// The nodes of the tracked frames; no frame appears twice.
    node_store: Vec<LRUKNode>,
    /// What the replacer knows of each tracked frame.
    frames: Ghost<Map<FrameId, FrameRecord>>,
    /// The current logical timestamp, incremented on each access.
    current_timestamp: usize,
    /// The current number of evictable frames tracked by the replacer.
    curr_size: usize,
    /// The maximum number of frames the replacer can track.
    replacer_size: usize,
    /// The backward k-distance threshold.
    k: usize,
}

proof fn lemma_evictable_remove(m: Map<FrameId, FrameRecord>, f: FrameId)
    requires
        m.dom().finite(),
    ensures
        evictable_frames(m.remove(f)) == evictable_frames(m).remove(f),
        evictable_frames(m).finite(),
        evictable_frames(m.remove(f)).len() == evictable_frames(m).len() - (if m.contains_key(f)
            && m[f].evictable {
            1int
        } else {
            0
        }),
{
    assert(evictable_frames(m.remove(f)) =~= evictable_frames(m).remove(f));
    m.dom().lemma_len_filter(|g: FrameId| m[g].evictable);
}

proof fn lemma_evictable_insert(m: Map<FrameId, FrameRecord>, f: FrameId, r: FrameRecord)
    requires
        m.dom().finite(),
    ensures
        evictable_frames(m.insert(f, r)) == (if r.evictable {
            evictable_frames(m).insert(f)
        } else {
            evictable_frames(m).remove(f)
        }),
        evictable_frames(m).finite(),
        evictable_frames(m.insert(f, r)).finite(),
        evictable_frames(m.insert(f, r)).len() == evictable_frames(m).len() + (if r.evictable && !(
        m.contains_key(f) && m[f].evictable) {
            1int
        } else if !r.evictable && m.contains_key(f) && m[f].evictable {
            -1
        } else {
            0
        }),
{
    if r.evictable {
        assert(evictable_frames(m.insert(f, r)) =~= evictable_frames(m).insert(f));
    } else {
        assert(evictable_frames(m.insert(f, r)) =~= evictable_frames(m).remove(f));
    }
    m.dom().lemma_len_filter(|g: FrameId| m[g].evictable);
    m.insert(f, r).dom().lemma_len_filter(|g: FrameId| m.insert(f, r)[g].evictable);
}

/// `v` is the frame the replacer evicts from the frames `m`: it is evictable
/// and it is evicted before every other evictable frame.
pub open spec fn is_victim(m: Map<FrameId, FrameRecord>, v: FrameId, k: nat) -> bool {
    &&& evictable_frames(m).contains(v)
    &&& forall|g: FrameId| #[trigger] evictable_frames(m).contains(g) && g != v ==> evicts_before(m[v], m[g], k)
}

/// The record of a frame after an access at `ts`.
pub open spec fn accessed(r: FrameRecord, ts: usize, k: nat) -> FrameRecord {
    FrameRecord { history: ring_push(r.history, ts, k), evictable: r.evictable }
}

/// The record of a frame seen for the first time at `ts`: not evictable.
pub open spec fn first_access(ts: usize) -> FrameRecord {
    FrameRecord { history: seq![ts], evictable: false }
}

proof fn lemma_histories_remove(m: Map<FrameId, FrameRecord>, f: FrameId, k: nat, now: nat)
    requires
        histories_wf(m, k, now),
    ensures
        histories_wf(m.remove(f), k, now),
{
    let m2 = m.remove(f);
    assert forall|f1: FrameId, f2: FrameId, i: int, j: int|
        m2.contains_key(f1) && m2.contains_key(f2) && f1 != f2 && 0 <= i < m2[f1].history.len() && 0
            <= j < m2[f2].history.len() implies #[trigger] m2[f1].history[i] != #[trigger] m2[f2].history[j] by {
        assert(m[f1].history[i] != m[f2].history[j]);
    }
}


proof fn lemma_histories_set_evictable(m: Map<FrameId, FrameRecord>, f: FrameId, ev: bool, k: nat, now: nat)
    requires
        histories_wf(m, k, now),
        m.contains_key(f),
    ensures
        histories_wf(m.insert(f, FrameRecord { history: m[f].history, evictable: ev }), k, now),
{
    let m2 = m.insert(f, FrameRecord { history: m[f].history, evictable: ev });
    assert forall|f1: FrameId, f2: FrameId, i: int, j: int|
        m2.contains_key(f1) && m2.contains_key(f2) && f1 != f2 && 0 <= i < m2[f1].history.len() && 0
            <= j < m2[f2].history.len() implies #[trigger] m2[f1].history[i] != #[trigger] m2[f2].history[j] by {
        assert(m2[f1].history == m[f1].history);
        assert(m2[f2].history == m[f2].history);
        assert(m[f1].history[i] != m[f2].history[j]);
    }
}

proof fn lemma_histories_access(m: Map<FrameId, FrameRecord>, f: FrameId, k: nat, now: nat)
    requires
        histories_wf(m, k, now),
        m.contains_key(f),
        now < usize::MAX,
    ensures
        histories_wf(m.insert(f, accessed(m[f], now as usize, k)), k, now + 1),
{
    let h = m[f].history;
    let h2 = ring_push(h, now as usize, k);
    let m2 = m.insert(f, accessed(m[f], now as usize, k));
    // Every timestamp of the new history is an old timestamp of `f` or `now`.
    assert forall|i: int| 0 <= i < h2.len() implies (#[trigger] h2[i] == now || exists|j: int|
        0 <= j < h.len() && h[j] == h2[i]) && (i < h2.len() - 1 ==> h2[i] < now) by {
        if h.len() < k {
            if i < h.len() {
                assert(h[i] == h2[i]);
            }
        } else {
            if i < h2.len() - 1 {
                assert(h[i + 1] == h2[i]);
            }
        }
    }
    assert forall|i: int, j: int| 0 <= i < j < h2.len() implies h2[i] < h2[j] by {
        if h.len() < k {
            if j < h.len() {
                assert(h[i] == h2[i] && h[j] == h2[j]);
            } else {
                assert(h[i] == h2[i]);
            }
        } else {
            if j < h2.len() - 1 {
                assert(h[i + 1] == h2[i] && h[j + 1] == h2[j]);
            } else {
                assert(h[i + 1] == h2[i]);
            }
        }
    }
    assert forall|f1: FrameId, f2: FrameId, i: int, j: int|
        m2.contains_key(f1) && m2.contains_key(f2) && f1 != f2 && 0 <= i < m2[f1].history.len() && 0
            <= j < m2[f2].history.len() implies #[trigger] m2[f1].history[i] != #[trigger] m2[f2].history[j] by {
        if f1 == f {
            assert(m2[f2].history == m[f2].history);
            assert(m[f2].history[j] < now);
            if h2[i] != now {
                let jj = choose|jj: int| 0 <= jj < h.len() && h[jj] == h2[i];
                assert(m[f1].history[jj] != m[f2].history[j]);
            }
        } else if f2 == f {
            assert(m2[f1].history == m[f1].history);
            assert(m[f1].history[i] < now);
            if h2[j] != now {
                let jj = choose|jj: int| 0 <= jj < h.len() && h[jj] == h2[j];
                assert(m[f1].history[i] != m[f2].history[jj]);
            }
        } else {
            assert(m[f1].history[i] != m[f2].history[j]);
        }
    }
}

proof fn lemma_histories_first(m: Map<FrameId, FrameRecord>, f: FrameId, k: nat, now: nat)
    requires
        histories_wf(m, k, now),
        !m.contains_key(f),
        k >= 1,
        now < usize::MAX,
    ensures
        histories_wf(m.insert(f, first_access(now as usize)), k, now + 1),
{
    let m2 = m.insert(f, first_access(now as usize));
    assert forall|f1: FrameId, f2: FrameId, i: int, j: int|
        m2.contains_key(f1) && m2.contains_key(f2) && f1 != f2 && 0 <= i < m2[f1].history.len() && 0
            <= j < m2[f2].history.len() implies #[trigger] m2[f1].history[i] != #[trigger] m2[f2].history[j] by {
        if f1 == f {
            assert(m[f2].history[j] < now);
        } else if f2 == f {
            assert(m[f1].history[i] < now);
        } else {
            assert(m[f1].history[i] != m[f2].history[j]);
        }
    }
}

impl LRUKReplacer {
    /// What the replacer knows of each tracked frame.
    pub closed spec fn view(&self) -> Map<FrameId, FrameRecord> {
        self.frames@
    }

    pub closed spec fn spec_k(&self) -> nat {
        self.k as nat
    }

    /// The timestamp the next access will be recorded at.
    pub closed spec fn spec_timestamp(&self) -> nat {
        self.current_timestamp as nat
    }

    /// The maximum number of frames the replacer tracks.
    pub closed spec fn spec_replacer_size(&self) -> nat {
        self.replacer_size as nat
    }

    pub closed spec fn wf(&self) -> bool {
        &&& self.node_store.len() <= self.replacer_size
        &&& self.frames@.dom().finite()
        &&& self.frames@.dom().len() == self.node_store.len()
        &&& forall|i: int|
            0 <= i < self.node_store.len() ==> {
                &&& (#[trigger] self.node_store[i]).wf()
                &&& self.node_store[i].spec_k() == self.k
                &&& self.frames@.contains_key(self.node_store[i].spec_fid())
                &&& self.frames@[self.node_store[i].spec_fid()] == self.node_store[i].record()
            }
        &&& forall|i: int, j: int|
            0 <= i < self.node_store.len() && 0 <= j < self.node_store.len() && i != j
                ==> #[trigger] self.node_store[i].spec_fid() != #[trigger] self.node_store[j].spec_fid()
        &&& forall|f: FrameId|
            #[trigger] self.frames@.contains_key(f) ==> exists|i: int|
                0 <= i < self.node_store.len() && #[trigger] self.node_store[i].spec_fid() == f
        &&& self.curr_size == evictable_frames(self.frames@).len()
        &&& histories_wf(self.frames@, self.k as nat, self.current_timestamp as nat)
    }

    /// Creates a new LRU-K replacer that tracks at most `num_frames` frames
    /// with backward k-distance threshold `k`.
    pub fn new(num_frames: usize, k: usize) -> (r: Self)
        ensures
            r.wf(),
            r@ == Map::<FrameId, FrameRecord>::empty(),
            r.spec_k() == k,
            r.spec_replacer_size() == num_frames,
            r.spec_timestamp() == 0,
    {
        let r = Self {
            node_store: Vec::new(),
            frames: Ghost(Map::empty()),
            current_timestamp: 0,
            curr_size: 0,
            replacer_size: num_frames,
            k,
        };
        assert(evictable_frames(r.frames@) =~= Set::empty());
        r
    }

    /// The index of the node of frame `fid`, if it is tracked.
    fn find(&self, fid: FrameId) -> (r: Option<usize>)
        requires
            self.wf(),
        ensures
            match r {
                Some(i) => i < self.node_store.len() && self.node_store[i as int].spec_fid() == fid
                    && self@.contains_key(fid),
                None => !self@.contains_key(fid),
            },
    {
        let mut i: usize = 0;
        while i < self.node_store.len()
            invariant
                self.wf(),
                0 <= i <= self.node_store.len(),
                forall|j: int| 0 <= j < i ==> self.node_store[j].spec_fid() != fid,
            decreases self.node_store.len() - i,
        {
            if self.node_store[i].fid == fid {
                return Some(i);
            }
            i += 1;
        }
        proof {
            if self.frames@.contains_key(fid) {
                let j = choose|j: int| 0 <= j < self.node_store.len() && #[trigger] self.node_store[j].spec_fid() == fid;
                assert(self.node_store[j].spec_fid() == fid);
            }
        }
        None
    }

    /// Finds the frame with the largest backward k-distance and evicts it.
    /// Only frames that are marked as 'evictable' are candidates for
    /// eviction.
    ///
    /// A frame with less than k historical references is given +inf as its
    /// backward k-distance. If multiple frames have infinite backward
    /// k-distance, then the frame with the earliest timestamp (based on LRU)
    /// is evicted.
    ///
    /// Successful eviction decrements the replacer's size and removes the
    /// frame's access history.
    ///
    /// Returns `Some(frame_id)` if a frame was evicted successfully, or
    /// `None` if no frames can be evicted.
    pub fn evict(&mut self) -> (r: Option<FrameId>)
        requires
            old(self).wf(),
        ensures
            final(self).wf(),
            final(self).spec_k() == old(self).spec_k(),
            final(self).spec_timestamp() == old(self).spec_timestamp(),
            final(self).spec_replacer_size() == old(self).spec_replacer_size(),
            match r {
                None => {
                    &&& evictable_frames(old(self)@).is_empty()
                    &&& final(self)@ == old(self)@
                },
                Some(f) => {
                    &&& is_victim(old(self)@, f, old(self).spec_k())
                    &&& final(self)@ == old(self)@.remove(f)
                    &&& final(self)@.dom().len() == old(self)@.dom().len() - 1
                },
            },
    {
        let ghost m = self.frames@;
        let ghost k = self.k as nat;
        let mut best: Option<usize> = None;
        let mut i: usize = 0;
        while i < self.node_store.len()
            invariant
                self.wf(),
                self.frames@ == m,
                k == self.k,
                0 <= i <= self.node_store.len(),
                match best {
                    Some(b) => {
                        &&& b < i
                        &&& self.node_store[b as int].spec_evictable()
                        &&& forall|j: int|
                            0 <= j < i && j != b && #[trigger] self.node_store[j].spec_evictable()
                                ==> evicts_before(
                                self.node_store[b as int].record(),
                                self.node_store[j].record(),
                                k,
                            )
                    },
                    None => forall|j: int| 0 <= j < i ==> !#[trigger] self.node_store[j].spec_evictable(),
                },
            decreases self.node_store.len() - i,
        {
            if self.node_store[i].evictable {
                match best {
                    None => {
                        best = Some(i);
                    },
                    Some(b) => {
                        let ghost fi = self.node_store[i as int].spec_fid();
                        let ghost fb = self.node_store[b as int].spec_fid();
                        assert(m[fi].history[0] != m[fb].history[0]);
                        if self.node_store[i].evicts_before(&self.node_store[b]) {
                            best = Some(i);
                        }
                    },
                }
            }
            i += 1;
        }
        match best {
            None => {
                assert forall|g: FrameId| !evictable_frames(m).contains(g) by {
                    if evictable_frames(m).contains(g) {
                        let j = choose|j: int| 0 <= j < self.node_store.len() && #[trigger] self.node_store[j].spec_fid() == g;
                        assert(self.node_store[j].spec_evictable());
                    }
                }
                assert(evictable_frames(m) =~= Set::empty());
                None
            },
            Some(b) => {
                let fid = self.node_store[b].fid;
                assert forall|g: FrameId|
                    #[trigger] evictable_frames(m).contains(g) && g != fid implies evicts_before(
                    m[fid],
                    m[g],
                    k,
                ) by {
                    let j = choose|j: int| 0 <= j < self.node_store.len() && #[trigger] self.node_store[j].spec_fid() == g;
                    assert(self.node_store[j].spec_evictable());
                }
                proof {
                    lemma_evictable_remove(m, fid);
                    lemma_histories_remove(m, fid, k, self.current_timestamp as nat);
                }
                let ghost old_store = self.node_store@;
                self.node_store.remove(b);
                self.frames = Ghost(m.remove(fid));
                self.curr_size = self.curr_size - 1;
                assert forall|i: int| 0 <= i < self.node_store.len() implies {
                    &&& (#[trigger] self.node_store[i]).wf()
                    &&& self.node_store[i].spec_k() == self.k
                    &&& self.frames@.contains_key(self.node_store[i].spec_fid())
                    &&& self.frames@[self.node_store[i].spec_fid()] == self.node_store[i].record()
                } by {
                    if i < b {
                        assert(self.node_store[i] == old_store[i]);
                    } else {
                        assert(self.node_store[i] == old_store[i + 1]);
                    }
                }
                assert forall|i: int, j: int|
                    0 <= i < self.node_store.len() && 0 <= j < self.node_store.len() && i != j
                        implies #[trigger] self.node_store[i].spec_fid() != #[trigger] self.node_store[j].spec_fid() by {
                    let oi = if i < b { i } else { i + 1 };
                    let oj = if j < b { j } else { j + 1 };
                    assert(self.node_store[i] == old_store[oi]);
                    assert(self.node_store[j] == old_store[oj]);
                }
                assert forall|f: FrameId| #[trigger] self.frames@.contains_key(f) implies exists|i: int|
                    0 <= i < self.node_store.len() && #[trigger] self.node_store[i].spec_fid() == f by {
                    let oj = choose|j: int| 0 <= j < old_store.len() && #[trigger] old_store[j].spec_fid() == f;
                    assert(oj != b);
                    let nj = if oj < b { oj } else { oj - 1 };
                    assert(self.node_store[nj] == old_store[oj]);
                }
                Some(fid)
            },
        }
    }


    /// Records an access event for the given frame at the current timestamp.
    /// Creates a new entry in the access history if the frame has not been
    /// seen before; when the replacer already tracks as many frames as it
    /// may, the victim frame is evicted first. A frame id larger than the
    /// replacer's size is invalid and refused.
    pub fn record_access(&mut self, frame_id: FrameId, access_type: AccessType)
        requires
            old(self).wf(),
            frame_id <= old(self).spec_replacer_size(),
            old(self).spec_k() > 0,
            old(self).spec_timestamp() < usize::MAX,
            old(self)@.contains_key(frame_id) || old(self)@.dom().len() < old(self).spec_replacer_size()
                || !evictable_frames(old(self)@).is_empty(),
        ensures
            final(self).wf(),
            final(self).spec_k() == old(self).spec_k(),
            final(self).spec_replacer_size() == old(self).spec_replacer_size(),
            final(self).spec_timestamp() == old(self).spec_timestamp() + 1,
            old(self)@.contains_key(frame_id) ==> final(self)@ == old(self)@.insert(
                frame_id,
                accessed(old(self)@[frame_id], old(self).spec_timestamp() as usize, old(self).spec_k()),
            ),
            !old(self)@.contains_key(frame_id) && old(self)@.dom().len() < old(self).spec_replacer_size()
                ==> final(self)@ == old(self)@.insert(
                frame_id,
                first_access(old(self).spec_timestamp() as usize),
            ),
            !old(self)@.contains_key(frame_id) && old(self)@.dom().len() >= old(self).spec_replacer_size()
                ==> exists|v: FrameId|
                is_victim(old(self)@, v, old(self).spec_k()) && final(self)@ == old(self)@.remove(v).insert(
                    frame_id,
                    first_access(old(self).spec_timestamp() as usize),
                ),
    {
        let ts = self.current_timestamp;
        let ghost k = self.k as nat;
        match self.find(frame_id) {
            Some(i) => {
                let ghost m = self.frames@;
                let ghost old_store = self.node_store@;
                let mut node = self.node_store.remove(i);
                node.access_at(ts);
                self.node_store.insert(i, node);
                assert(self.node_store@ =~= old_store.update(i as int, node));
                proof {
                    lemma_histories_access(m, frame_id, k, ts as nat);
                    lemma_evictable_insert(m, frame_id, accessed(m[frame_id], ts, k));
                }
                self.frames = Ghost(m.insert(frame_id, accessed(m[frame_id], ts, k)));
                self.current_timestamp = ts + 1;
                assert(self.frames@.dom() =~= m.dom());
                assert forall|j: int| 0 <= j < self.node_store.len() implies {
                    &&& (#[trigger] self.node_store[j]).wf()
                    &&& self.node_store[j].spec_k() == self.k
                    &&& self.frames@.contains_key(self.node_store[j].spec_fid())
                    &&& self.frames@[self.node_store[j].spec_fid()] == self.node_store[j].record()
                } by {
                    if j != i {
                        assert(self.node_store[j].spec_fid() != frame_id);
                    }
                }
                assert forall|a: int, b: int|
                    0 <= a < self.node_store.len() && 0 <= b < self.node_store.len() && a != b
                        implies #[trigger] self.node_store[a].spec_fid() != #[trigger] self.node_store[b].spec_fid() by {
                    assert(self.node_store[a].spec_fid() == old_store[a].spec_fid());
                    assert(self.node_store[b].spec_fid() == old_store[b].spec_fid());
                }
                assert forall|f: FrameId| #[trigger] self.frames@.contains_key(f) implies exists|j: int|
                    0 <= j < self.node_store.len() && #[trigger] self.node_store[j].spec_fid() == f by {
                    let oj = choose|j: int| 0 <= j < old_store.len() && #[trigger] old_store[j].spec_fid() == f;
                    assert(self.node_store[oj].spec_fid() == old_store[oj].spec_fid());
                }
                assert(self.wf());
            },
            None => {
                let ghost m0 = self.frames@;
                let ghost mut victim_frame: FrameId = frame_id;
                if self.node_store.len() == self.replacer_size {
                    let victim = self.evict();
                    proof {
                        if victim is None {
                            assert(evictable_frames(m0) =~= Set::empty());
                        }
                        victim_frame = victim->0;
                    }
                }
                let ghost m = self.frames@;
                assert(!m.contains_key(frame_id));
                let mut node = LRUKNode::new(self.k, frame_id, ts);
                node.access_at(ts);
                assert(node.spec_history() =~= seq![ts]);
                assert(node.record() == first_access(ts));
                proof {
                    lemma_histories_first(m, frame_id, k, ts as nat);
                    lemma_evictable_insert(m, frame_id, first_access(ts));
                }
                let ghost old_store = self.node_store@;
                self.node_store.push(node);
                self.frames = Ghost(m.insert(frame_id, first_access(ts)));
                self.current_timestamp = ts + 1;
                let ghost n = old_store.len() as int;
                assert forall|j: int| 0 <= j < self.node_store.len() implies {
                    &&& (#[trigger] self.node_store[j]).wf()
                    &&& self.node_store[j].spec_k() == self.k
                    &&& self.frames@.contains_key(self.node_store[j].spec_fid())
                    &&& self.frames@[self.node_store[j].spec_fid()] == self.node_store[j].record()
                } by {
                    if j < n {
                        assert(self.node_store[j] == old_store[j]);
                        assert(self.node_store[j].spec_fid() != frame_id);
                    }
                }
                assert forall|a: int, b: int|
                    0 <= a < self.node_store.len() && 0 <= b < self.node_store.len() && a != b
                        implies #[trigger] self.node_store[a].spec_fid() != #[trigger] self.node_store[b].spec_fid() by {
                    if a < n && b < n {
                        assert(self.node_store[a] == old_store[a]);
                        assert(self.node_store[b] == old_store[b]);
                    } else if a < n {
                        assert(self.node_store[a] == old_store[a]);
                    } else {
                        assert(self.node_store[b] == old_store[b]);
                    }
                }
                assert forall|f: FrameId| #[trigger] self.frames@.contains_key(f) implies exists|j: int|
                    0 <= j < self.node_store.len() && #[trigger] self.node_store[j].spec_fid() == f by {
                    if f == frame_id {
                        assert(self.node_store[n].spec_fid() == f);
                    } else {
                        let oj = choose|j: int| 0 <= j < old_store.len() && #[trigger] old_store[j].spec_fid() == f;
                        assert(self.node_store[oj] == old_store[oj]);
                    }
                }
                assert(self.frames@.dom() =~= m.dom().insert(frame_id));
                proof {
                    if m0.dom().len() >= self.replacer_size {
                        assert(is_victim(m0, victim_frame, k) && self.frames@ == m0.remove(victim_frame).insert(
                            frame_id,
                            first_access(ts),
                        ));
                    }
                }
            },
        }
    }

    /// Toggles whether a frame is evictable or non-evictable. The replacer's
    /// size, the number of evictable frames, follows. A frame the replacer
    /// does not track is left as it is; a frame id larger than the
    /// replacer's size is invalid and refused.
    pub fn set_evictable(&mut self, frame_id: FrameId, set_evictable: bool)
        requires
            old(self).wf(),
            frame_id <= old(self).spec_replacer_size(),
        ensures
            final(self).wf(),
            final(self).spec_k() == old(self).spec_k(),
            final(self).spec_replacer_size() == old(self).spec_replacer_size(),
            final(self).spec_timestamp() == old(self).spec_timestamp(),
            old(self)@.contains_key(frame_id) ==> final(self)@ == old(self)@.insert(
                frame_id,
                FrameRecord { history: old(self)@[frame_id].history, evictable: set_evictable },
            ),
            !old(self)@.contains_key(frame_id) ==> final(self)@ == old(self)@,
    {
        match self.find(frame_id) {
            None => {},
            Some(i) => {
                let ghost m = self.frames@;
                let ghost k = self.k as nat;
                let ghost old_store = self.node_store@;
                let mut node = self.node_store.remove(i);
                let old_ev = node.evictable;
                node.evictable = set_evictable;
                self.node_store.insert(i, node);
                assert(self.node_store@ =~= old_store.update(i as int, node));
                let ghost r = FrameRecord { history: m[frame_id].history, evictable: set_evictable };
                proof {
                    lemma_histories_set_evictable(m, frame_id, set_evictable, k, self.current_timestamp as nat);
                    lemma_evictable_insert(m, frame_id, r);
                    let m2 = m.insert(frame_id, r);
                    m2.dom().lemma_len_filter(|g: FrameId| m2[g].evictable);
                    assert(m2.dom() =~= m.dom());
                }
                if old_ev && !set_evictable {
                    self.curr_size = self.curr_size - 1;
                } else if !old_ev && set_evictable {
                    self.curr_size = self.curr_size + 1;
                }
                self.frames = Ghost(m.insert(frame_id, r));
                assert(self.frames@.dom() =~= m.dom());
                assert forall|j: int| 0 <= j < self.node_store.len() implies {
                    &&& (#[trigger] self.node_store[j]).wf()
                    &&& self.node_store[j].spec_k() == self.k
                    &&& self.frames@.contains_key(self.node_store[j].spec_fid())
                    &&& self.frames@[self.node_store[j].spec_fid()] == self.node_store[j].record()
                } by {
                    if j != i {
                        assert(self.node_store[j].spec_fid() != frame_id);
                    }
                }
                assert forall|a: int, b: int|
                    0 <= a < self.node_store.len() && 0 <= b < self.node_store.len() && a != b
                        implies #[trigger] self.node_store[a].spec_fid() != #[trigger] self.node_store[b].spec_fid() by {
                    assert(self.node_store[a].spec_fid() == old_store[a].spec_fid());
                    assert(self.node_store[b].spec_fid() == old_store[b].spec_fid());
                }
                assert forall|f: FrameId| #[trigger] self.frames@.contains_key(f) implies exists|j: int|
                    0 <= j < self.node_store.len() && #[trigger] self.node_store[j].spec_fid() == f by {
                    let oj = choose|j: int| 0 <= j < old_store.len() && #[trigger] old_store[j].spec_fid() == f;
                    assert(self.node_store[oj].spec_fid() == old_store[oj].spec_fid());
                }
            },
        }
    }

    /// Removes an evictable frame from the replacer, along with its access
    /// history, and decrements the replacer's size. Unlike `evict`, the frame
    /// is removed whatever its backward k-distance. A frame the replacer does
    /// not track is left as it is; removing a tracked frame that is not
    /// evictable is refused by the precondition.
    pub fn remove(&mut self, frame_id: FrameId)
        requires
            old(self).wf(),
            old(self)@.contains_key(frame_id) ==> old(self)@[frame_id].evictable,
        ensures
            final(self).wf(),
            final(self).spec_k() == old(self).spec_k(),
            final(self).spec_replacer_size() == old(self).spec_replacer_size(),
            final(self).spec_timestamp() == old(self).spec_timestamp(),
            final(self)@ == old(self)@.remove(frame_id),
    {
        match self.find(frame_id) {
            None => {
                assert(self.frames@ =~= self.frames@.remove(frame_id));
            },
            Some(b) => {
                let ghost m = self.frames@;
                let ghost k = self.k as nat;
                proof {
                    lemma_evictable_remove(m, frame_id);
                    lemma_histories_remove(m, frame_id, k, self.current_timestamp as nat);
                }
                let ghost old_store = self.node_store@;
                self.node_store.remove(b);
                self.frames = Ghost(m.remove(frame_id));
                self.curr_size = self.curr_size - 1;
                assert forall|i: int| 0 <= i < self.node_store.len() implies {
                    &&& (#[trigger] self.node_store[i]).wf()
                    &&& self.node_store[i].spec_k() == self.k
                    &&& self.frames@.contains_key(self.node_store[i].spec_fid())
                    &&& self.frames@[self.node_store[i].spec_fid()] == self.node_store[i].record()
                } by {
                    if i < b {
                        assert(self.node_store[i] == old_store[i]);
                    } else {
                        assert(self.node_store[i] == old_store[i + 1]);
                    }
                }
                assert forall|i: int, j: int|
                    0 <= i < self.node_store.len() && 0 <= j < self.node_store.len() && i != j
                        implies #[trigger] self.node_store[i].spec_fid() != #[trigger] self.node_store[j].spec_fid() by {
                    let oi = if i < b { i } else { i + 1 };
                    let oj = if j < b { j } else { j + 1 };
                    assert(self.node_store[i] == old_store[oi]);
                    assert(self.node_store[j] == old_store[oj]);
                }
                assert forall|f: FrameId| #[trigger] self.frames@.contains_key(f) implies exists|i: int|
                    0 <= i < self.node_store.len() && #[trigger] self.node_store[i].spec_fid() == f by {
                    let oj = choose|j: int| 0 <= j < old_store.len() && #[trigger] old_store[j].spec_fid() == f;
                    assert(oj != b);
                    let nj = if oj < b { oj } else { oj - 1 };
                    assert(self.node_store[nj] == old_store[oj]);
                }
            },
        }
    }

    /// Every tracked frame's history is a nonempty, strictly increasing run
    /// of at most `k` timestamps before the replacer's clock, no two frames
    /// sharing one: the histories the eviction laws
    /// (`lemma_evicts_before_is_larger_k_distance`, `lemma_victim_unique`,
    /// `lemma_victim_exists`) speak of.
    pub proof fn lemma_histories_valid(&self)
        requires
            self.wf(),
        ensures
            histories_wf(self@, self.spec_k(), self.spec_timestamp()),
            self@.dom().finite(),
    {
    }

    /// The replacer tracks finitely many frames.
    pub proof fn lemma_view_finite(&self)
        requires
            self.wf(),
        ensures
            self@.dom().finite(),
    {
    }

    /// Returns the replacer's size, which tracks the number of evictable
    /// frames.
    pub fn size(&self) -> (r: usize)
        requires
            self.wf(),
        ensures
            r == evictable_frames(self@).len(),
    {
        self.curr_size
    }
}


/// The eviction order is the LRU-K order: a frame is evicted before another
/// exactly when its backward k-distance is larger, +inf being larger than any
/// finite distance, and two frames at +inf go by their earliest access.
pub proof fn lemma_evicts_before_is_larger_k_distance(a: FrameRecord, b: FrameRecord, k: nat, now: int)
    requires
        1 <= a.history.len() <= k,
        1 <= b.history.len() <= k,
    ensures
        evicts_before(a, b, k) <==> {
            let da = backward_k_distance(a.history, k, now);
            let db = backward_k_distance(b.history, k, now);
            ||| (da is None && db is Some)
            ||| (da is Some && db is Some && da->0 > db->0)
            ||| (da is None && db is None && a.history[0] < b.history[0])
        },
{
}

/// The victim is unique: among well-formed access histories no two frames
/// can both be the one evicted first.
pub proof fn lemma_victim_unique(m: Map<FrameId, FrameRecord>, v1: FrameId, v2: FrameId, k: nat, now: nat)
    requires
        histories_wf(m, k, now),
        is_victim(m, v1, k),
        is_victim(m, v2, k),
    ensures
        v1 == v2,
{
    if v1 != v2 {
        assert(evicts_before(m[v1], m[v2], k));
        assert(evicts_before(m[v2], m[v1], k));
    }
}

/// Every evictable frame of well-formed histories that is not the victim is
/// evicted after some other frame; so `evict` answers `None` only when no
/// frame is evictable, and otherwise exactly one frame can be its answer.
pub proof fn lemma_victim_exists(m: Map<FrameId, FrameRecord>, k: nat, now: nat)
    requires
        histories_wf(m, k, now),
        m.dom().finite(),
        !evictable_frames(m).is_empty(),
    ensures
        exists|v: FrameId| is_victim(m, v, k),
    decreases m.dom().len(),
{
    let e = evictable_frames(m);
    m.dom().lemma_len_filter(|g: FrameId| m[g].evictable);
    let a = e.choose();
    vstd::set::axiom_set_choose_len(e);
    if e.len() == 0 {
        assert(e.contains(a));
    }
    let m2 = m.remove(a);
    lemma_histories_remove(m, a, k, now);
    lemma_evictable_remove(m, a);
    if evictable_frames(m2).is_empty() {
        assert forall|g: FrameId| #[trigger] e.contains(g) && g != a implies evicts_before(m[a], m[g], k) by {
            assert(evictable_frames(m2).contains(g));
        }
        assert(is_victim(m, a, k));
    } else {
        assert(m.dom().contains(a));
        assert(m2.dom() =~= m.dom().remove(a));
        lemma_victim_exists(m2, k, now);
        let v = choose|v: FrameId| is_victim(m2, v, k);
        assert(m[v].history[0] != m[a].history[0]);
        if evicts_before(m[a], m[v], k) {
            assert forall|g: FrameId| #[trigger] e.contains(g) && g != a implies evicts_before(m[a], m[g], k) by {
                if g != v {
                    assert(evictable_frames(m2).contains(g));
                    assert(evicts_before(m2[v], m2[g], k));
                }
            }
            assert(is_victim(m, a, k));
        } else {
            assert forall|g: FrameId| #[trigger] e.contains(g) && g != v implies evicts_before(m[v], m[g], k) by {
                if g != a {
                    assert(evictable_frames(m2).contains(g));
                }
            }
            assert(is_victim(m, v, k));
        }
    }
}

} // verus!

use std::collections::HashMap;
use std::collections::VecDeque;
use vstd::prelude::*;

use crate::buffer::frame_header::{zero_page, FrameHeader};
use crate::buffer::lru_k_replacer::{evictable_frames, histories_wf, is_victim, AccessType, FrameRecord, LRUKReplacer};
use crate::common::{FrameId, PageId, BUSTUB_PAGE_SIZE, INVALID_PAGE_ID};
use crate::storage::disk::DiskManager;

verus! {

broadcast use vstd::std_specs::hash::group_hash_axioms;

/// A read pin on a page held by the buffer pool: while it is held the page
/// stays in memory. It is given back with `release_read_guard`.
pub struct ReadPageGuard {
    page_id: PageId,
    frame_id: FrameId,
}

/// A write pin on a page held by the buffer pool: while it is held the page
/// stays in memory and can be written through it. It is given back with
/// `release_write_guard`.
pub struct WritePageGuard {
    page_id: PageId,
    frame_id: FrameId,
}

impl ReadPageGuard {
    pub closed spec fn page(&self) -> PageId {
        self.page_id
    }

    pub closed spec fn frame(&self) -> FrameId {
        self.frame_id
    }

    /// The page this guard pins.
    pub fn get_page_id(&self) -> (r: PageId)
        ensures
            r == self.page(),
    {
        self.page_id
    }
}

impl WritePageGuard {
    pub closed spec fn page(&self) -> PageId {
        self.page_id
    }

    pub closed spec fn frame(&self) -> FrameId {
        self.frame_id
    }

    /// The page this guard pins.
    pub fn get_page_id(&self) -> (r: PageId)
        ensures
            r == self.page(),
    {
        self.page_id
    }
}

/// The `BufferPoolManager` is responsible for moving physical pages of data
/// back and forth from buffers in main memory to persistent storage. It also
/// behaves as a cache, keeping frequently used pages in memory for faster
/// access, and evicting unused or cold pages back out to storage.
///
/// The buffer pool manager owns the set of frames it manages, the page table
/// that maps page IDs to frame IDs, a free frame list, and the LRU-K replacer
/// for eviction decisions.
pub struct BufferPoolManager<D: DiskManager> {
    /// The number of frames in the buffer pool.
    num_frames: usize,
    /// The next page ID to be allocated.
    next_page_id: PageId,
    /// The frame headers of the frames that this buffer pool manages.
    frames: Vec<FrameHeader>,
    /// The mapping between pages in memory and the frames that hold them.
    page_table: HashMap<PageId, FrameId>,
    /// The frames that do not hold any page's data.
    free_frames: VecDeque<FrameId>,
    /// The replacer to find unpinned / candidate pages for eviction.
    replacer: LRUKReplacer,
    /// The persistent storage.
    disk: D,
}

impl<D: DiskManager> BufferPoolManager<D> {
    /// The data of page `page_id` as it stands on disk; a page never written
    /// reads as zeroes.
    pub closed spec fn disk_content(&self, page_id: PageId) -> Seq<u8> {
        if self.disk.pages().contains_key(page_id) {
            self.disk.pages()[page_id]
        } else {
            zero_page()
        }
    }

    /// The data of page `page_id`: that of its frame when the page is in
    /// memory, else that on disk.
    pub closed spec fn content(&self, page_id: PageId) -> Seq<u8> {
        if self.page_table@.contains_key(page_id) {
            self.frames@[self.page_table@[page_id] as int].data@
        } else {
            self.disk_content(page_id)
        }
    }

    /// Whether page `page_id` is held in memory.
    pub closed spec fn resident(&self, page_id: PageId) -> bool {
        self.page_table@.contains_key(page_id)
    }

    /// The frame that holds page `page_id`, when it is in memory.
    pub closed spec fn frame_of(&self, page_id: PageId) -> FrameId {
        self.page_table@[page_id]
    }

    /// The number of pins on page `page_id`, when it is in memory.
    pub closed spec fn pins(&self, page_id: PageId) -> nat {
        self.frames@[self.page_table@[page_id] as int].pin_count as nat
    }

    /// Whether the data of page `page_id`, in memory, was changed since it
    /// was last read from or written to disk.
    pub closed spec fn is_dirty(&self, page_id: PageId) -> bool {
        self.frames@[self.page_table@[page_id] as int].is_dirty
    }

    /// The number of frames that hold no page.
    pub closed spec fn free_count(&self) -> nat {
        self.free_frames@.len()
    }

    /// Whether some frame holds no page.
    pub open spec fn has_free_frame(&self) -> bool {
        self.free_count() > 0
    }

    /// The replacer's access records of the frames that hold pages.
    pub closed spec fn records(&self) -> Map<FrameId, FrameRecord> {
        self.replacer@
    }

    pub closed spec fn spec_num_frames(&self) -> nat {
        self.num_frames as nat
    }

    pub closed spec fn spec_next_page_id(&self) -> PageId {
        self.next_page_id
    }

    /// The timestamp of the replacer's next access record.
    pub closed spec fn spec_timestamp(&self) -> nat {
        self.replacer.spec_timestamp()
    }

    /// The backward k-distance threshold of the replacer.
    pub closed spec fn spec_k(&self) -> nat {
        self.replacer.spec_k()
    }

    /// Whether a page can be brought into memory: it is there already, a
    /// frame is free, or some page in memory is unpinned and can be evicted.
    pub open spec fn can_hold(&self, page_id: PageId) -> bool {
        ||| self.resident(page_id)
        ||| self.has_free_frame()
        ||| exists|p: PageId| #[trigger] self.resident(p) && self.pins(p) == 0
    }

    /// Whether `(page_id, frame_id)` names a pinned page in memory.
    pub open spec fn pinned(&self, page_id: PageId, frame_id: FrameId) -> bool {
        &&& self.resident(page_id)
        &&& self.frame_of(page_id) == frame_id
        &&& self.pins(page_id) > 0
    }

    pub closed spec fn frame_wf(&self, i: int) -> bool {
        let fr = self.frames@[i];
        &&& fr.frame_id == i
        &&& fr.data@.len() == BUSTUB_PAGE_SIZE
        &&& (fr.page_id == INVALID_PAGE_ID <==> !self.replacer@.contains_key(i as FrameId))
        &&& fr.page_id != INVALID_PAGE_ID ==> {
            &&& self.page_table@.contains_key(fr.page_id)
            &&& self.page_table@[fr.page_id] == i
            &&& self.replacer@[i as FrameId].evictable == (fr.pin_count == 0)
            &&& !fr.is_dirty ==> fr.data@ == self.disk_content(fr.page_id)
        }
        &&& fr.page_id == INVALID_PAGE_ID ==> {
            &&& fr.pin_count == 0
            &&& self.free_frames@.contains(i as FrameId)
        }
    }

    pub closed spec fn wf(&self) -> bool {
        &&& self.frames@.len() == self.num_frames
        &&& self.num_frames < i32::MAX
        &&& forall|i: int| 0 <= i < self.num_frames ==> #[trigger] self.frame_wf(i)
        &&& forall|p: PageId|
            #[trigger] self.page_table@.contains_key(p) ==> {
                &&& p != INVALID_PAGE_ID
                &&& 0 <= self.page_table@[p] < self.num_frames
                &&& self.frames@[self.page_table@[p] as int].page_id == p
            }
        &&& self.free_frames@.no_duplicates()
        &&& forall|j: int|
            0 <= j < self.free_frames@.len() ==> {
                &&& 0 <= #[trigger] self.free_frames@[j] < self.num_frames
                &&& self.frames@[self.free_frames@[j] as int].page_id == INVALID_PAGE_ID
            }
        &&& self.replacer.wf()
        &&& self.replacer.spec_replacer_size() == self.num_frames
        &&& forall|f: FrameId| #[trigger] self.replacer@.contains_key(f) ==> 0 <= f < self.num_frames
        &&& self.replacer@.dom().len() + self.free_frames@.len() == self.num_frames
        &&& forall|p: PageId|
            #[trigger] self.disk.pages().contains_key(p) ==> self.disk.pages()[p].len() == BUSTUB_PAGE_SIZE
    }
}


impl<D: DiskManager> BufferPoolManager<D> {
    /// Creates a new `BufferPoolManager` of `num_frames` frames over the disk
    /// `disk_manager`, with an LRU-K replacer of backward k-distance `k_dist`.
    /// Every frame starts free; no page is in memory.
    pub fn new(num_frames: usize, disk_manager: D, k_dist: usize) -> (r: Self)
        requires
            num_frames < i32::MAX,
            forall|p: PageId|
                #[trigger] disk_manager.pages().contains_key(p) ==> disk_manager.pages()[p].len()
                    == BUSTUB_PAGE_SIZE,
        ensures
            r.wf(),
            r.spec_num_frames() == num_frames,
            r.spec_next_page_id() == 0,
            r.spec_k() == k_dist,
            r.spec_timestamp() == 0,
            forall|p: PageId| !r.resident(p),
            forall|p: PageId| #[trigger] r.content(p) == (if disk_manager.pages().contains_key(p) {
                disk_manager.pages()[p]
            } else {
                zero_page()
            }),
            r.free_count() == num_frames,
    {
        let replacer = LRUKReplacer::new(num_frames, k_dist);
        let mut frames: Vec<FrameHeader> = Vec::with_capacity(num_frames);
        let mut free_frames: VecDeque<FrameId> = VecDeque::with_capacity(num_frames);
        let mut i: usize = 0;
        while i < num_frames
            invariant
                0 <= i <= num_frames,
                num_frames < i32::MAX,
                frames@.len() == i,
                free_frames@.len() == i,
                forall|j: int|
                    0 <= j < i ==> {
                        &&& (#[trigger] frames@[j]).frame_id == j
                        &&& frames@[j].pin_count == 0
                        &&& frames@[j].page_id == INVALID_PAGE_ID
                        &&& frames@[j].data@ == zero_page()
                    },
                forall|j: int| 0 <= j < i ==> #[trigger] free_frames@[j] == j,
            decreases num_frames - i,
        {
            frames.push(FrameHeader::new(i as FrameId));
            free_frames.push_back(i as FrameId);
            i += 1;
        }
        let r = BufferPoolManager {
            num_frames,
            next_page_id: 0,
            frames,
            page_table: HashMap::with_capacity(num_frames),
            free_frames,
            replacer,
            disk: disk_manager,
        };
        assert forall|j: int| 0 <= j < num_frames implies #[trigger] r.frame_wf(j) by {
            assert(r.free_frames@[j] == j);
        }
        assert forall|a: int, b: int|
            0 <= a < r.free_frames@.len() && 0 <= b < r.free_frames@.len() && a != b
                implies r.free_frames@[a] != r.free_frames@[b] by {
            assert(r.free_frames@[a] == a && r.free_frames@[b] == b);
        }
        assert(r.replacer@.dom() =~= Set::empty());
        if num_frames > 0 {
            assert(r.free_frames@.len() > 0);
        }
        r
    }

    /// Returns the number of frames that this buffer pool manages.
    pub fn size(&self) -> (r: usize)
        requires
            self.wf(),
        ensures
            r == self.spec_num_frames(),
    {
        self.num_frames
    }

    /// Allocates a new page id; the data of every page is unchanged.
    pub fn new_page(&mut self) -> (r: PageId)
        requires
            old(self).wf(),
            old(self).spec_next_page_id() < i32::MAX,
        ensures
            final(self).wf(),
            r == old(self).spec_next_page_id(),
            final(self).spec_next_page_id() == old(self).spec_next_page_id() + 1,
            final(self).spec_num_frames() == old(self).spec_num_frames(),
            final(self).spec_timestamp() == old(self).spec_timestamp(),
            final(self).spec_k() == old(self).spec_k(),
            forall|p: PageId| #[trigger] final(self).content(p) == old(self).content(p),
            forall|p: PageId| #[trigger] final(self).resident(p) == old(self).resident(p),
            forall|p: PageId| old(self).resident(p) ==> #[trigger] final(self).frame_of(p) == old(self).frame_of(p)
                && final(self).pins(p) == old(self).pins(p),
            final(self).free_count() == old(self).free_count(),
    {
        let page_id = self.next_page_id;
        self.next_page_id = page_id + 1;
        if page_id >= 0 {
            self.disk.increase_disk_space(page_id as usize + 1);
        }
        assert forall|i: int| 0 <= i < self.num_frames implies #[trigger] self.frame_wf(i) by {
            assert(old(self).frame_wf(i));
        }
        page_id
    }

    /// Retrieves the pin count of a page, or `None` if the page is not in
    /// memory.
    pub fn get_pin_count(&self, page_id: PageId) -> (r: Option<usize>)
        requires
            self.wf(),
        ensures
            match r {
                Some(n) => self.resident(page_id) && n == self.pins(page_id),
                None => !self.resident(page_id),
            },
    {
        match self.page_table.get(&page_id) {
            Some(f) => Some(self.frames[*f as usize].pin_count),
            None => None,
        }
    }
}


impl<D: DiskManager> BufferPoolManager<D> {
    /// Brings page `page_id` into memory, if it is not there yet, and pins
    /// it. A page not in memory takes a free frame, or else the frame of the
    /// page the replacer evicts, whose data is written to disk first when it
    /// was modified. Returns the frame, or `None` when no frame can hold the
    /// page.
    fn fetch_page(&mut self, page_id: PageId, access_type: AccessType) -> (r: Option<FrameId>)
        requires
            old(self).wf(),
            page_id != INVALID_PAGE_ID,
            old(self).spec_timestamp() < usize::MAX,
            old(self).spec_k() > 0,
            old(self).resident(page_id) ==> old(self).pins(page_id) < usize::MAX,
        ensures
            final(self).wf(),
            final(self).spec_num_frames() == old(self).spec_num_frames(),
            final(self).spec_next_page_id() == old(self).spec_next_page_id(),
            final(self).spec_k() == old(self).spec_k(),
            forall|p: PageId| #[trigger] final(self).content(p) == old(self).content(p),
            r is Some <==> old(self).can_hold(page_id),
            match r {
                Some(f) => {
                    &&& final(self).spec_timestamp() == old(self).spec_timestamp() + 1
                    &&& final(self).resident(page_id)
                    &&& final(self).frame_of(page_id) == f
                    &&& final(self).pins(page_id) == (if old(self).resident(page_id) {
                        old(self).pins(page_id) + 1
                    } else {
                        1
                    })
                    &&& old(self).resident(page_id) ==> f == old(self).frame_of(page_id)
                    &&& forall|p: PageId|
                        p != page_id && #[trigger] final(self).resident(p) ==> {
                            &&& old(self).resident(p)
                            &&& final(self).frame_of(p) == old(self).frame_of(p)
                            &&& final(self).pins(p) == old(self).pins(p)
                        }
                    &&& forall|p: PageId|
                        #[trigger] old(self).resident(p) && old(self).pins(p) > 0 ==> final(self).resident(p)
                    &&& Self::frame_taken(final(self), old(self), page_id, f)
                },
                None => {
                    &&& final(self).spec_timestamp() == old(self).spec_timestamp()
                    &&& final(self).free_count() == old(self).free_count()
                    &&& forall|p: PageId| #[trigger] final(self).resident(p) == old(self).resident(p)
                    &&& forall|p: PageId|
                        #[trigger] old(self).resident(p) ==> final(self).frame_of(p) == old(self).frame_of(p)
                            && final(self).pins(p) == old(self).pins(p)
                },
            },
    {
        let ghost n = self.num_frames as int;
        match self.page_table.get(&page_id) {
            Some(fr) => {
                let f = *fr;
                assert(old(self).frame_wf(f as int));
                let ghost m0 = self.replacer@;
                self.frames[f as usize].pin_count = self.frames[f as usize].pin_count + 1;
                self.replacer.record_access(f, access_type);
                self.replacer.set_evictable(f, false);
                assert forall|i: int| 0 <= i < n implies #[trigger] self.frame_wf(i) by {
                    assert(old(self).frame_wf(i));
                }
                assert(self.replacer@.dom() =~= m0.dom());
                return Some(f);
            },
            None => {},
        }
        let ghost old_self = *self;
        let ghost mut evicted: Option<PageId> = None;
        let f: FrameId = match self.free_frames.pop_front() {
            Some(f) => {
                assert(old_self.free_frames@[0] == f);
                assert(old_self.frame_wf(f as int));
                f
            },
            None => {
                match self.replacer.evict() {
                    None => {
                        proof {
                            assert forall|p: PageId| #[trigger] old_self.resident(p) implies old_self.pins(p) > 0 by {
                                let fp = old_self.page_table@[p];
                                assert(old_self.frame_wf(fp as int));
                                if old_self.pins(p) == 0 {
                                    assert(evictable_frames(old_self.replacer@).contains(fp));
                                }
                            }
                            assert forall|i: int| 0 <= i < n implies #[trigger] self.frame_wf(i) by {
                                assert(old_self.frame_wf(i));
                            }
                        }
                        return None;
                    },
                    Some(v) => {
                        assert(old_self.frame_wf(v as int));
                        let old_pid = self.frames[v as usize].page_id;
                        if self.frames[v as usize].is_dirty {
                            self.disk.write_page(old_pid, self.frames[v as usize].data.as_slice());
                        }
                        self.page_table.remove(&old_pid);
                        proof {
                            evicted = Some(old_pid);
                        }
                        v
                    },
                }
            },
        };
        let ghost mid = *self;
        self.frames[f as usize].reset();
        self.disk.read_page(page_id, &mut self.frames[f as usize].data);
        self.frames[f as usize].page_id = page_id;
        self.frames[f as usize].pin_count = 1;
        self.page_table.insert(page_id, f);
        let ghost m1 = self.replacer@;
        assert(m1.dom().len() < n) by {
            if evicted is None {
                assert(m1 == old_self.replacer@);
            }
        }
        assert(!m1.contains_key(f)) by {
            assert(old_self.frame_wf(f as int));
        }
        self.replacer.record_access(f, access_type);
        self.replacer.set_evictable(f, false);
        proof {
            let ts = old_self.replacer.spec_timestamp();
            assert(0 <= f < n);
            assert(self.frames@[f as int].data@ == self.disk_content(page_id)) by {
                assert(mid.frames@[f as int].data@.len() == BUSTUB_PAGE_SIZE);
                if self.disk.pages().contains_key(page_id) {
                    assert(self.disk.pages()[page_id].len() == BUSTUB_PAGE_SIZE);
                }
            }
            match evicted {
                None => {
                    assert(mid.free_frames@ == old_self.free_frames@.subrange(1, old_self.free_frames@.len() as int));
                    assert(self.replacer@.dom() =~= old_self.replacer@.dom().insert(f));
                    old_self.replacer.lemma_view_finite();
                    vstd::set::axiom_set_insert_len(old_self.replacer@.dom(), f);
                },
                Some(op) => {
                    assert(self.replacer@.dom() =~= old_self.replacer@.dom());
                    assert(old_self.page_table@[op] == f);
                    assert(old_self.resident(op) && old_self.pins(op) == 0);
                },
            }
            assert(self.free_frames@.no_duplicates());
            assert(self.replacer.wf());
            assert(forall|g: FrameId| #[trigger] self.replacer@.contains_key(g) ==> 0 <= g < n);
            assert(self.replacer@.dom().len() + self.free_frames@.len() == n);
            assert(forall|p: PageId|
                #[trigger] self.disk.pages().contains_key(p) ==> self.disk.pages()[p].len() == BUSTUB_PAGE_SIZE);
            assert forall|i: int| 0 <= i < n implies #[trigger] self.frame_wf(i) by {
                assert(old_self.frame_wf(i));
                if i != f {
                    let pi = old_self.frames@[i].page_id;
                    assert(self.frames@[i] == old_self.frames@[i]);
                    if pi != INVALID_PAGE_ID {
                        assert(old_self.page_table@[pi] == i);
                        assert(pi != page_id);
                        if let Some(op) = evicted {
                            assert(old_self.page_table@[op] == f);
                            assert(pi != op);
                        }
                        assert(self.disk_content(pi) == old_self.disk_content(pi));
                    } else {
                        if evicted is None {
                            let j = choose|j: int| 0 <= j < old_self.free_frames@.len() && old_self.free_frames@[j] == i as FrameId;
                            assert(j != 0);
                            assert(self.free_frames@[j - 1] == i as FrameId);
                        }
                    }
                }
            }
            assert forall|p: PageId| #[trigger] self.page_table@.contains_key(p) implies {
                &&& p != INVALID_PAGE_ID
                &&& 0 <= self.page_table@[p] < n
                &&& self.frames@[self.page_table@[p] as int].page_id == p
            } by {
                if p != page_id {
                    assert(old_self.page_table@.contains_key(p));
                    let fp = old_self.page_table@[p];
                    assert(old_self.frame_wf(f as int));
                    if fp == f {
                        assert(old_self.frames@[f as int].page_id == p);
                    }
                }
            }
            assert forall|j: int| 0 <= j < self.free_frames@.len() implies {
                &&& 0 <= #[trigger] self.free_frames@[j] < n
                &&& self.frames@[self.free_frames@[j] as int].page_id == INVALID_PAGE_ID
            } by {
                assert(self.free_frames@[j] == old_self.free_frames@[j + 1]);
                assert(old_self.free_frames@[j + 1] != old_self.free_frames@[0]);
            }
            assert forall|p: PageId| #[trigger] self.content(p) == old_self.content(p) by {
                if p != page_id {
                    if old_self.page_table@.contains_key(p) {
                        let fp = old_self.page_table@[p];
                        if let Some(op) = evicted {
                            if p == op {
                                assert(old_self.frame_wf(f as int));
                            } else {
                                assert(fp != f);
                            }
                        } else {
                            assert(fp != f);
                        }
                    } else {
                        if let Some(op) = evicted {
                            assert(p != op);
                        }
                    }
                }
            }
        }
        Some(f)
    }
}


impl<D: DiskManager> BufferPoolManager<D> {
    /// Every page has the same data in `self` as in `other`.
    pub open spec fn same_contents(&self, other: &Self) -> bool {
        forall|p: PageId| #[trigger] self.content(p) == other.content(p)
    }

    /// Every page is in memory in `self` exactly when it is in `other`, in the
    /// same frame and with the same pins.
    pub open spec fn same_residency(&self, other: &Self) -> bool {
        &&& forall|p: PageId| #[trigger] self.resident(p) == other.resident(p)
        &&& forall|p: PageId|
            #[trigger] other.resident(p) ==> self.frame_of(p) == other.frame_of(p) && self.pins(p)
                == other.pins(p)
    }

    /// Whether `post` is `pre` after a successful pin of `page_id` in frame `f`:
    /// the page is in memory with one more pin; no other page came in; the
    /// pages that stayed kept their frames and pins; no pinned page left.
    pub open spec fn pinned_from(post: &Self, pre: &Self, page_id: PageId, f: FrameId) -> bool {
        &&& post.spec_timestamp() == pre.spec_timestamp() + 1
        &&& post.resident(page_id)
        &&& post.frame_of(page_id) == f
        &&& post.pins(page_id) == (if pre.resident(page_id) {
            pre.pins(page_id) + 1
        } else {
            1
        })
        &&& pre.resident(page_id) ==> f == pre.frame_of(page_id)
        &&& forall|p: PageId|
            p != page_id && #[trigger] post.resident(p) ==> {
                &&& pre.resident(p)
                &&& post.frame_of(p) == pre.frame_of(p)
                &&& post.pins(p) == pre.pins(p)
            }
        &&& forall|p: PageId| #[trigger] pre.resident(p) && pre.pins(p) > 0 ==> post.resident(p)
        &&& Self::frame_taken(post, pre, page_id, f)
    }

    /// Which frame a pin of `page_id` took, `post` being `pre` after it: a
    /// page already in memory keeps its frame; one that is not takes a free
    /// frame while one is left, and no page leaves; with no free frame, it
    /// takes the frame that the replacer evicts, whose page leaves.
    pub open spec fn frame_taken(post: &Self, pre: &Self, page_id: PageId, f: FrameId) -> bool {
        &&& pre.resident(page_id) ==> post.free_count() == pre.free_count()
        &&& !pre.resident(page_id) && pre.has_free_frame() ==> {
            &&& post.free_count() == pre.free_count() - 1
            &&& forall|p: PageId| #[trigger] pre.resident(p) ==> post.resident(p)
        }
        &&& !pre.resident(page_id) && !pre.has_free_frame() ==> {
            &&& post.free_count() == 0
            &&& is_victim(pre.records(), f, pre.spec_k())
            &&& exists|v: PageId| #[trigger] pre.resident(v) && pre.frame_of(v) == f && pre.pins(v) == 0
                && !post.resident(v)
        }
    }

    /// The conditions under which a page can be pinned without overflowing
    /// a counter.
    pub open spec fn can_pin(&self, page_id: PageId) -> bool {
        &&& self.spec_timestamp() < usize::MAX
        &&& self.spec_k() > 0
        &&& self.resident(page_id) ==> self.pins(page_id) < usize::MAX
    }

    /// Acquires a read pin on a page. If the page is not in the buffer pool,
    /// it is fetched from disk. If there is no available frame and no
    /// evictable page, or the page id is the invalid one, returns `None`.
    pub fn checked_read_page(&mut self, page_id: PageId, access_type: AccessType) -> (r: Option<
        ReadPageGuard,
    >)
        requires
            old(self).wf(),
            old(self).can_pin(page_id),
        ensures
            final(self).wf(),
            final(self).spec_num_frames() == old(self).spec_num_frames(),
            final(self).spec_next_page_id() == old(self).spec_next_page_id(),
            final(self).spec_k() == old(self).spec_k(),
            final(self).same_contents(old(self)),
            r is Some <==> page_id != INVALID_PAGE_ID && old(self).can_hold(page_id),
            match r {
                Some(g) => g.page() == page_id && Self::pinned_from(final(self), old(self), page_id, g.frame()),
                None => final(self).same_residency(old(self)) && final(self).free_count() == old(self).free_count()
                    && final(self).spec_timestamp()
                    == old(self).spec_timestamp(),
            },
    {
        if page_id == INVALID_PAGE_ID {
            return None;
        }
        match self.fetch_page(page_id, access_type) {
            Some(f) => Some(ReadPageGuard { page_id, frame_id: f }),
            None => None,
        }
    }

    /// Acquires a write pin on a page. If the page is not in the buffer pool,
    /// it is fetched from disk. If there is no available frame and no
    /// evictable page, or the page id is the invalid one, returns `None`.
    pub fn checked_write_page(&mut self, page_id: PageId, access_type: AccessType) -> (r: Option<
        WritePageGuard,
    >)
        requires
            old(self).wf(),
            old(self).can_pin(page_id),
        ensures
            final(self).wf(),
            final(self).spec_num_frames() == old(self).spec_num_frames(),
            final(self).spec_next_page_id() == old(self).spec_next_page_id(),
            final(self).spec_k() == old(self).spec_k(),
            final(self).same_contents(old(self)),
            r is Some <==> page_id != INVALID_PAGE_ID && old(self).can_hold(page_id),
            match r {
                Some(g) => g.page() == page_id && Self::pinned_from(final(self), old(self), page_id, g.frame()),
                None => final(self).same_residency(old(self)) && final(self).free_count() == old(self).free_count()
                    && final(self).spec_timestamp()
                    == old(self).spec_timestamp(),
            },
    {
        if page_id == INVALID_PAGE_ID {
            return None;
        }
        match self.fetch_page(page_id, access_type) {
            Some(f) => Some(WritePageGuard { page_id, frame_id: f }),
            None => None,
        }
    }

    /// A wrapper around `checked_read_page` for pages that can be brought
    /// into memory.
    pub fn read_page(&mut self, page_id: PageId, access_type: AccessType) -> (r: ReadPageGuard)
        requires
            old(self).wf(),
            old(self).can_pin(page_id),
            page_id != INVALID_PAGE_ID,
            old(self).can_hold(page_id),
        ensures
            final(self).wf(),
            final(self).spec_num_frames() == old(self).spec_num_frames(),
            final(self).spec_next_page_id() == old(self).spec_next_page_id(),
            final(self).spec_k() == old(self).spec_k(),
            final(self).same_contents(old(self)),
            r.page() == page_id,
            Self::pinned_from(final(self), old(self), page_id, r.frame()),
    {
        match self.checked_read_page(page_id, access_type) {
            Some(g) => g,
            None => {
                assert(false);
                ReadPageGuard { page_id, frame_id: 0 }
            },
        }
    }

    /// A wrapper around `checked_write_page` for pages that can be brought
    /// into memory.
    pub fn write_page(&mut self, page_id: PageId, access_type: AccessType) -> (r: WritePageGuard)
        requires
            old(self).wf(),
            old(self).can_pin(page_id),
            page_id != INVALID_PAGE_ID,
            old(self).can_hold(page_id),
        ensures
            final(self).wf(),
            final(self).spec_num_frames() == old(self).spec_num_frames(),
            final(self).spec_next_page_id() == old(self).spec_next_page_id(),
            final(self).spec_k() == old(self).spec_k(),
            final(self).same_contents(old(self)),
            r.page() == page_id,
            Self::pinned_from(final(self), old(self), page_id, r.frame()),
    {
        match self.checked_write_page(page_id, access_type) {
            Some(g) => g,
            None => {
                assert(false);
                WritePageGuard { page_id, frame_id: 0 }
            },
        }
    }

    /// The data of the page pinned by a read guard.
    pub fn read_guard_data(&self, guard: &ReadPageGuard) -> (r: &[u8])
        requires
            self.wf(),
            self.pinned(guard.page(), guard.frame()),
        ensures
            r@ == self.content(guard.page()),
    {
        self.frames[guard.frame_id as usize].data.as_slice()
    }

    /// The data of the page pinned by a write guard.
    pub fn write_guard_data(&self, guard: &WritePageGuard) -> (r: &[u8])
        requires
            self.wf(),
            self.pinned(guard.page(), guard.frame()),
        ensures
            r@ == self.content(guard.page()),
    {
        self.frames[guard.frame_id as usize].data.as_slice()
    }

    /// Writes `bytes` into the page pinned by a write guard, from byte
    /// `offset` on. The page is then marked dirty.
    pub fn write_through_guard(&mut self, guard: &WritePageGuard, offset: usize, bytes: &[u8])
        requires
            old(self).wf(),
            old(self).pinned(guard.page(), guard.frame()),
            offset + bytes@.len() <= BUSTUB_PAGE_SIZE,
        ensures
            final(self).wf(),
            final(self).spec_num_frames() == old(self).spec_num_frames(),
            final(self).spec_next_page_id() == old(self).spec_next_page_id(),
            final(self).spec_k() == old(self).spec_k(),
            final(self).spec_timestamp() == old(self).spec_timestamp(),
            final(self).same_residency(old(self)),
            final(self).content(guard.page()) == old(self).content(guard.page()).take(offset as int)
                + bytes@ + old(self).content(guard.page()).skip(offset + bytes@.len()),
            forall|p: PageId| p != guard.page() ==> #[trigger] final(self).content(p) == old(self).content(p),
            final(self).is_dirty(guard.page()),
            forall|p: PageId|
                p != guard.page() && #[trigger] old(self).resident(p) ==> final(self).is_dirty(p) == old(self).is_dirty(p),
    {
        let f = guard.frame_id as usize;
        let ghost old_data = self.frames@[f as int].data@;
        assert(old(self).frame_wf(f as int));
        let mut i: usize = 0;
        while i < bytes.len()
            invariant
                self.frames@.len() == old(self).frames@.len(),
                f < self.frames@.len(),
                0 <= i <= bytes@.len(),
                offset + bytes@.len() <= BUSTUB_PAGE_SIZE,
                self.frames@[f as int].data@.len() == BUSTUB_PAGE_SIZE,
                forall|j: int| 0 <= j < self.frames@.len() && j != f ==> self.frames@[j] == old(self).frames@[j],
                self.frames@[f as int].frame_id == old(self).frames@[f as int].frame_id,
                self.frames@[f as int].page_id == old(self).frames@[f as int].page_id,
                self.frames@[f as int].pin_count == old(self).frames@[f as int].pin_count,
                self.frames@[f as int].is_dirty == old(self).frames@[f as int].is_dirty,
                forall|j: int|
                    0 <= j < BUSTUB_PAGE_SIZE ==> #[trigger] self.frames@[f as int].data@[j] == if offset <= j
                        < offset + i {
                        bytes@[j - offset]
                    } else {
                        old_data[j]
                    },
                self.page_table == old(self).page_table,
                self.free_frames == old(self).free_frames,
                self.replacer == old(self).replacer,
                self.disk == old(self).disk,
                self.num_frames == old(self).num_frames,
                self.next_page_id == old(self).next_page_id,
            decreases bytes@.len() - i,
        {
            self.frames[f].data.set(offset + i, bytes[i]);
            i += 1;
        }
        self.frames[f].is_dirty = true;
        assert(self.frames@[f as int].data@ =~= old_data.take(offset as int) + bytes@ + old_data.skip(
            offset + bytes@.len(),
        ));
        assert forall|i: int| 0 <= i < self.num_frames implies #[trigger] self.frame_wf(i) by {
            assert(old(self).frame_wf(i));
        }
    }

    /// Gives back a read pin. When the page's last pin is gone, its frame
    /// becomes evictable.
    pub fn release_read_guard(&mut self, guard: ReadPageGuard)
        requires
            old(self).wf(),
            old(self).pinned(guard.page(), guard.frame()),
        ensures
            final(self).wf(),
            final(self).spec_num_frames() == old(self).spec_num_frames(),
            final(self).spec_next_page_id() == old(self).spec_next_page_id(),
            final(self).spec_k() == old(self).spec_k(),
            final(self).spec_timestamp() == old(self).spec_timestamp(),
            final(self).same_contents(old(self)),
            forall|p: PageId| #[trigger] final(self).resident(p) == old(self).resident(p),
            forall|p: PageId| #[trigger] old(self).resident(p) ==> final(self).frame_of(p) == old(self).frame_of(p),
            final(self).pins(guard.page()) == old(self).pins(guard.page()) - 1,
            forall|p: PageId|
                p != guard.page() && #[trigger] old(self).resident(p) ==> final(self).pins(p) == old(self).pins(p),
            final(self).free_count() == old(self).free_count(),
    {
        self.unpin(guard.frame_id);
    }

    /// Gives back a write pin. When the page's last pin is gone, its frame
    /// becomes evictable.
    pub fn release_write_guard(&mut self, guard: WritePageGuard)
        requires
            old(self).wf(),
            old(self).pinned(guard.page(), guard.frame()),
        ensures
            final(self).wf(),
            final(self).spec_num_frames() == old(self).spec_num_frames(),
            final(self).spec_next_page_id() == old(self).spec_next_page_id(),
            final(self).spec_k() == old(self).spec_k(),
            final(self).spec_timestamp() == old(self).spec_timestamp(),
            final(self).same_contents(old(self)),
            forall|p: PageId| #[trigger] final(self).resident(p) == old(self).resident(p),
            forall|p: PageId| #[trigger] old(self).resident(p) ==> final(self).frame_of(p) == old(self).frame_of(p),
            final(self).pins(guard.page()) == old(self).pins(guard.page()) - 1,
            forall|p: PageId|
                p != guard.page() && #[trigger] old(self).resident(p) ==> final(self).pins(p) == old(self).pins(p),
            final(self).free_count() == old(self).free_count(),
    {
        self.unpin(guard.frame_id);
    }

    fn unpin(&mut self, frame_id: FrameId)
        requires
            old(self).wf(),
            0 <= frame_id < old(self).spec_num_frames(),
            old(self).frames@[frame_id as int].page_id != INVALID_PAGE_ID,
            old(self).frames@[frame_id as int].pin_count > 0,
        ensures
            final(self).wf(),
            final(self).num_frames == old(self).num_frames,
            final(self).next_page_id == old(self).next_page_id,
            final(self).page_table == old(self).page_table,
            final(self).free_frames == old(self).free_frames,
            final(self).disk == old(self).disk,
            final(self).spec_k() == old(self).spec_k(),
            final(self).spec_timestamp() == old(self).spec_timestamp(),
            final(self).frames@.len() == old(self).frames@.len(),
            final(self).frames@[frame_id as int].pin_count == old(self).frames@[frame_id as int].pin_count - 1,
            final(self).frames@[frame_id as int].data == old(self).frames@[frame_id as int].data,
            forall|j: int| 0 <= j < final(self).frames@.len() && j != frame_id ==> final(self).frames@[j] == old(self).frames@[j],
    {
        let f = frame_id as usize;
        assert(old(self).frame_wf(f as int));
        let ghost m0 = self.replacer@;
        self.frames[f].pin_count = self.frames[f].pin_count - 1;
        if self.frames[f].pin_count == 0 {
            self.replacer.set_evictable(frame_id, true);
        }
        assert(self.replacer@.dom() =~= m0.dom());
        assert forall|i: int| 0 <= i < self.num_frames implies #[trigger] self.frame_wf(i) by {
            assert(old(self).frame_wf(i));
        }
    }
}


impl<D: DiskManager> BufferPoolManager<D> {
    /// Flushes a page's data out to disk. Returns `false` if the page is not
    /// in memory.
    pub fn flush_page(&mut self, page_id: PageId) -> (r: bool)
        requires
            old(self).wf(),
        ensures
            final(self).wf(),
            final(self).spec_num_frames() == old(self).spec_num_frames(),
            final(self).spec_next_page_id() == old(self).spec_next_page_id(),
            final(self).spec_k() == old(self).spec_k(),
            final(self).spec_timestamp() == old(self).spec_timestamp(),
            final(self).same_contents(old(self)),
            final(self).same_residency(old(self)),
            final(self).free_count() == old(self).free_count(),
            r == old(self).resident(page_id),
            r ==> final(self).disk_content(page_id) == old(self).content(page_id),
            r ==> !final(self).is_dirty(page_id),
            forall|p: PageId|
                p != page_id && #[trigger] old(self).resident(p) ==> final(self).is_dirty(p) == old(self).is_dirty(p),
    {
        match self.page_table.get(&page_id) {
            None => false,
            Some(fr) => {
                let f = *fr as usize;
                assert(old(self).frame_wf(f as int));
                self.disk.write_page(page_id, self.frames[f].data.as_slice());
                self.frames[f].is_dirty = false;
                assert forall|i: int| 0 <= i < self.num_frames implies #[trigger] self.frame_wf(i) by {
                    assert(old(self).frame_wf(i));
                    if i != f {
                        let pi = old(self).frames@[i].page_id;
                        if pi != INVALID_PAGE_ID {
                            assert(pi != page_id);
                        }
                    }
                }
                assert forall|p: PageId| #[trigger] self.content(p) == old(self).content(p) by {
                    if p == page_id {
                    } else if !old(self).resident(p) {
                        assert(self.disk_content(p) == old(self).disk_content(p));
                    }
                }
                true
            },
        }
    }

    /// Flushes the data of every page in memory out to disk.
    pub fn flush_all_pages(&mut self)
        requires
            old(self).wf(),
        ensures
            final(self).wf(),
            final(self).spec_num_frames() == old(self).spec_num_frames(),
            final(self).spec_next_page_id() == old(self).spec_next_page_id(),
            final(self).spec_k() == old(self).spec_k(),
            final(self).spec_timestamp() == old(self).spec_timestamp(),
            final(self).same_contents(old(self)),
            final(self).same_residency(old(self)),
            final(self).free_count() == old(self).free_count(),
            forall|p: PageId| #[trigger] final(self).resident(p) ==> final(self).disk_content(p) == final(self).content(p),
            forall|p: PageId| #[trigger] final(self).resident(p) ==> !final(self).is_dirty(p),
    {
        let n = self.num_frames;
        let mut i: usize = 0;
        while i < n
            invariant
                self.wf(),
                n == self.num_frames,
                0 <= i <= n,
                self.page_table == old(self).page_table,
                self.free_frames == old(self).free_frames,
                self.replacer == old(self).replacer,
                self.next_page_id == old(self).next_page_id,
                self.same_contents(old(self)),
                forall|j: int| 0 <= j < self.frames@.len() ==> #[trigger] self.frames@[j].pin_count == old(self).frames@[j].pin_count,
                forall|j: int| 0 <= j < i && self.frames@[j].page_id != INVALID_PAGE_ID
                    ==> #[trigger] self.disk_content(self.frames@[j].page_id) == self.frames@[j].data@,
                forall|j: int| 0 <= j < i && self.frames@[j].page_id != INVALID_PAGE_ID ==> !(#[trigger] self.frames@[j]).is_dirty,
                forall|j: int| 0 <= j < self.frames@.len() ==> #[trigger] self.frames@[j].page_id == old(self).frames@[j].page_id,
            decreases n - i,
        {
            if self.frames[i].page_id != INVALID_PAGE_ID {
                let ghost before = *self;
                let page_id = self.frames[i].page_id;
                assert(before.frame_wf(i as int));
                self.disk.write_page(page_id, self.frames[i].data.as_slice());
                self.frames[i].is_dirty = false;
                assert forall|k: int| 0 <= k < self.num_frames implies #[trigger] self.frame_wf(k) by {
                    assert(before.frame_wf(k));
                    if k != i {
                        let pk = before.frames@[k].page_id;
                        if pk != INVALID_PAGE_ID {
                            assert(pk != page_id);
                        }
                    }
                }
                assert forall|p: PageId| #[trigger] self.content(p) == before.content(p) by {
                    if p != page_id && !before.resident(p) {
                        assert(self.disk_content(p) == before.disk_content(p));
                    }
                }
                assert forall|j: int| 0 <= j < i + 1 && self.frames@[j].page_id != INVALID_PAGE_ID
                    implies #[trigger] self.disk_content(self.frames@[j].page_id) == self.frames@[j].data@ by {
                    if j != i {
                        assert(before.frame_wf(j));
                        let pj = self.frames@[j].page_id;
                        assert(pj != page_id);
                        assert(before.frames@[j] == self.frames@[j]);
                        assert(before.disk_content(before.frames@[j].page_id) == before.frames@[j].data@);
                        assert(self.disk_content(pj) == before.disk_content(pj));
                    }
                }
            }
            i += 1;
        }
        assert forall|p: PageId| #[trigger] self.resident(p) implies self.disk_content(p) == self.content(p)
            && !self.is_dirty(p) by {
            let f = self.page_table@[p];
            assert(self.frames@[f as int].page_id == p);
        }
    }

    /// Removes a page from the database, both on disk and in memory. If the
    /// page is pinned in the buffer pool, nothing is done and `false` is
    /// returned; otherwise the page is removed and `true` is returned. A
    /// removed page reads as zeroes.
    pub fn delete_page(&mut self, page_id: PageId) -> (r: bool)
        requires
            old(self).wf(),
        ensures
            final(self).wf(),
            final(self).spec_num_frames() == old(self).spec_num_frames(),
            final(self).spec_next_page_id() == old(self).spec_next_page_id(),
            final(self).spec_k() == old(self).spec_k(),
            final(self).spec_timestamp() == old(self).spec_timestamp(),
            r == !(old(self).resident(page_id) && old(self).pins(page_id) > 0),
            !r ==> final(self).same_contents(old(self)) && final(self).same_residency(old(self))
                && final(self).free_count() == old(self).free_count(),
            r ==> {
                &&& !final(self).resident(page_id)
                &&& final(self).free_count() == old(self).free_count() + if old(self).resident(page_id) {
                    1nat
                } else {
                    0nat
                }
                &&& final(self).content(page_id) == zero_page()
                &&& forall|p: PageId| p != page_id ==> #[trigger] final(self).content(p) == old(self).content(p)
                &&& forall|p: PageId| p != page_id ==> #[trigger] final(self).resident(p) == old(self).resident(p)
                &&& forall|p: PageId|
                    p != page_id && #[trigger] old(self).resident(p) ==> final(self).frame_of(p) == old(self).frame_of(p)
                        && final(self).pins(p) == old(self).pins(p)
            },
    {
        let ghost n = self.num_frames as int;
        match self.page_table.get(&page_id) {
            None => {
                self.disk.delete_page(page_id);
                assert forall|i: int| 0 <= i < n implies #[trigger] self.frame_wf(i) by {
                    assert(old(self).frame_wf(i));
                    let pi = old(self).frames@[i].page_id;
                    if pi != INVALID_PAGE_ID {
                        assert(pi != page_id);
                    }
                }
                assert forall|p: PageId| p != page_id implies #[trigger] self.content(p) == old(self).content(p) by {
                    if !old(self).resident(p) {
                        assert(self.disk_content(p) == old(self).disk_content(p));
                    }
                }
                true
            },
            Some(fr) => {
                let fid = *fr;
                let f = fid as usize;
                assert(old(self).frame_wf(f as int));
                if self.frames[f].pin_count > 0 {
                    return false;
                }
                let ghost m0 = self.replacer@;
                self.replacer.remove(fid);
                self.page_table.remove(&page_id);
                self.frames[f].reset();
                self.free_frames.push_back(fid);
                self.disk.delete_page(page_id);
                proof {
                    old(self).replacer.lemma_view_finite();
                    assert(self.replacer@.dom() =~= m0.dom().remove(fid));
                    vstd::set::axiom_set_remove_len(m0.dom(), fid);
                    assert(!old(self).free_frames@.contains(fid)) by {
                        if old(self).free_frames@.contains(fid) {
                            let j = choose|j: int| 0 <= j < old(self).free_frames@.len() && old(self).free_frames@[j] == fid;
                            assert(old(self).frames@[old(self).free_frames@[j] as int].page_id == INVALID_PAGE_ID);
                        }
                    }
                    assert forall|a: int, b: int|
                        0 <= a < self.free_frames@.len() && 0 <= b < self.free_frames@.len() && a != b
                            implies self.free_frames@[a] != self.free_frames@[b] by {
                        let l = old(self).free_frames@.len() as int;
                        if a == l {
                            assert(old(self).free_frames@.contains(old(self).free_frames@[b]));
                        } else if b == l {
                            assert(old(self).free_frames@.contains(old(self).free_frames@[a]));
                        }
                    }
                    assert forall|j: int| 0 <= j < self.free_frames@.len() implies {
                        &&& 0 <= #[trigger] self.free_frames@[j] < n
                        &&& self.frames@[self.free_frames@[j] as int].page_id == INVALID_PAGE_ID
                    } by {
                        if j < old(self).free_frames@.len() {
                            assert(self.free_frames@[j] == old(self).free_frames@[j]);
                        }
                    }
                    assert forall|i: int| 0 <= i < n implies #[trigger] self.frame_wf(i) by {
                        assert(old(self).frame_wf(i));
                        if i == f {
                            assert(self.free_frames@[self.free_frames@.len() - 1] == fid);
                        } else {
                            let pi = old(self).frames@[i].page_id;
                            if pi != INVALID_PAGE_ID {
                                assert(pi != page_id);
                            } else {
                                let j = choose|j: int| 0 <= j < old(self).free_frames@.len() && old(self).free_frames@[j] == i as FrameId;
                                assert(self.free_frames@[j] == i as FrameId);
                            }
                        }
                    }
                    assert forall|p: PageId| #[trigger] self.page_table@.contains_key(p) implies {
                        &&& p != INVALID_PAGE_ID
                        &&& 0 <= self.page_table@[p] < n
                        &&& self.frames@[self.page_table@[p] as int].page_id == p
                    } by {
                        assert(old(self).page_table@.contains_key(p));
                        if old(self).page_table@[p] == fid {
                            assert(old(self).frames@[f as int].page_id == p);
                        }
                    }
                    assert forall|p: PageId| p != page_id implies #[trigger] self.content(p) == old(self).content(p) by {
                        if old(self).resident(p) {
                            assert(old(self).page_table@[p] != fid);
                        } else {
                            assert(self.disk_content(p) == old(self).disk_content(p));
                        }
                    }
                }
                true
            },
        }
    }
}

impl<D: DiskManager> BufferPoolManager<D> {
    /// The replacer's records are valid access histories, of which the
    /// LRU-K eviction laws speak.
    pub proof fn lemma_records_valid(&self)
        requires
            self.wf(),
        ensures
            histories_wf(self.records(), self.spec_k(), self.spec_timestamp()),
            self.records().dom().finite(),
    {
        self.replacer.lemma_histories_valid();
    }

    /// Every page's data is one page long.
    pub proof fn lemma_content_len(&self, p: PageId)
        requires
            self.wf(),
        ensures
            self.content(p).len() == BUSTUB_PAGE_SIZE,
    {
        if self.page_table@.contains_key(p) {
            assert(self.frame_wf(self.page_table@[p] as int));
        }
    }
}

/// What is written through a write guard is what a later read gives:
/// `write_through_guard` puts `bytes` at `offset` of page `p`, turning
/// `before` into `written`; any later operations that keep every page's
/// data (releasing guards, pinning pages for reading or writing, flushing,
/// evicting) lead to `later`, whose page `p` holds `bytes` at `offset`.
pub proof fn law_read_back_what_was_written<D: DiskManager>(
    before: BufferPoolManager<D>,
    written: BufferPoolManager<D>,
    later: BufferPoolManager<D>,
    p: PageId,
    offset: int,
    bytes: Seq<u8>,
)
    requires
        before.wf(),
        0 <= offset,
        offset + bytes.len() <= BUSTUB_PAGE_SIZE,
        written.content(p) == before.content(p).take(offset) + bytes + before.content(p).skip(offset + bytes.len()),
        later.same_contents(&written),
    ensures
        later.content(p).subrange(offset, offset + bytes.len()) == bytes,
{
    before.lemma_content_len(p);
    assert(later.content(p) == written.content(p));
    assert(later.content(p).subrange(offset, offset + bytes.len()) =~= bytes);
}

/// A page not in memory cannot be brought in once every frame holds a
/// pinned page: no frame is free and every page in memory is pinned. Pins of
/// pages not in memory use up the free frames one by one (`frame_taken`),
/// and a new pool has all of its frames free.
pub proof fn law_full_pool_refuses<D: DiskManager>(bpm: BufferPoolManager<D>, page_id: PageId)
    requires
        !bpm.resident(page_id),
        bpm.free_count() == 0,
        forall|p: PageId| #[trigger] bpm.resident(p) ==> bpm.pins(p) > 0,
    ensures
        !bpm.can_hold(page_id),
{
}

/// The number of frames never changes: along any run of operations, each
/// of which keeps it (every operation's `ensures` says so), the last pool
/// has as many frames as the first.
pub proof fn law_frame_count_never_changes<D: DiskManager>(run: Seq<BufferPoolManager<D>>)
    requires
        forall|i: int| 0 <= i < run.len() - 1 ==> #[trigger] run[i + 1].spec_num_frames() == run[i].spec_num_frames(),
    ensures
        forall|i: int| 0 <= i < run.len() ==> #[trigger] run[i].spec_num_frames() == run[0].spec_num_frames(),
    decreases run.len(),
{
    if run.len() > 1 {
        let d = run.drop_last();
        assert forall|i: int| 0 <= i < d.len() - 1 implies #[trigger] d[i + 1].spec_num_frames()
            == d[i].spec_num_frames() by {
            assert(d[i + 1] == run[i + 1] && d[i] == run[i]);
        }
        law_frame_count_never_changes(d);
        assert forall|i: int| 0 <= i < run.len() implies #[trigger] run[i].spec_num_frames()
            == run[0].spec_num_frames() by {
            if i < run.len() - 1 {
                assert(run[i] == d[i]);
            } else {
                assert(run[i - 1] == d[i - 1]);
                assert(run[(i - 1) + 1].spec_num_frames() == run[i - 1].spec_num_frames());
            }
        }
    }
}

/// Page ids start at 0 and grow by one per `new_page`: along a run of
/// operations where `allocated[i]` tells whether step `i` was a `new_page`
/// (which returns the next id and adds one) and every other step keeps the
/// next id, step `i` sees as next id the number of `new_page` calls before
/// it, so no two `new_page` calls return the same id.
pub proof fn law_page_ids_count_up<D: DiskManager>(run: Seq<BufferPoolManager<D>>, allocated: Seq<bool>)
    requires
        run.len() == allocated.len() + 1,
        run[0].spec_next_page_id() == 0,
        forall|i: int|
            0 <= i < allocated.len() ==> #[trigger] run[i + 1].spec_next_page_id() == run[i].spec_next_page_id()
                + if allocated[i] {
                1int
            } else {
                0int
            },
    ensures
        forall|i: int|
            0 <= i < run.len() ==> #[trigger] run[i].spec_next_page_id() == allocated.take(i).filter(
                |b: bool| b,
            ).len(),
    decreases allocated.len(),
{
    if allocated.len() > 0 {
        let n = allocated.len() - 1;
        let r2 = run.drop_last();
        let a2 = allocated.drop_last();
        assert forall|i: int| 0 <= i < a2.len() implies #[trigger] r2[i + 1].spec_next_page_id()
            == r2[i].spec_next_page_id() + if a2[i] {
            1int
        } else {
            0int
        } by {
            assert(r2[i + 1] == run[i + 1] && r2[i] == run[i] && a2[i] == allocated[i]);
        }
        law_page_ids_count_up(r2, a2);
        assert forall|i: int| 0 <= i < run.len() implies #[trigger] run[i].spec_next_page_id()
            == allocated.take(i).filter(|b: bool| b).len() by {
            if i < run.len() - 1 {
                assert(run[i] == r2[i]);
                assert(allocated.take(i) =~= a2.take(i));
            } else {
                assert(run[n] == r2[n]);
                assert(allocated.take(n) =~= a2.take(n));
                assert(allocated.take(i) =~= allocated.take(n).push(allocated[n]));
                allocated.take(n).lemma_filter_push(allocated[n], |b: bool| b);
                assert(run[n + 1].spec_next_page_id() == run[n].spec_next_page_id() + if allocated[n] {
                    1int
                } else {
                    0int
                });
            }
        }
    }
}

} // verus!

use vstd::prelude::*;

use crate::common::{FrameId, PageId, BUSTUB_PAGE_SIZE, INVALID_PAGE_ID};

verus! {

/// The data of a page that holds only zeroes.
pub open spec fn zero_page() -> Seq<u8> {
    Seq::new(BUSTUB_PAGE_SIZE as nat, |i: int| 0u8)
}

/// A helper for `BufferPoolManager` that manages a frame of memory and
/// related metadata: the frame's id, the number of pins keeping its page in
/// memory, whether the page was modified since it was last written to disk,
/// the page it holds and the page's data.
pub struct FrameHeader {
    /// The frame ID / index of the frame this header represents.
    pub frame_id: FrameId,
    /// The number of pins on this frame keeping the page in memory.
    pub pin_count: usize,
    /// Set when the page has been modified and needs to be flushed to disk.
    pub is_dirty: bool,
    /// The ID of the page held in this frame, or `INVALID_PAGE_ID` if the
    /// frame is empty.
    pub page_id: PageId,
    /// The page data, `BUSTUB_PAGE_SIZE` bytes.
    pub data: Vec<u8>,
}

impl FrameHeader {
    /// Creates a new `FrameHeader` for the given frame ID: zeroed data, no
    /// pins, clean, holding no page.
    pub fn new(frame_id: FrameId) -> (r: Self)
        ensures
            r.frame_id == frame_id,
            r.pin_count == 0,
            !r.is_dirty,
            r.page_id == INVALID_PAGE_ID,
            r.data@ == zero_page(),
    {
        let mut this = FrameHeader {
            frame_id,
            pin_count: 0,
            is_dirty: false,
            page_id: INVALID_PAGE_ID,
            data: vec![0u8; BUSTUB_PAGE_SIZE],
        };
        this.reset();
        this
    }

    /// Resets the frame header to its default state: zeroes the page data,
    /// clears the pin count, marks the frame as clean, and sets the page ID
    /// to `INVALID_PAGE_ID`.
    pub fn reset(&mut self)
        requires
            old(self).data@.len() == BUSTUB_PAGE_SIZE,
        ensures
            final(self).frame_id == old(self).frame_id,
            final(self).pin_count == 0,
            !final(self).is_dirty,
            final(self).page_id == INVALID_PAGE_ID,
            final(self).data@ == zero_page(),
    {
        let mut i: usize = 0;
        while i < self.data.len()
            invariant
                self.data@.len() == BUSTUB_PAGE_SIZE,
                0 <= i <= self.data@.len(),
                self.frame_id == old(self).frame_id,
                forall|j: int| 0 <= j < i ==> self.data@[j] == 0u8,
            decreases self.data@.len() - i,
        {
            self.data.set(i, 0u8);
            i += 1;
        }
        assert(self.data@ =~= zero_page());
        self.pin_count = 0;
        self.is_dirty = false;
        self.page_id = INVALID_PAGE_ID;
    }
}

} // verus!

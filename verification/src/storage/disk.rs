use std::collections::HashMap;
use vstd::prelude::*;

use crate::common::PageId;

verus! {

broadcast use vstd::std_specs::hash::group_hash_axioms;

/// The persistent storage that the buffer pool reads pages from and writes
/// pages to.
pub trait DiskManager {
    /// The data of every page written to disk.
    spec fn pages(&self) -> Map<PageId, Seq<u8>>;

    /// Writes the data of a page to disk.
    fn write_page(&mut self, page_id: PageId, page_data: &[u8])
        ensures
            final(self).pages() == old(self).pages().insert(page_id, page_data@),
    ;

    /// Reads the data of a page from disk into `page_data`, which keeps its
    /// length. A page that was never written leaves `page_data` as it is.
    fn read_page(&self, page_id: PageId, page_data: &mut Vec<u8>)
        ensures
            final(page_data)@.len() == old(page_data)@.len(),
            self.pages().contains_key(page_id) && self.pages()[page_id].len() == old(page_data)@.len()
                ==> final(page_data)@ == self.pages()[page_id],
            !self.pages().contains_key(page_id) ==> final(page_data)@ == old(page_data)@,
    ;

    /// Makes room on disk for `pages` pages; the data on disk is unchanged.
    fn increase_disk_space(&mut self, pages: usize)
        ensures
            final(self).pages() == old(self).pages(),
    ;

    /// Removes a page from disk.
    fn delete_page(&mut self, page_id: PageId)
        ensures
            final(self).pages() == old(self).pages().remove(page_id),
    ;
}

/// A disk manager that keeps the pages in memory.
pub struct DiskManagerMemory {
    pages: HashMap<PageId, Vec<u8>>,
}

impl DiskManagerMemory {
    pub fn new() -> (r: Self)
        ensures
            r.pages() == Map::<PageId, Seq<u8>>::empty(),
    {
        let r = DiskManagerMemory { pages: HashMap::new() };
        assert(r.pages() =~= Map::<PageId, Seq<u8>>::empty());
        r
    }
}

impl DiskManager for DiskManagerMemory {
    closed spec fn pages(&self) -> Map<PageId, Seq<u8>> {
        self.pages@.map_values(|v: Vec<u8>| v@)
    }

    fn write_page(&mut self, page_id: PageId, page_data: &[u8]) {
        let mut v: Vec<u8> = Vec::new();
        let mut i: usize = 0;
        while i < page_data.len()
            invariant
                0 <= i <= page_data@.len(),
                v@ == page_data@.subrange(0, i as int),
            decreases page_data@.len() - i,
        {
            v.push(page_data[i]);
            i += 1;
        }
        assert(v@ =~= page_data@);
        self.pages.insert(page_id, v);
        assert(self.pages() =~= old(self).pages().insert(page_id, page_data@));
    }

    fn read_page(&self, page_id: PageId, page_data: &mut Vec<u8>) {
        match self.pages.get(&page_id) {
            Some(data) => {
                let len = if data.len() < page_data.len() {
                    data.len()
                } else {
                    page_data.len()
                };
                let mut i: usize = 0;
                while i < len
                    invariant
                        0 <= i <= len,
                        len <= data@.len(),
                        len <= page_data@.len(),
                        page_data@.len() == old(page_data)@.len(),
                        forall|j: int| 0 <= j < i ==> page_data@[j] == data@[j],
                        forall|j: int| i <= j < page_data@.len() ==> page_data@[j] == old(page_data)@[j],
                    decreases len - i,
                {
                    page_data.set(i, data[i]);
                    i += 1;
                }
                proof {
                    if data@.len() == page_data@.len() {
                        assert(page_data@ =~= data@);
                    }
                }
            },
            None => {},
        }
    }

    fn increase_disk_space(&mut self, pages: usize) {
    }

    fn delete_page(&mut self, page_id: PageId) {
        self.pages.remove(&page_id);
        assert(self.pages() =~= old(self).pages().remove(page_id));
    }
}

} // verus!

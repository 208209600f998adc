use vstd::prelude::*;
use crate::common::text::{decimal, push_decimal, push_signed_decimal, signed_decimal};
use crate::common::{PageId, INVALID_PAGE_ID};

verus! {

/// Record identifier: the page that holds a tuple and the slot inside it.
#[derive(Debug, Clone, Copy, PartialEq, Eq, Hash)]
pub struct RID {
    page_id: PageId,
    slot_num: u32,
}

/// The packed form of a record identifier: the page id in the upper 32 bits,
/// the slot number in the lower 32 bits.
pub open spec fn packed_rid(page_id: PageId, slot_num: u32) -> int {
    page_id as int * 0x1_0000_0000 + slot_num as int
}

impl RID {
    pub closed spec fn spec_page_id(&self) -> PageId {
        self.page_id
    }

    pub closed spec fn spec_slot_num(&self) -> u32 {
        self.slot_num
    }

    /// Create an invalid RID.
    pub fn new() -> (r: Self)
        ensures
            r.spec_page_id() == INVALID_PAGE_ID,
            r.spec_slot_num() == 0,
    {
        Self { page_id: INVALID_PAGE_ID, slot_num: 0 }
    }

    /// Create a RID from page id and slot number.
    pub fn from_parts(page_id: PageId, slot_num: u32) -> (r: Self)
        ensures
            r.spec_page_id() == page_id,
            r.spec_slot_num() == slot_num,
    {
        Self { page_id, slot_num }
    }

    /// Create a RID from its packed 64-bit form.
    pub fn from_i64(rid: i64) -> (r: Self)
        ensures
            packed_rid(r.spec_page_id(), r.spec_slot_num()) == rid,
    {
        let page_id = (rid >> 32u64) as i32;
        let slot_num = rid as u32;
        assert(page_id as int * 0x1_0000_0000 + slot_num as int == rid as int) by (bit_vector)
            requires
                page_id == (rid >> 32u64) as i32,
                slot_num == rid as u32,
        ;
        Self { page_id, slot_num }
    }

    /// Convert the RID into its packed 64-bit form.
    pub fn get(&self) -> (v: i64)
        ensures
            v == packed_rid(self.spec_page_id(), self.spec_slot_num()),
    {
        let p = self.page_id;
        let s = self.slot_num;
        let v = ((p as i64) << 32u64) | (s as i64);
        assert(v as int == p as int * 0x1_0000_0000 + s as int) by (bit_vector)
            requires
                v == ((p as i64) << 32u64) | (s as i64),
        ;
        v
    }

    /// Get page id.
    pub fn page_id(&self) -> (p: PageId)
        ensures
            p == self.spec_page_id(),
    {
        self.page_id
    }

    /// Get slot number.
    pub fn slot_num(&self) -> (s: u32)
        ensures
            s == self.spec_slot_num(),
    {
        self.slot_num
    }

    /// Update RID fields.
    pub fn set(&mut self, page_id: PageId, slot_num: u32)
        ensures
            final(self).spec_page_id() == page_id,
            final(self).spec_slot_num() == slot_num,
    {
        self.page_id = page_id;
        self.slot_num = slot_num;
    }
}

/// The text of a record identifier: its page and its slot, on a line.
pub open spec fn rid_text(r: RID) -> Seq<char> {
    "page_id: "@ + signed_decimal(r.spec_page_id() as int) + " slot_num: "@ + decimal(r.spec_slot_num() as nat)
        + "\n"@
}

impl RID {
    /// The text of this record identifier.
    pub fn to_string(&self) -> (r: String)
        ensures
            r@ == rid_text(*self),
    {
        let mut r = String::from_str("page_id: ");
        push_signed_decimal(&mut r, self.page_id as i64);
        r.append(" slot_num: ");
        push_decimal(&mut r, self.slot_num as u64);
        r.append("\n");
        r
    }
}

/// Packing is one-to-one: two record identifiers with the same packed form
/// are the same identifier.
pub proof fn lemma_packed_rid_injective(p1: PageId, s1: u32, p2: PageId, s2: u32)
    requires
        packed_rid(p1, s1) == packed_rid(p2, s2),
    ensures
        p1 == p2,
        s1 == s2,
{
}

/// Unpacking the packed form of a record identifier gives the identifier back.
pub proof fn lemma_rid_roundtrip(r: RID, back: RID)
    requires
        packed_rid(back.spec_page_id(), back.spec_slot_num()) == packed_rid(r.spec_page_id(), r.spec_slot_num()),
    ensures
        back == r,
{
    lemma_packed_rid_injective(back.spec_page_id(), back.spec_slot_num(), r.spec_page_id(), r.spec_slot_num());
}

} // verus!

use vstd::prelude::*;

verus! {

/// A segment selector: bits 3 to 15 index a descriptor, bit 2 picks the local
/// descriptor table, and bits 0 and 1 hold the requested privilege level.
#[derive(Clone, Copy, Debug, PartialEq, Eq, Structural)]
pub struct SegmentSelector(pub u16);

impl SegmentSelector {
    /// Index of the descriptor that the selector names.
    pub open spec fn index_spec(self) -> int {
        self.0 as int / 8
    }

    /// Requested privilege level.
    pub open spec fn rpl_spec(self) -> int {
        self.0 as int % 4
    }

    /// The selector names the local descriptor table rather than the global one.
    pub open spec fn local_spec(self) -> bool {
        (self.0 as int / 4) % 2 == 1
    }

    /// A null selector: index 0 of the global table, whatever its privilege level.
    pub open spec fn null_spec(self) -> bool {
        self.0 < 4
    }

    /// Builds the selector of entry `index` of the global table, with privilege level `rpl`.
    pub fn new(index: u16, rpl: u8) -> (r: SegmentSelector)
        requires
            index < 8192,
            rpl < 4,
        ensures
            r.0 == index * 8 + rpl,
            r.index_spec() == index,
            r.rpl_spec() == rpl,
            !r.local_spec(),
    {
        SegmentSelector(index * 8 + rpl as u16)
    }

    pub fn index(&self) -> (r: u16)
        ensures
            r == self.index_spec(),
    {
        self.0 / 8
    }

    pub fn rpl(&self) -> (r: u8)
        ensures
            r == self.rpl_spec(),
    {
        (self.0 % 4) as u8
    }

    pub fn is_local(&self) -> (r: bool)
        ensures
            r == self.local_spec(),
    {
        (self.0 / 4) % 2 == 1
    }

    pub fn is_null(&self) -> (r: bool)
        ensures
            r == self.null_spec(),
    {
        self.0 < 4
    }
}

/// Base address and limit of a descriptor table, as `lgdt` and `lidt` read
/// them. The limit is the size of the table in bytes, minus one.
#[derive(Clone, Copy, Debug, PartialEq, Eq, Structural)]
pub struct DescriptorTablePointer {
    pub limit: u16,
    pub base: u64,
}

impl DescriptorTablePointer {
    /// The `size` bytes that start at byte `offset` of the table lie within its limit.
    pub open spec fn holds_spec(self, offset: int, size: int) -> bool {
        offset + size - 1 <= self.limit
    }

    /// `words` holds the whole table, 8 bytes to a word, from the base on.
    pub open spec fn spans(self, words: Seq<u64>) -> bool {
        self.limit < words.len() * 8
    }

    pub fn holds(&self, offset: u32, size: u32) -> (r: bool)
        requires
            1 <= size,
            offset + size <= u32::MAX,
        ensures
            r == self.holds_spec(offset as int, size as int),
    {
        offset + size - 1 <= self.limit as u32
    }
}

} // verus!

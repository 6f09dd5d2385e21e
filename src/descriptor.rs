use vstd::prelude::*;

verus! {

/// Bit 41 of a descriptor word: the busy flag of a task-state descriptor.
pub const BUSY_FLAG: u64 = 0x200_0000_0000;

/// One 8-byte word of a descriptor table. The processor reads the access byte,
/// bits 40 to 47, when a selector is loaded: present flag (bit 7 of the byte),
/// privilege level (bits 5 and 6), code-or-data flag (bit 4) and type (bits 0 to 3).
#[derive(Clone, Copy, Debug, PartialEq, Eq, Structural)]
pub struct Descriptor(pub u64);

impl Descriptor {
    pub open spec fn access_spec(self) -> u64 {
        (self.0 / 0x100_0000_0000) % 0x100
    }

    pub open spec fn present_spec(self) -> bool {
        self.access_spec() >= 0x80
    }

    pub open spec fn dpl_spec(self) -> int {
        (self.access_spec() / 0x20 % 4) as int
    }

    /// A code or data segment, as opposed to a system descriptor.
    pub open spec fn segment_spec(self) -> bool {
        self.access_spec() / 0x10 % 2 == 1
    }

    pub open spec fn type_spec(self) -> u64 {
        self.access_spec() % 0x10
    }

    pub open spec fn code_spec(self) -> bool {
        self.segment_spec() && self.type_spec() >= 8
    }

    pub open spec fn data_spec(self) -> bool {
        self.segment_spec() && self.type_spec() < 8
    }

    /// Readable for a code segment, writable for a data segment.
    pub open spec fn rw_spec(self) -> bool {
        self.type_spec() / 2 % 2 == 1
    }

    pub open spec fn conforming_spec(self) -> bool {
        self.code_spec() && self.type_spec() / 4 % 2 == 1
    }

    /// An available 64-bit task-state segment.
    pub open spec fn available_tss_spec(self) -> bool {
        !self.segment_spec() && self.type_spec() == 9
    }

    /// A busy 64-bit task-state segment.
    pub open spec fn busy_tss_spec(self) -> bool {
        !self.segment_spec() && self.type_spec() == 11
    }

    /// The 32-bit segment base: bits 16 to 39 of the word hold its bits 0 to
    /// 23, and bits 56 to 63 its bits 24 to 31.
    pub open spec fn base_spec(self) -> u64 {
        (self.0 / 0x1_0000 % 0x100_0000 + self.0 / 0x100_0000_0000_0000 * 0x100_0000) as u64
    }

    /// The word with its busy flag set, as `ltr` writes it back.
    pub open spec fn marked_busy_spec(self) -> Descriptor {
        if self.0 / BUSY_FLAG % 2 == 0 {
            Descriptor((self.0 + BUSY_FLAG) as u64)
        } else {
            self
        }
    }

    pub fn access(&self) -> (r: u64)
        ensures
            r == self.access_spec(),
    {
        (self.0 / 0x100_0000_0000) % 0x100
    }

    pub fn is_present(&self) -> (r: bool)
        ensures
            r == self.present_spec(),
    {
        self.access() >= 0x80
    }

    pub fn dpl(&self) -> (r: u8)
        ensures
            r == self.dpl_spec(),
    {
        (self.access() / 0x20 % 4) as u8
    }

    pub fn is_code(&self) -> (r: bool)
        ensures
            r == self.code_spec(),
    {
        let a = self.access();
        a / 0x10 % 2 == 1 && a % 0x10 >= 8
    }

    pub fn is_data(&self) -> (r: bool)
        ensures
            r == self.data_spec(),
    {
        let a = self.access();
        a / 0x10 % 2 == 1 && a % 0x10 < 8
    }

    pub fn is_rw(&self) -> (r: bool)
        ensures
            r == self.rw_spec(),
    {
        self.access() % 0x10 / 2 % 2 == 1
    }

    pub fn is_conforming(&self) -> (r: bool)
        ensures
            r == self.conforming_spec(),
    {
        self.is_code() && self.access() % 0x10 / 4 % 2 == 1
    }

    pub fn is_available_tss(&self) -> (r: bool)
        ensures
            r == self.available_tss_spec(),
    {
        let a = self.access();
        a / 0x10 % 2 == 0 && a % 0x10 == 9
    }

    pub fn is_busy_tss(&self) -> (r: bool)
        ensures
            r == self.busy_tss_spec(),
    {
        let a = self.access();
        a / 0x10 % 2 == 0 && a % 0x10 == 11
    }

    pub fn base(&self) -> (r: u64)
        ensures
            r == self.base_spec(),
    {
        let w = self.0;
        let low = w / 0x1_0000 % 0x100_0000;
        let high = w / 0x100_0000_0000_0000;
        assert(w / 0x100_0000_0000_0000u64 < 0x100) by (bit_vector);
        assert(high * 0x100_0000 < 0x1_0000_0000) by (nonlinear_arith)
            requires
                high < 0x100,
        ;
        low + high * 0x100_0000
    }

    pub fn marked_busy(&self) -> (r: Descriptor)
        ensures
            r == self.marked_busy_spec(),
    {
        let w = self.0;
        assert(w / 0x200_0000_0000u64 % 2 == 0 ==> w | 0x200_0000_0000u64 == w + 0x200_0000_0000u64)
            by (bit_vector);
        assert(w / 0x200_0000_0000u64 % 2 == 1 ==> w | 0x200_0000_0000u64 == w) by (bit_vector);
        Descriptor(w | BUSY_FLAG)
    }
}

/// Setting the busy flag turns an available task-state descriptor into a busy
/// one and keeps its present flag and privilege level.
pub proof fn lemma_marked_busy(d: Descriptor)
    requires
        d.available_tss_spec(),
    ensures
        d.marked_busy_spec().busy_tss_spec(),
        !d.marked_busy_spec().available_tss_spec(),
        d.marked_busy_spec().present_spec() == d.present_spec(),
        d.marked_busy_spec().dpl_spec() == d.dpl_spec(),
{
    let w = d.0;
    assert(((w / 0x100_0000_0000) % 0x100 % 0x10 == 9) ==> (w / 0x200_0000_0000 % 2 == 0 && w
        + 0x200_0000_0000 <= u64::MAX && (w + 0x200_0000_0000) / 0x100_0000_0000 % 0x100 == (w
        / 0x100_0000_0000) % 0x100 + 2)) by (bit_vector);
}

} // verus!

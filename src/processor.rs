use vstd::prelude::*;

use crate::descriptor::Descriptor;
use crate::structures::{DescriptorTablePointer, SegmentSelector};

verus! {

/// The exception that an instruction raises instead of completing.
#[derive(Clone, Copy, Debug, PartialEq, Eq, Structural)]
pub enum Fault {
    /// General-protection exception (#GP).
    GeneralProtection,
    /// Segment-not-present exception (#NP).
    NotPresent,
    /// Stack-segment exception (#SS).
    StackSegment,
}

/// The outcome of an instruction whose checks gave `f`.
pub open spec fn outcome(f: Option<Fault>) -> Result<(), Fault> {
    match f {
        Some(f) => Err(f),
        None => Ok(()),
    }
}

/// Address `offset` bytes past `base`, wrapping round the 64-bit address space.
pub open spec fn address_at(base: u64, offset: int) -> u64 {
    ((base + offset) % 0x1_0000_0000_0000_0000) as u64
}

/// The state that segment and table instructions read and change on one core
/// in 64-bit mode: the six segment registers, the task register, the two GS
/// bases that `swapgs` exchanges, and the two table registers.
///
/// The descriptor tables themselves live in memory that the caller owns; an
/// operation that reads the global table takes its words, from the base on.
/// An operation that faults leaves everything as it was. The current privilege
/// level is the requested privilege level of the code segment selector.
///
/// The modelled core has no local descriptor table loaded, so a selector that
/// names the local table faults. Segment descriptors are taken to have their
/// accessed flag (bit 40) set already, so loading a segment register writes
/// nothing to the table.
#[derive(Clone, Copy, Debug, PartialEq, Eq, Structural)]
pub struct Processor {
    pub cs: SegmentSelector,
    pub ss: SegmentSelector,
    pub ds: SegmentSelector,
    pub es: SegmentSelector,
    pub fs: SegmentSelector,
    pub gs: SegmentSelector,
    pub tr: SegmentSelector,
    pub gs_base: u64,
    pub kernel_gs_base: u64,
    pub gdtr: DescriptorTablePointer,
    pub idtr: DescriptorTablePointer,
}

impl Processor {
    pub open spec fn cpl_spec(self) -> int {
        self.cs.rpl_spec()
    }

    /// The descriptor that `sel` names, where it names an entry of the global
    /// table that lies within the table's limit.
    pub open spec fn entry_spec(self, gdt: Seq<u64>, sel: SegmentSelector) -> Option<Descriptor> {
        if !sel.local_spec() && self.gdtr.holds_spec(sel.index_spec() * 8, 8) {
            Some(Descriptor(gdt[sel.index_spec()]))
        } else {
            None
        }
    }

    /// What loading `sel` into DS, ES, FS or GS raises, if anything. A null
    /// selector loads; otherwise it must name a data segment or a readable code
    /// segment, at a privilege level that the selector and the code may use.
    pub open spec fn data_fault(self, gdt: Seq<u64>, sel: SegmentSelector) -> Option<Fault> {
        if sel.null_spec() {
            None
        } else {
            match self.entry_spec(gdt, sel) {
                None => Some(Fault::GeneralProtection),
                Some(d) => if !(d.data_spec() || (d.code_spec() && d.rw_spec())) {
                    Some(Fault::GeneralProtection)
                } else if !d.conforming_spec() && (sel.rpl_spec() > d.dpl_spec()
                    || self.cpl_spec() > d.dpl_spec()) {
                    Some(Fault::GeneralProtection)
                } else if !d.present_spec() {
                    Some(Fault::NotPresent)
                } else {
                    None
                },
            }
        }
    }

    /// What loading `sel` into SS raises, if anything. A null selector loads
    /// only below privilege level 3 and with the current privilege level as
    /// its own; any other must name a writable data segment of the current
    /// privilege level.
    pub open spec fn stack_fault(self, gdt: Seq<u64>, sel: SegmentSelector) -> Option<Fault> {
        if sel.null_spec() {
            if self.cpl_spec() < 3 && sel.rpl_spec() == self.cpl_spec() {
                None
            } else {
                Some(Fault::GeneralProtection)
            }
        } else {
            match self.entry_spec(gdt, sel) {
                None => Some(Fault::GeneralProtection),
                Some(d) => if sel.rpl_spec() != self.cpl_spec() || !d.data_spec() || !d.rw_spec()
                    || d.dpl_spec() != self.cpl_spec() {
                    Some(Fault::GeneralProtection)
                } else if !d.present_spec() {
                    Some(Fault::StackSegment)
                } else {
                    None
                },
            }
        }
    }

    /// What the far return of a code segment reload to `sel` raises, if
    /// anything. The selector must name a code segment at the current privilege
    /// level: a change of level would pop a stack pointer that the reload never
    /// pushed.
    pub open spec fn code_fault(self, gdt: Seq<u64>, sel: SegmentSelector) -> Option<Fault> {
        if sel.null_spec() {
            Some(Fault::GeneralProtection)
        } else {
            match self.entry_spec(gdt, sel) {
                None => Some(Fault::GeneralProtection),
                Some(d) => if !d.code_spec() || sel.rpl_spec() != self.cpl_spec() {
                    Some(Fault::GeneralProtection)
                } else if (d.conforming_spec() && d.dpl_spec() > sel.rpl_spec()) || (
                !d.conforming_spec() && d.dpl_spec() != sel.rpl_spec()) {
                    Some(Fault::GeneralProtection)
                } else if !d.present_spec() {
                    Some(Fault::NotPresent)
                } else {
                    None
                },
            }
        }
    }

    /// What `ltr` with `sel` raises, if anything. It runs at privilege level 0
    /// only, and `sel` must name an available task-state descriptor whose two
    /// words lie within the global table.
    pub open spec fn tss_fault(self, gdt: Seq<u64>, sel: SegmentSelector) -> Option<Fault> {
        if self.cpl_spec() != 0 || sel.null_spec() {
            Some(Fault::GeneralProtection)
        } else {
            match self.entry_spec(gdt, sel) {
                None => Some(Fault::GeneralProtection),
                Some(d) => if !self.gdtr.holds_spec(sel.index_spec() * 8, 16)
                    || !d.available_tss_spec() {
                    Some(Fault::GeneralProtection)
                } else if !d.present_spec() {
                    Some(Fault::NotPresent)
                } else {
                    None
                },
            }
        }
    }

    /// The state after a code segment reload to `sel`.
    pub open spec fn after_set_cs(self, gdt: Seq<u64>, sel: SegmentSelector) -> Processor {
        if self.code_fault(gdt, sel) is None {
            Processor { cs: sel, ..self }
        } else {
            self
        }
    }

    /// The state after `ltr` with `sel`.
    pub open spec fn after_load_tss(self, gdt: Seq<u64>, sel: SegmentSelector) -> Processor {
        if self.tss_fault(gdt, sel) is None {
            Processor { tr: sel, ..self }
        } else {
            self
        }
    }

    /// The words of the global table after `ltr` with `sel`: the descriptor
    /// that it loads is marked busy.
    pub open spec fn table_after_load_tss(self, gdt: Seq<u64>, sel: SegmentSelector) -> Seq<u64> {
        if self.tss_fault(gdt, sel) is None {
            gdt.update(sel.index_spec(), Descriptor(gdt[sel.index_spec()]).marked_busy_spec().0)
        } else {
            gdt
        }
    }

    /// What an instruction that runs at privilege level 0 only raises, if anything.
    pub open spec fn privileged_fault(self) -> Option<Fault> {
        if self.cpl_spec() == 0 {
            None
        } else {
            Some(Fault::GeneralProtection)
        }
    }

    /// Where interrupt `vector` finds its gate descriptor in the loaded
    /// interrupt table, 16 bytes to a gate; a fault where that gate lies past
    /// the table's limit.
    pub open spec fn gate_spec(self, vector: u8) -> Result<u64, Fault> {
        if self.idtr.holds_spec(vector * 16, 16) {
            Ok(address_at(self.idtr.base, vector * 16))
        } else {
            Err(Fault::GeneralProtection)
        }
    }
}

impl Processor {
    /// The current privilege level.
    pub fn cpl(&self) -> (r: u8)
        ensures
            r == self.cpl_spec(),
    {
        self.cs.rpl()
    }

    fn entry(&self, gdt: &Vec<u64>, sel: SegmentSelector) -> (r: Option<Descriptor>)
        requires
            self.gdtr.spans(gdt@),
        ensures
            r == self.entry_spec(gdt@, sel),
    {
        if sel.is_local() {
            return None;
        }
        let index = sel.index();
        if !self.gdtr.holds(index as u32 * 8, 8) {
            return None;
        }
        Some(Descriptor(gdt[index as usize]))
    }

    fn check_data(&self, gdt: &Vec<u64>, sel: SegmentSelector) -> (r: Option<Fault>)
        requires
            self.gdtr.spans(gdt@),
        ensures
            r == self.data_fault(gdt@, sel),
    {
        if sel.is_null() {
            return None;
        }
        match self.entry(gdt, sel) {
            None => Some(Fault::GeneralProtection),
            Some(d) => {
                if !(d.is_data() || (d.is_code() && d.is_rw())) {
                    Some(Fault::GeneralProtection)
                } else if !d.is_conforming() && (sel.rpl() > d.dpl() || self.cpl() > d.dpl()) {
                    Some(Fault::GeneralProtection)
                } else if !d.is_present() {
                    Some(Fault::NotPresent)
                } else {
                    None
                }
            },
        }
    }

    fn check_stack(&self, gdt: &Vec<u64>, sel: SegmentSelector) -> (r: Option<Fault>)
        requires
            self.gdtr.spans(gdt@),
        ensures
            r == self.stack_fault(gdt@, sel),
    {
        let cpl = self.cpl();
        if sel.is_null() {
            return if cpl < 3 && sel.rpl() == cpl {
                None
            } else {
                Some(Fault::GeneralProtection)
            };
        }
        match self.entry(gdt, sel) {
            None => Some(Fault::GeneralProtection),
            Some(d) => {
                if sel.rpl() != cpl || !d.is_data() || !d.is_rw() || d.dpl() != cpl {
                    Some(Fault::GeneralProtection)
                } else if !d.is_present() {
                    Some(Fault::StackSegment)
                } else {
                    None
                }
            },
        }
    }

    fn check_code(&self, gdt: &Vec<u64>, sel: SegmentSelector) -> (r: Option<Fault>)
        requires
            self.gdtr.spans(gdt@),
        ensures
            r == self.code_fault(gdt@, sel),
    {
        if sel.is_null() {
            return Some(Fault::GeneralProtection);
        }
        match self.entry(gdt, sel) {
            None => Some(Fault::GeneralProtection),
            Some(d) => {
                let rpl = sel.rpl();
                if !d.is_code() || rpl != self.cpl() {
                    Some(Fault::GeneralProtection)
                } else if (d.is_conforming() && d.dpl() > rpl) || (!d.is_conforming() && d.dpl()
                    != rpl) {
                    Some(Fault::GeneralProtection)
                } else if !d.is_present() {
                    Some(Fault::NotPresent)
                } else {
                    None
                }
            },
        }
    }

    fn check_tss(&self, gdt: &Vec<u64>, sel: SegmentSelector) -> (r: Option<Fault>)
        requires
            self.gdtr.spans(gdt@),
        ensures
            r == self.tss_fault(gdt@, sel),
    {
        if self.cpl() != 0 || sel.is_null() {
            return Some(Fault::GeneralProtection);
        }
        match self.entry(gdt, sel) {
            None => Some(Fault::GeneralProtection),
            Some(d) => {
                if !self.gdtr.holds(sel.index() as u32 * 8, 16) || !d.is_available_tss() {
                    Some(Fault::GeneralProtection)
                } else if !d.is_present() {
                    Some(Fault::NotPresent)
                } else {
                    None
                }
            },
        }
    }

    fn check_privileged(&self) -> (r: Option<Fault>)
        ensures
            r == self.privileged_fault(),
    {
        if self.cpl() == 0 {
            None
        } else {
            Some(Fault::GeneralProtection)
        }
    }

    /// Reloads the code segment register by a far return to the next
    /// instruction, which takes the new selector and instruction pointer in
    /// one step.
    pub fn set_cs(&mut self, sel: SegmentSelector, gdt: &Vec<u64>) -> (r: Result<(), Fault>)
        requires
            old(self).gdtr.spans(gdt@),
        ensures
            r == outcome(old(self).code_fault(gdt@, sel)),
            *final(self) == old(self).after_set_cs(gdt@, sel),
    {
        match self.check_code(gdt, sel) {
            Some(f) => Err(f),
            None => {
                self.cs = sel;
                Ok(())
            },
        }
    }

    /// Reloads the stack segment register.
    pub fn load_ss(&mut self, sel: SegmentSelector, gdt: &Vec<u64>) -> (r: Result<(), Fault>)
        requires
            old(self).gdtr.spans(gdt@),
        ensures
            r == outcome(old(self).stack_fault(gdt@, sel)),
            *final(self) == (if r is Ok {
                Processor { ss: sel, ..*old(self) }
            } else {
                *old(self)
            }),
    {
        match self.check_stack(gdt, sel) {
            Some(f) => Err(f),
            None => {
                self.ss = sel;
                Ok(())
            },
        }
    }

    /// Reloads the data segment register.
    pub fn load_ds(&mut self, sel: SegmentSelector, gdt: &Vec<u64>) -> (r: Result<(), Fault>)
        requires
            old(self).gdtr.spans(gdt@),
        ensures
            r == outcome(old(self).data_fault(gdt@, sel)),
            *final(self) == (if r is Ok {
                Processor { ds: sel, ..*old(self) }
            } else {
                *old(self)
            }),
    {
        match self.check_data(gdt, sel) {
            Some(f) => Err(f),
            None => {
                self.ds = sel;
                Ok(())
            },
        }
    }

    /// Reloads the ES segment register.
    pub fn load_es(&mut self, sel: SegmentSelector, gdt: &Vec<u64>) -> (r: Result<(), Fault>)
        requires
            old(self).gdtr.spans(gdt@),
        ensures
            r == outcome(old(self).data_fault(gdt@, sel)),
            *final(self) == (if r is Ok {
                Processor { es: sel, ..*old(self) }
            } else {
                *old(self)
            }),
    {
        match self.check_data(gdt, sel) {
            Some(f) => Err(f),
            None => {
                self.es = sel;
                Ok(())
            },
        }
    }

    /// Reloads the FS segment register.
    pub fn load_fs(&mut self, sel: SegmentSelector, gdt: &Vec<u64>) -> (r: Result<(), Fault>)
        requires
            old(self).gdtr.spans(gdt@),
        ensures
            r == outcome(old(self).data_fault(gdt@, sel)),
            *final(self) == (if r is Ok {
                Processor { fs: sel, ..*old(self) }
            } else {
                *old(self)
            }),
    {
        match self.check_data(gdt, sel) {
            Some(f) => Err(f),
            None => {
                self.fs = sel;
                Ok(())
            },
        }
    }

    /// Reloads the GS segment register. A non-null selector also loads the
    /// GS base with the 32-bit base of its descriptor; a null one either keeps
    /// the GS base or clears it, as processors differ on that.
    pub fn load_gs(&mut self, sel: SegmentSelector, gdt: &Vec<u64>) -> (r: Result<(), Fault>)
        requires
            old(self).gdtr.spans(gdt@),
        ensures
            r == outcome(old(self).data_fault(gdt@, sel)),
            r is Err ==> *final(self) == *old(self),
            r is Ok ==> *final(self) == (Processor {
                gs: sel,
                gs_base: final(self).gs_base,
                ..*old(self)
            }),
            r is Ok && !sel.null_spec() ==> final(self).gs_base == Descriptor(
                gdt@[sel.index_spec()],
            ).base_spec(),
            r is Ok && sel.null_spec() ==> final(self).gs_base == old(self).gs_base
                || final(self).gs_base == 0,
    {
        match self.check_data(gdt, sel) {
            Some(f) => Err(f),
            None => {
                if !sel.is_null() {
                    self.gs_base = Descriptor(gdt[sel.index() as usize]).base();
                }
                self.gs = sel;
                Ok(())
            },
        }
    }

    /// Exchanges the GS base with the kernel GS base (`swapgs`).
    pub fn swap_gs(&mut self) -> (r: Result<(), Fault>)
        ensures
            r == outcome(old(self).privileged_fault()),
            *final(self) == (if r is Ok {
                Processor {
                    gs_base: old(self).kernel_gs_base,
                    kernel_gs_base: old(self).gs_base,
                    ..*old(self)
                }
            } else {
                *old(self)
            }),
    {
        match self.check_privileged() {
            Some(f) => Err(f),
            None => {
                let base = self.gs_base;
                self.gs_base = self.kernel_gs_base;
                self.kernel_gs_base = base;
                Ok(())
            },
        }
    }

    /// The current code segment selector. Reading it never faults.
    pub fn cs(&self) -> (r: SegmentSelector)
        ensures
            r == self.cs,
    {
        self.cs
    }

    /// Loads the global descriptor table register (`lgdt`).
    pub fn lgdt(&mut self, gdt: &DescriptorTablePointer) -> (r: Result<(), Fault>)
        ensures
            r == outcome(old(self).privileged_fault()),
            *final(self) == (if r is Ok {
                Processor { gdtr: *gdt, ..*old(self) }
            } else {
                *old(self)
            }),
    {
        match self.check_privileged() {
            Some(f) => Err(f),
            None => {
                self.gdtr = *gdt;
                Ok(())
            },
        }
    }

    /// Loads the interrupt descriptor table register (`lidt`).
    pub fn lidt(&mut self, idt: &DescriptorTablePointer) -> (r: Result<(), Fault>)
        ensures
            r == outcome(old(self).privileged_fault()),
            *final(self) == (if r is Ok {
                Processor { idtr: *idt, ..*old(self) }
            } else {
                *old(self)
            }),
    {
        match self.check_privileged() {
            Some(f) => Err(f),
            None => {
                self.idtr = *idt;
                Ok(())
            },
        }
    }

    /// Loads the task register (`ltr`), which marks the task-state descriptor
    /// that `sel` names as busy in the global table.
    pub fn load_tss(&mut self, sel: SegmentSelector, gdt: &mut Vec<u64>) -> (r: Result<(), Fault>)
        requires
            old(self).gdtr.spans(old(gdt)@),
        ensures
            r == outcome(old(self).tss_fault(old(gdt)@, sel)),
            *final(self) == old(self).after_load_tss(old(gdt)@, sel),
            final(gdt)@ == old(self).table_after_load_tss(old(gdt)@, sel),
    {
        match self.check_tss(gdt, sel) {
            Some(f) => Err(f),
            None => {
                let index = sel.index() as usize;
                let busy = Descriptor(gdt[index]).marked_busy();
                gdt[index] = busy.0;
                self.tr = sel;
                Ok(())
            },
        }
    }

    /// Address of the descriptor of interrupt gate `vector`, through which that interrupt is
    /// dispatched, or the fault raised where that descriptor lies past the
    /// limit of the interrupt table.
    pub fn gate_address(&self, vector: u8) -> (r: Result<u64, Fault>)
        ensures
            r == self.gate_spec(vector),
    {
        let offset = vector as u32 * 16;
        if self.idtr.holds(offset, 16) {
            Ok(self.idtr.base.wrapping_add(offset as u64))
        } else {
            Err(Fault::GeneralProtection)
        }
    }
}

} // verus!

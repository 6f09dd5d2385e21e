use vstd::prelude::*;

use crate::descriptor::{lemma_marked_busy, Descriptor};
use crate::processor::{address_at, outcome, Fault, Processor};
use crate::structures::{DescriptorTablePointer, SegmentSelector};

verus! {

/// Reloading the code segment with a selector of a present code segment of
/// the global table, at the current privilege level, succeeds, and the code
/// segment read afterwards is that selector.
pub proof fn lemma_code_reload_reads_back(p: Processor, gdt: Seq<u64>, sel: SegmentSelector)
    requires
        p.gdtr.spans(gdt),
        !sel.null_spec(),
        !sel.local_spec(),
        p.gdtr.holds_spec(sel.index_spec() * 8, 8),
        Descriptor(gdt[sel.index_spec()]).code_spec(),
        Descriptor(gdt[sel.index_spec()]).present_spec(),
        sel.rpl_spec() == p.cpl_spec(),
        Descriptor(gdt[sel.index_spec()]).conforming_spec() ==> Descriptor(
            gdt[sel.index_spec()],
        ).dpl_spec() <= sel.rpl_spec(),
        !Descriptor(gdt[sel.index_spec()]).conforming_spec() ==> Descriptor(
            gdt[sel.index_spec()],
        ).dpl_spec() == sel.rpl_spec(),
    ensures
        outcome(p.code_fault(gdt, sel)) == Ok::<(), Fault>(()),
        p.after_set_cs(gdt, sel).cs == sel,
{
}

/// After a new global table is loaded at privilege level 0, a data segment
/// selector that names a present, usable data segment of the new table loads
/// without fault, and a selector whose entry lies past the new limit faults.
/// A null selector is left out of the second half: it loads whatever the limit.
pub proof fn lemma_load_data_after_lgdt(
    p: Processor,
    table: DescriptorTablePointer,
    gdt: Seq<u64>,
    sel: SegmentSelector,
    far: SegmentSelector,
)
    requires
        p.cpl_spec() == 0,
        table.spans(gdt),
        !sel.null_spec(),
        !sel.local_spec(),
        table.holds_spec(sel.index_spec() * 8, 8),
        Descriptor(gdt[sel.index_spec()]).data_spec(),
        Descriptor(gdt[sel.index_spec()]).present_spec(),
        sel.rpl_spec() <= Descriptor(gdt[sel.index_spec()]).dpl_spec(),
        !far.null_spec(),
        !table.holds_spec(far.index_spec() * 8, 8),
    ensures
        outcome(p.privileged_fault()) == Ok::<(), Fault>(()),
        outcome((Processor { gdtr: table, ..p }).data_fault(gdt, sel)) == Ok::<(), Fault>(()),
        outcome((Processor { gdtr: table, ..p }).data_fault(gdt, far)) == Err::<(), Fault>(
            Fault::GeneralProtection,
        ),
{
}

/// Two swaps of the GS bases in succession give back the state before them,
/// whether the swaps are allowed or fault.
pub proof fn lemma_swap_gs_twice(p: Processor)
    ensures
        ({
            let q = Processor { gs_base: p.kernel_gs_base, kernel_gs_base: p.gs_base, ..p };
            &&& q.privileged_fault() == p.privileged_fault()
            &&& Processor { gs_base: q.kernel_gs_base, kernel_gs_base: q.gs_base, ..q } == p
        }),
{
}

/// After a new interrupt table is loaded at privilege level 0, interrupt
/// `vector` is dispatched through gate `vector` of the new table where that
/// gate lies within its limit, and faults where it does not.
pub proof fn lemma_gate_of_new_idt(p: Processor, table: DescriptorTablePointer, vector: u8)
    requires
        p.cpl_spec() == 0,
    ensures
        outcome(p.privileged_fault()) == Ok::<(), Fault>(()),
        vector * 16 + 15 <= table.limit ==> (Processor { idtr: table, ..p }).gate_spec(vector)
            == Ok::<u64, Fault>(address_at(table.base, vector * 16)),
        vector * 16 + 15 > table.limit ==> (Processor { idtr: table, ..p }).gate_spec(vector)
            == Err::<u64, Fault>(Fault::GeneralProtection),
{
}

/// Loading the task register with a selector whose descriptor is marked busy
/// faults. With a present, available task-state descriptor at privilege level
/// 0 it succeeds: the task register then holds the selector and the
/// descriptor is busy, so that loading it again faults.
pub proof fn lemma_load_tss_busy_and_available(p: Processor, gdt: Seq<u64>, sel: SegmentSelector)
    requires
        p.gdtr.spans(gdt),
        0 <= sel.index_spec() < gdt.len(),
    ensures
        Descriptor(gdt[sel.index_spec()]).busy_tss_spec() ==> outcome(p.tss_fault(gdt, sel))
            == Err::<(), Fault>(Fault::GeneralProtection),
        ({
            let d = Descriptor(gdt[sel.index_spec()]);
            let busy = p.table_after_load_tss(gdt, sel);
            let q = p.after_load_tss(gdt, sel);
            (p.cpl_spec() == 0 && !sel.null_spec() && !sel.local_spec() && p.gdtr.holds_spec(
                sel.index_spec() * 8,
                16,
            ) && d.available_tss_spec() && d.present_spec()) ==> {
                &&& outcome(p.tss_fault(gdt, sel)) == Ok::<(), Fault>(())
                &&& q.tr == sel
                &&& Descriptor(busy[sel.index_spec()]).busy_tss_spec()
                &&& outcome(q.tss_fault(busy, sel)) == Err::<(), Fault>(Fault::GeneralProtection)
            }
        }),
{
    let d = Descriptor(gdt[sel.index_spec()]);
    if d.available_tss_spec() {
        lemma_marked_busy(d);
    }
}

} // verus!

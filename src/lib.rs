//! Segment registers and descriptor tables of an x86-64 core.
//!
//! The types describe what the instructions take: a segment selector and a
//! descriptor-table pointer. `Processor` states, as verified executable code,
//! what each instruction does to the architectural state of the core that
//! issues it and when it faults instead.

mod descriptor;
mod laws;
mod processor;
mod structures;

pub use descriptor::Descriptor;
pub use laws::{
    lemma_code_reload_reads_back, lemma_gate_of_new_idt, lemma_load_data_after_lgdt,
    lemma_load_tss_busy_and_available, lemma_swap_gs_twice,
};
pub use processor::{Fault, Processor};
pub use structures::{DescriptorTablePointer, SegmentSelector};

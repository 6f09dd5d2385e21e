use x86_segmentation::{DescriptorTablePointer, Fault, Processor, SegmentSelector};

const NULL_WORD: u64 = 0;
const KERNEL_CODE: u64 = 0x00af_9a00_0000_ffff;
const KERNEL_DATA: u64 = 0x00cf_9200_0000_ffff;
const USER_CODE: u64 = 0x00af_fa00_0000_ffff;
const USER_DATA: u64 = 0x00cf_f200_0000_ffff;
const ABSENT_DATA: u64 = 0x00cf_1200_0000_ffff;
const CONFORMING_CODE: u64 = 0x00af_9e00_0000_ffff;

fn table() -> Vec<u64> {
    vec![NULL_WORD, KERNEL_CODE, KERNEL_DATA, USER_CODE, USER_DATA, ABSENT_DATA, CONFORMING_CODE]
}

fn gdt_pointer(words: &Vec<u64>) -> DescriptorTablePointer {
    DescriptorTablePointer { limit: (words.len() * 8 - 1) as u16, base: 0x10_0000 }
}

fn boot(cs: SegmentSelector, gdtr: DescriptorTablePointer) -> Processor {
    let null = SegmentSelector(0);
    Processor {
        cs,
        ss: null,
        ds: null,
        es: null,
        fs: null,
        gs: null,
        tr: null,
        gs_base: 0x7000,
        kernel_gs_base: 0xffff_8000_0000_0000,
        gdtr,
        idtr: DescriptorTablePointer { limit: 0, base: 0 },
    }
}

#[test]
fn selector_fields() {
    let s = SegmentSelector::new(5, 3);
    assert_eq!(s.0, 0x2b);
    assert_eq!(s.index(), 5);
    assert_eq!(s.rpl(), 3);
    assert!(!s.is_local());
    assert!(!s.is_null());
    assert!(SegmentSelector(3).is_null());
    assert!(SegmentSelector(0x0c).is_local());
}

#[test]
fn set_cs_then_cs_reads_selector() {
    let gdt = table();
    let mut p = boot(SegmentSelector::new(1, 0), gdt_pointer(&gdt));
    let target = SegmentSelector::new(6, 0);
    assert_eq!(p.set_cs(target, &gdt), Ok(()));
    assert_eq!(p.cs(), target);
    assert_eq!(p.set_cs(SegmentSelector::new(1, 0), &gdt), Ok(()));
    assert_eq!(p.cs(), SegmentSelector(8));
}

#[test]
fn set_cs_faults_and_keeps_state() {
    let gdt = table();
    let mut p = boot(SegmentSelector::new(1, 0), gdt_pointer(&gdt));
    let before = p;
    assert_eq!(p.set_cs(SegmentSelector(0), &gdt), Err(Fault::GeneralProtection));
    assert_eq!(p.set_cs(SegmentSelector::new(2, 0), &gdt), Err(Fault::GeneralProtection));
    assert_eq!(p.set_cs(SegmentSelector::new(3, 3), &gdt), Err(Fault::GeneralProtection));
    assert_eq!(p.set_cs(SegmentSelector::new(3, 0), &gdt), Err(Fault::GeneralProtection));
    assert_eq!(p.set_cs(SegmentSelector::new(7, 0), &gdt), Err(Fault::GeneralProtection));
    assert_eq!(p, before);
}

#[test]
fn cs_after_startup_is_bootstrap_selector() {
    let gdt = table();
    let p = boot(SegmentSelector(0x08), gdt_pointer(&gdt));
    assert_eq!(p.cs(), SegmentSelector(0x08));
    assert_eq!(p.cpl(), 0);
}

#[test]
fn load_data_registers() {
    let gdt = table();
    let mut p = boot(SegmentSelector::new(1, 0), gdt_pointer(&gdt));
    let data = SegmentSelector::new(2, 0);
    assert_eq!(p.load_ds(data, &gdt), Ok(()));
    assert_eq!(p.load_es(data, &gdt), Ok(()));
    assert_eq!(p.load_fs(SegmentSelector::new(4, 3), &gdt), Ok(()));
    assert_eq!(p.load_gs(SegmentSelector::new(1, 0), &gdt), Ok(()));
    assert_eq!(p.ds, data);
    assert_eq!(p.es, data);
    assert_eq!(p.fs, SegmentSelector(0x23));
    assert_eq!(p.gs, SegmentSelector(0x08));
    assert_eq!(p.load_ds(SegmentSelector(0), &gdt), Ok(()));
    assert_eq!(p.ds, SegmentSelector(0));
}

#[test]
fn load_data_faults() {
    let gdt = table();
    let mut p = boot(SegmentSelector::new(3, 3), gdt_pointer(&gdt));
    let before = p;
    assert_eq!(p.load_ds(SegmentSelector::new(2, 0), &gdt), Err(Fault::GeneralProtection));
    assert_eq!(p.load_es(SegmentSelector::new(9, 3), &gdt), Err(Fault::GeneralProtection));
    assert_eq!(p.load_fs(SegmentSelector(0x0f), &gdt), Err(Fault::GeneralProtection));
    assert_eq!(p, before);
    let mut q = boot(SegmentSelector::new(1, 0), gdt_pointer(&gdt));
    assert_eq!(q.load_gs(SegmentSelector::new(5, 0), &gdt), Err(Fault::NotPresent));
    assert_eq!(q.gs, SegmentSelector(0));
}

#[test]
fn load_ss_rules() {
    let gdt = table();
    let mut p = boot(SegmentSelector::new(1, 0), gdt_pointer(&gdt));
    assert_eq!(p.load_ss(SegmentSelector::new(2, 0), &gdt), Ok(()));
    assert_eq!(p.ss, SegmentSelector(0x10));
    assert_eq!(p.load_ss(SegmentSelector(0), &gdt), Ok(()));
    assert_eq!(p.load_ss(SegmentSelector::new(4, 3), &gdt), Err(Fault::GeneralProtection));
    assert_eq!(p.load_ss(SegmentSelector::new(1, 0), &gdt), Err(Fault::GeneralProtection));
    assert_eq!(p.load_ss(SegmentSelector::new(5, 0), &gdt), Err(Fault::StackSegment));
    let mut user = boot(SegmentSelector::new(3, 3), gdt_pointer(&gdt));
    assert_eq!(user.load_ss(SegmentSelector(3), &gdt), Err(Fault::GeneralProtection));
    assert_eq!(user.load_ss(SegmentSelector::new(4, 3), &gdt), Ok(()));
}

#[test]
fn swap_gs_twice_restores_base() {
    let gdt = table();
    let mut p = boot(SegmentSelector::new(1, 0), gdt_pointer(&gdt));
    let before = p;
    assert_eq!(p.swap_gs(), Ok(()));
    assert_eq!(p.gs_base, 0xffff_8000_0000_0000);
    assert_eq!(p.kernel_gs_base, 0x7000);
    assert_eq!(p.swap_gs(), Ok(()));
    assert_eq!(p, before);
}

#[test]
fn swap_gs_faults_outside_ring_zero() {
    let gdt = table();
    let mut p = boot(SegmentSelector::new(3, 3), gdt_pointer(&gdt));
    let before = p;
    assert_eq!(p.swap_gs(), Err(Fault::GeneralProtection));
    assert_eq!(p, before);
}

#[test]
fn load_gs_loads_descriptor_base() {
    let mut gdt = table();
    gdt.push(0x12cf_9234_5678_ffff);
    let mut p = boot(SegmentSelector::new(1, 0), gdt_pointer(&gdt));
    assert_eq!(p.load_gs(SegmentSelector::new(7, 0), &gdt), Ok(()));
    assert_eq!(p.gs, SegmentSelector(0x38));
    assert_eq!(p.gs_base, 0x1234_5678);
    assert_eq!(p.kernel_gs_base, 0xffff_8000_0000_0000);
    assert_eq!(p.load_gs(SegmentSelector::new(2, 0), &gdt), Ok(()));
    assert_eq!(p.gs_base, 0);
    p.gs_base = 0x7000;
    assert_eq!(p.load_gs(SegmentSelector(0), &gdt), Ok(()));
    assert_eq!(p.gs, SegmentSelector(0));
    assert!(p.gs_base == 0x7000 || p.gs_base == 0);
    assert_eq!(p.load_gs(SegmentSelector::new(5, 0), &gdt), Err(Fault::NotPresent));
    assert_eq!(p.gs, SegmentSelector(0));
}

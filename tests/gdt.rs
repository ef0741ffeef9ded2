use os::gdt::{build_tss, double_fault_stack_top, DOUBLE_FAULT_IST_INDEX, STACK_SIZE};

#[test]
fn stack_is_five_pages() {
    assert_eq!(STACK_SIZE, 20480);
    assert_eq!(DOUBLE_FAULT_IST_INDEX, 0);
}

#[test]
fn stack_top_is_end_of_region() {
    assert_eq!(double_fault_stack_top(0x1000), 0x6000);
}

#[test]
fn tss_slot_zero_holds_stack_top() {
    let start: u64 = 0x0000_5555_0000_0000;
    let tss = build_tss(start);
    let ist = tss.interrupt_stack_table;
    let top = ist[DOUBLE_FAULT_IST_INDEX as usize].as_u64();
    assert_eq!(top, start + STACK_SIZE as u64);
    assert!(top > start && top - STACK_SIZE as u64 == start);
    for slot in 1..7 {
        assert_eq!(ist[slot].as_u64(), 0);
    }
}

#[test]
fn tss_stack_disjoint_from_other_stack() {
    let start: u64 = 0x20_0000;
    let other = (0x10_0000u64, 0x10_5000u64);
    let tss = build_tss(start);
    let ist = tss.interrupt_stack_table;
    let top = ist[0].as_u64();
    let low = top - STACK_SIZE as u64;
    assert!(other.1 <= low || top <= other.0);
}

use vstd::prelude::*;

use x86_64::structures::tss::TaskStateSegment;
use x86_64::VirtAddr;

verus! {

#[verifier::external_type_specification]
#[verifier::external_body]
pub struct ExTaskStateSegment(TaskStateSegment);

/// Interrupt stack table slot that the double fault handler runs on.
pub const DOUBLE_FAULT_IST_INDEX: u16 = 0;

/// Size in bytes of the stack reserved for the double fault handler: five pages.
pub const STACK_SIZE: usize = 4096 * 5;

/// Whether `addr` is a canonical virtual address: bits 47 to 63 all clear or all set.
pub open spec fn is_canonical(addr: u64) -> bool {
    addr < 0x8000_0000_0000 || addr >= 0xffff_8000_0000_0000
}

/// The seven stack-top addresses of a task state segment's interrupt stack table.
pub uninterp spec fn interrupt_stack_table(tss: TaskStateSegment) -> Seq<u64>;

/// Relies on `TaskStateSegment::new`: all seven interrupt stack table entries are zero.
#[verifier::external_body]
fn tss_new() -> (r: TaskStateSegment)
    ensures
        interrupt_stack_table(r) == Seq::new(7, |i: int| 0u64),
{
    TaskStateSegment::new()
}

/// Relies on `VirtAddr::new`, which keeps a canonical address unchanged (it
/// panics on an address with data in bits 48 to 63), stored in the public
/// `interrupt_stack_table` array of the segment.
#[verifier::external_body]
fn tss_set_ist(tss: &mut TaskStateSegment, index: usize, addr: u64)
    requires
        index < 7,
        is_canonical(addr),
    ensures
        interrupt_stack_table(*final(tss)) == interrupt_stack_table(*old(tss)).update(
            index as int,
            addr,
        ),
{
    tss.interrupt_stack_table[index] = VirtAddr::new(addr);
}

/// The interrupt stack table installed for a double fault stack starting at
/// `stack_start`: slot 0 holds the top of that stack, the others are unused.
pub open spec fn double_fault_table(stack_start: u64) -> Seq<u64> {
    Seq::new(7, |i: int| if i == 0 { (stack_start + STACK_SIZE) as u64 } else { 0u64 })
}

/// The address just past a stack of `STACK_SIZE` bytes at `stack_start`,
/// where the stack pointer starts since the stack grows down.
pub fn double_fault_stack_top(stack_start: u64) -> (r: u64)
    requires
        stack_start + STACK_SIZE <= u64::MAX,
    ensures
        r == stack_start + STACK_SIZE,
{
    stack_start + STACK_SIZE as u64
}

/// A task state segment whose double fault slot points at the top of the
/// reserved stack at `stack_start`.
pub fn build_tss(stack_start: u64) -> (r: TaskStateSegment)
    requires
        stack_start + STACK_SIZE <= u64::MAX,
        is_canonical((stack_start + STACK_SIZE) as u64),
    ensures
        interrupt_stack_table(r) == double_fault_table(stack_start),
{
    let mut tss = tss_new();
    let top = double_fault_stack_top(stack_start);
    tss_set_ist(&mut tss, DOUBLE_FAULT_IST_INDEX as usize, top);
    assert(interrupt_stack_table(tss) =~= double_fault_table(stack_start));
    tss
}

/// The stack that the double fault handler runs on, the `STACK_SIZE` bytes
/// below the address in its slot, is exactly the reserved region, and so
/// shares no address with any stack `[other_start, other_end)` disjoint from it.
pub proof fn lemma_double_fault_stack_isolated(stack_start: u64, other_start: int, other_end: int)
    requires
        stack_start + STACK_SIZE <= u64::MAX,
        other_end <= stack_start || stack_start + STACK_SIZE <= other_start,
    ensures
        ({
            let top = double_fault_table(stack_start)[DOUBLE_FAULT_IST_INDEX as int];
            &&& stack_start < top <= stack_start + STACK_SIZE
            &&& top - STACK_SIZE == stack_start
            &&& (other_end <= top - STACK_SIZE || top <= other_start)
        }),
{
}

} // verus!

//! Privilege and stack descriptors: the task state segment with the isolated
//! stack of the double-fault handler, and the descriptor table that holds the
//! kernel's code segment and that task state segment.
//!
//! Both tables are values of the `x86_64` crate. This module fills them; its
//! caller owns them for the rest of the kernel's life, loads them into the
//! processor and reloads the segment registers. They have to be loaded before
//! the vector table is.

use vstd::prelude::*;
use crate::interrupts::DOUBLE_FAULT_IST_INDEX;

verus! {

/// Size in bytes of the isolated stack of the double-fault handler.
pub const DOUBLE_FAULT_STACK_SIZE: u64 = 4096 * 5;

/// Number of slots in the interrupt stack table.
pub const STACK_TABLE_SLOTS: usize = 7;

/// Number of 64-bit entries a descriptor table can hold.
pub const GDT_CAPACITY: usize = 8;

/// Bit 9 of the flags register: interrupts are enabled.
pub const INTERRUPT_FLAG: u64 = 0x200;

#[verifier::external_type_specification]
#[verifier::external_body]
pub struct ExTaskStateSegment(x86_64::structures::tss::TaskStateSegment);

#[verifier::external_type_specification]
#[verifier::external_body]
pub struct ExGlobalDescriptorTable(x86_64::structures::gdt::GlobalDescriptorTable);

/// The seven stack pointers in the interrupt stack table of a task state
/// segment, as addresses.
pub uninterp spec fn stack_table(tss: x86_64::structures::tss::TaskStateSegment) -> Seq<u64>;

/// The 64-bit entries in use in a descriptor table, the null descriptor
/// included. A user segment takes one entry, a system segment two.
pub uninterp spec fn gdt_entries(gdt: x86_64::structures::gdt::GlobalDescriptorTable) -> Seq<u64>;

/// The selectors of the two segments in the kernel's descriptor table.
#[derive(Clone, Copy, PartialEq, Eq, Debug, Structural)]
pub struct Selectors {
    pub code_selector: u16,
    pub tss_selector: u16,
}

/// Whether bits 47 to 63 of `addr` are all equal, as a virtual address needs
/// them.
pub open spec fn is_canonical(addr: u64) -> bool {
    addr >> 47 == 0 || addr >> 47 == 0x1_FFFF
}

/// The descriptor of a 64-bit kernel code segment: a present, executable,
/// long-mode user segment of ring 0, flat, writable and accessed.
pub open spec fn kernel_code_descriptor() -> u64 {
    0x00AF_9B00_0000_FFFF
}

/// The selector of ring 0 for the descriptor at `index`.
pub open spec fn kernel_selector(index: int) -> int {
    index * 8
}

/// A stack table with no stack in it.
pub open spec fn empty_stack_table() -> Seq<u64> {
    Seq::new(STACK_TABLE_SLOTS as nat, |i: int| 0u64)
}

/// `TaskStateSegment::new`: a task state segment whose interrupt stack table
/// holds seven null pointers.
#[verifier::external_body]
fn tss_new() -> (tss: x86_64::structures::tss::TaskStateSegment)
    ensures
        stack_table(tss) == empty_stack_table(),
{
    x86_64::structures::tss::TaskStateSegment::new()
}

/// Stores `VirtAddr::new(top)` in slot `index` of the interrupt stack table.
/// `VirtAddr::new` keeps a canonical address as it is; the other slots stay.
#[verifier::external_body]
fn tss_set_stack(tss: &mut x86_64::structures::tss::TaskStateSegment, index: usize, top: u64)
    requires
        index < STACK_TABLE_SLOTS,
        is_canonical(top),
    ensures
        stack_table(*final(tss)) == stack_table(*old(tss)).update(index as int, top),
{
    tss.interrupt_stack_table[index] = x86_64::VirtAddr::new(top);
}

/// `GlobalDescriptorTable::new`: a table that holds the null descriptor only.
#[verifier::external_body]
fn gdt_new() -> (gdt: x86_64::structures::gdt::GlobalDescriptorTable)
    ensures
        gdt_entries(gdt) == seq![0u64],
{
    x86_64::structures::gdt::GlobalDescriptorTable::new()
}

/// `GlobalDescriptorTable::add_entry` with `Descriptor::kernel_code_segment`:
/// appends the one entry of that descriptor and returns its selector, the
/// index of the entry with privilege level 0. It panics on a full table.
#[verifier::external_body]
fn gdt_add_kernel_code(gdt: &mut x86_64::structures::gdt::GlobalDescriptorTable) -> (selector: u16)
    requires
        gdt_entries(*old(gdt)).len() < GDT_CAPACITY,
    ensures
        gdt_entries(*final(gdt)) == gdt_entries(*old(gdt)).push(kernel_code_descriptor()),
        selector == kernel_selector(gdt_entries(*old(gdt)).len() as int),
{
    gdt.add_entry(x86_64::structures::gdt::Descriptor::kernel_code_segment()).0
}

/// `GlobalDescriptorTable::add_entry` with `Descriptor::tss_segment`: appends
/// the two entries of that system descriptor, whose contents depend on where
/// `tss` lies, and returns the selector of the first, with privilege level 0.
/// It panics unless two entries are free.
#[verifier::external_body]
fn gdt_add_tss(
    gdt: &mut x86_64::structures::gdt::GlobalDescriptorTable,
    tss: &'static x86_64::structures::tss::TaskStateSegment,
) -> (selector: u16)
    requires
        gdt_entries(*old(gdt)).len() + 2 <= GDT_CAPACITY,
    ensures
        gdt_entries(*final(gdt)).len() == gdt_entries(*old(gdt)).len() + 2,
        gdt_entries(*final(gdt)).take(gdt_entries(*old(gdt)).len() as int) == gdt_entries(
            *old(gdt),
        ),
        selector == kernel_selector(gdt_entries(*old(gdt)).len() as int),
{
    gdt.add_entry(x86_64::structures::gdt::Descriptor::tss_segment(tss)).0
}

/// Whether the flags register value `rflags` has the interrupt flag set.
///
/// `RFlags::contains` on `RFlags::INTERRUPT_FLAG`, which is bit 9. The caller
/// reads the register.
#[verifier::external_body]
pub fn are_interrupts_enabled(rflags: u64) -> (enabled: bool)
    ensures
        enabled == (rflags & INTERRUPT_FLAG != 0),
{
    x86_64::registers::rflags::RFlags::from_bits_truncate(rflags).contains(
        x86_64::registers::rflags::RFlags::INTERRUPT_FLAG,
    )
}

/// The top of a stack of `size` bytes that starts at `start`, if both ends
/// are canonical addresses.
pub open spec fn stack_top(start: u64, size: u64) -> Option<u64> {
    if is_canonical(start) && start + size <= u64::MAX && is_canonical((start + size) as u64) {
        Some((start + size) as u64)
    } else {
        None
    }
}

/// The top of the isolated stack region of `size` bytes at `start`: the
/// address just behind it, since stacks grow downwards.
pub fn isolated_stack_top(start: u64, size: u64) -> (top: Option<u64>)
    ensures
        top == stack_top(start, size),
{
    if !canonical(start) {
        return None;
    }
    match start.checked_add(size) {
        Some(top) => if canonical(top) {
            Some(top)
        } else {
            None
        },
        None => None,
    }
}

/// Whether `addr` is a canonical virtual address.
pub fn canonical(addr: u64) -> (ok: bool)
    ensures
        ok == is_canonical(addr),
{
    let high: u64 = addr >> 47;
    high == 0 || high == 0x1_FFFF
}

/// Builds the task state segment for a double-fault stack of `stack_size`
/// bytes at `stack_start`.
///
/// The stack's top goes into the slot of the double-fault handler; every
/// other slot stays null. There is no segment if the region does not lie
/// within canonical addresses.
pub fn build_tss(stack_start: u64, stack_size: u64) -> (result: Option<
    x86_64::structures::tss::TaskStateSegment,
>)
    ensures
        result is Some <==> stack_top(stack_start, stack_size) is Some,
        result matches Some(tss) ==> stack_table(tss) == empty_stack_table().update(
            DOUBLE_FAULT_IST_INDEX as int,
            stack_top(stack_start, stack_size)->0,
        ),
{
    match isolated_stack_top(stack_start, stack_size) {
        Some(top) => {
            let mut tss = tss_new();
            tss_set_stack(&mut tss, DOUBLE_FAULT_IST_INDEX as usize, top);
            Some(tss)
        },
        None => None,
    }
}

/// Builds the kernel's descriptor table: the null descriptor, the kernel code
/// segment, and the two entries of the descriptor of `tss`.
///
/// The code segment gets selector `0x08`, the task state segment `0x10`.
pub fn build_gdt(tss: &'static x86_64::structures::tss::TaskStateSegment) -> (result: (
    x86_64::structures::gdt::GlobalDescriptorTable,
    Selectors,
))
    ensures
        result.1 == (Selectors { code_selector: 0x08, tss_selector: 0x10 }),
        gdt_entries(result.0).len() == 4,
        gdt_entries(result.0).take(2) == seq![0u64, kernel_code_descriptor()],
{
    let mut gdt = gdt_new();
    let code_selector = gdt_add_kernel_code(&mut gdt);
    let ghost two = gdt_entries(gdt);
    let tss_selector = gdt_add_tss(&mut gdt, tss);
    assert(two =~= seq![0u64, kernel_code_descriptor()]);
    (gdt, Selectors { code_selector, tss_selector })
}

} // verus!

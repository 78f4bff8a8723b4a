//! The vector table: which routine serves which exception or interrupt.
//!
//! The table built here is a description in plain values. Its owner turns
//! each entry into a descriptor of the hardware table, with the address of the
//! routine that the entry names, loads the table once and never changes it
//! again. It has to be complete before interrupts are enabled.

use vstd::prelude::*;
use crate::interrupts::{vector_number, InterruptIndex, DOUBLE_FAULT_IST_INDEX};

verus! {

/// Number of entries in the vector table.
pub const VECTOR_COUNT: usize = 256;

/// Number of vectors the processor reserves for its own exceptions.
pub const EXCEPTION_COUNT: u8 = 32;

/// Vector of the double-fault exception.
pub const DOUBLE_FAULT_VECTOR: u8 = 8;

/// A service routine of the kernel.
#[derive(Clone, Copy, PartialEq, Eq, Debug, Structural)]
pub enum Handler {
    DivideError,
    Debug,
    NonMaskableInterrupt,
    Breakpoint,
    Overflow,
    BoundRange,
    InvalidOpcode,
    DeviceNotAvailable,
    DoubleFault,
    InvalidTss,
    SegmentNotPresent,
    StackSegment,
    GeneralProtection,
    PageFault,
    X87Fpu,
    AlignmentCheck,
    MachineCheck,
    SimdFpu,
    /// The routine for exception vectors that have none of their own.
    Unexpected,
    Timer,
    Keyboard,
}

/// What a routine does when its work is done.
#[derive(Clone, Copy, PartialEq, Eq, Debug, Structural)]
pub enum Policy {
    /// Return; execution resumes where it was interrupted.
    Resume,
    /// Report the fault and halt the processor for good.
    Halt,
    /// Acknowledge the interrupt to the controllers, then return.
    Acknowledge,
}

/// One entry of the vector table.
#[derive(Clone, Copy, PartialEq, Eq, Debug, Structural)]
pub struct VectorEntry {
    /// The routine to enter.
    pub handler: Handler,
    /// The code segment to enter it in.
    pub code_selector: u16,
    /// The slot of the interrupt stack table whose stack the routine runs
    /// on, if it does not run on the interrupted stack.
    pub stack_index: Option<u16>,
}

/// The vector table, one entry or none for each of the 256 vectors.
pub struct VectorTable {
    entries: [Option<VectorEntry>; 256],
}

/// The routine that serves `vector`, if the kernel serves it.
///
/// Every exception vector is served: eighteen by a routine of their own, the
/// others by the routine for unexpected exceptions. Of the interrupts the
/// timer and the keyboard are served.
pub open spec fn handler_of(vector: int) -> Option<Handler> {
    if vector == 0 {
        Some(Handler::DivideError)
    } else if vector == 1 {
        Some(Handler::Debug)
    } else if vector == 2 {
        Some(Handler::NonMaskableInterrupt)
    } else if vector == 3 {
        Some(Handler::Breakpoint)
    } else if vector == 4 {
        Some(Handler::Overflow)
    } else if vector == 5 {
        Some(Handler::BoundRange)
    } else if vector == 6 {
        Some(Handler::InvalidOpcode)
    } else if vector == 7 {
        Some(Handler::DeviceNotAvailable)
    } else if vector == 8 {
        Some(Handler::DoubleFault)
    } else if vector == 10 {
        Some(Handler::InvalidTss)
    } else if vector == 11 {
        Some(Handler::SegmentNotPresent)
    } else if vector == 12 {
        Some(Handler::StackSegment)
    } else if vector == 13 {
        Some(Handler::GeneralProtection)
    } else if vector == 14 {
        Some(Handler::PageFault)
    } else if vector == 16 {
        Some(Handler::X87Fpu)
    } else if vector == 17 {
        Some(Handler::AlignmentCheck)
    } else if vector == 18 {
        Some(Handler::MachineCheck)
    } else if vector == 19 {
        Some(Handler::SimdFpu)
    } else if 0 <= vector < EXCEPTION_COUNT {
        Some(Handler::Unexpected)
    } else if vector == vector_number(InterruptIndex::Timer) {
        Some(Handler::Timer)
    } else if vector == vector_number(InterruptIndex::Keyboard) {
        Some(Handler::Keyboard)
    } else {
        None
    }
}

/// The stack a routine runs on. Only the double-fault routine has a stack of
/// its own, so that it still runs when the interrupted stack is unusable.
pub open spec fn stack_of(handler: Handler) -> Option<u16> {
    if handler == Handler::DoubleFault {
        Some(DOUBLE_FAULT_IST_INDEX)
    } else {
        None
    }
}

/// What a routine does when its work is done: debug and breakpoint resume,
/// the device routines acknowledge, every other fault halts.
pub open spec fn policy_of(handler: Handler) -> Policy {
    match handler {
        Handler::Debug | Handler::Breakpoint => Policy::Resume,
        Handler::Timer | Handler::Keyboard => Policy::Acknowledge,
        _ => Policy::Halt,
    }
}

/// What a halting routine reports before it halts.
pub open spec fn message_of(handler: Handler) -> Seq<char> {
    match handler {
        Handler::DivideError => "EXCEPTION: DIVIDE ERROR"@,
        Handler::Debug => "EXCEPTION: DEBUG"@,
        Handler::NonMaskableInterrupt => "EXCEPTION: NON-MASKABLE INTERRUPT"@,
        Handler::Breakpoint => "EXCEPTION: BREAKPOINT"@,
        Handler::Overflow => "EXCEPTION: OVERFLOW"@,
        Handler::BoundRange => "EXCEPTION: BOUND RANGE EXCEEDED"@,
        Handler::InvalidOpcode => "EXCEPTION: INVALID OPCODE"@,
        Handler::DeviceNotAvailable => "EXCEPTION: DEVICE NOT AVAILABLE"@,
        Handler::DoubleFault => "EXCEPTION: DOUBLE FAULT"@,
        Handler::InvalidTss => "EXCEPTION: INVALID TSS"@,
        Handler::SegmentNotPresent => "EXCEPTION: SEGMENT NOT PRESENT"@,
        Handler::StackSegment => "EXCEPTION: STACK SEGMENT FAULT"@,
        Handler::GeneralProtection => "EXCEPTION: GENERAL PROTECTION FAULT"@,
        Handler::PageFault => "EXCEPTION: PAGE FAULT"@,
        Handler::X87Fpu => "EXCEPTION: X87 FLOATING POINT"@,
        Handler::AlignmentCheck => "EXCEPTION: ALIGNMENT CHECK"@,
        Handler::MachineCheck => "EXCEPTION: MACHINE CHECK"@,
        Handler::SimdFpu => "EXCEPTION: SIMD FLOATING POINT"@,
        Handler::Unexpected => "EXCEPTION: UNEXPECTED"@,
        Handler::Timer => "INTERRUPT: TIMER"@,
        Handler::Keyboard => "INTERRUPT: KEYBOARD"@,
    }
}

/// The entry of `vector` in a table whose routines run in `code_selector`.
pub open spec fn entry_of(vector: int, code_selector: u16) -> Option<VectorEntry> {
    match handler_of(vector) {
        Some(handler) => Some(
            VectorEntry { handler, code_selector, stack_index: stack_of(handler) },
        ),
        None => None,
    }
}

/// The whole table for `code_selector`.
pub open spec fn table_of(code_selector: u16) -> Seq<Option<VectorEntry>> {
    Seq::new(VECTOR_COUNT as nat, |vector: int| entry_of(vector, code_selector))
}

/// The routine that serves `vector`, if the kernel serves it.
pub fn handler_for(vector: u8) -> (handler: Option<Handler>)
    ensures
        handler == handler_of(vector as int),
{
    match vector {
        0 => Some(Handler::DivideError),
        1 => Some(Handler::Debug),
        2 => Some(Handler::NonMaskableInterrupt),
        3 => Some(Handler::Breakpoint),
        4 => Some(Handler::Overflow),
        5 => Some(Handler::BoundRange),
        6 => Some(Handler::InvalidOpcode),
        7 => Some(Handler::DeviceNotAvailable),
        8 => Some(Handler::DoubleFault),
        10 => Some(Handler::InvalidTss),
        11 => Some(Handler::SegmentNotPresent),
        12 => Some(Handler::StackSegment),
        13 => Some(Handler::GeneralProtection),
        14 => Some(Handler::PageFault),
        16 => Some(Handler::X87Fpu),
        17 => Some(Handler::AlignmentCheck),
        18 => Some(Handler::MachineCheck),
        19 => Some(Handler::SimdFpu),
        32 => Some(Handler::Timer),
        33 => Some(Handler::Keyboard),
        _ => if vector < EXCEPTION_COUNT {
            Some(Handler::Unexpected)
        } else {
            None
        },
    }
}

/// What the routine `handler` does when its work is done.
pub fn handler_policy(handler: Handler) -> (policy: Policy)
    ensures
        policy == policy_of(handler),
{
    match handler {
        Handler::Debug | Handler::Breakpoint => Policy::Resume,
        Handler::Timer | Handler::Keyboard => Policy::Acknowledge,
        _ => Policy::Halt,
    }
}

/// The diagnostic that the routine `handler` reports when it halts.
pub fn fault_message(handler: Handler) -> (text: &'static str)
    ensures
        text@ == message_of(handler),
{
    match handler {
        Handler::DivideError => "EXCEPTION: DIVIDE ERROR",
        Handler::Debug => "EXCEPTION: DEBUG",
        Handler::NonMaskableInterrupt => "EXCEPTION: NON-MASKABLE INTERRUPT",
        Handler::Breakpoint => "EXCEPTION: BREAKPOINT",
        Handler::Overflow => "EXCEPTION: OVERFLOW",
        Handler::BoundRange => "EXCEPTION: BOUND RANGE EXCEEDED",
        Handler::InvalidOpcode => "EXCEPTION: INVALID OPCODE",
        Handler::DeviceNotAvailable => "EXCEPTION: DEVICE NOT AVAILABLE",
        Handler::DoubleFault => "EXCEPTION: DOUBLE FAULT",
        Handler::InvalidTss => "EXCEPTION: INVALID TSS",
        Handler::SegmentNotPresent => "EXCEPTION: SEGMENT NOT PRESENT",
        Handler::StackSegment => "EXCEPTION: STACK SEGMENT FAULT",
        Handler::GeneralProtection => "EXCEPTION: GENERAL PROTECTION FAULT",
        Handler::PageFault => "EXCEPTION: PAGE FAULT",
        Handler::X87Fpu => "EXCEPTION: X87 FLOATING POINT",
        Handler::AlignmentCheck => "EXCEPTION: ALIGNMENT CHECK",
        Handler::MachineCheck => "EXCEPTION: MACHINE CHECK",
        Handler::SimdFpu => "EXCEPTION: SIMD FLOATING POINT",
        Handler::Unexpected => "EXCEPTION: UNEXPECTED",
        Handler::Timer => "INTERRUPT: TIMER",
        Handler::Keyboard => "INTERRUPT: KEYBOARD",
    }
}

impl View for VectorTable {
    type V = Seq<Option<VectorEntry>>;

    closed spec fn view(&self) -> Seq<Option<VectorEntry>> {
        self.entries@
    }
}

impl VectorTable {
    /// The entry of `vector`.
    pub fn entry(&self, vector: u8) -> (entry: Option<VectorEntry>)
        ensures
            self@.len() == VECTOR_COUNT,
            entry == self@[vector as int],
    {
        self.entries[vector as usize]
    }
}

/// Builds the vector table for routines that run in the code segment
/// `code_selector`.
///
/// Every exception vector and the two device vectors get an entry, no other
/// vector does. The double-fault entry, and only that one, names the
/// isolated stack.
pub fn init_idt(code_selector: u16) -> (table: VectorTable)
    ensures
        table@ == table_of(code_selector),
        table@.len() == VECTOR_COUNT,
        forall|vector: int| 0 <= vector < EXCEPTION_COUNT ==> (#[trigger] table@[vector]) is Some,
        table@[vector_number(InterruptIndex::Timer) as int] == Some(
            VectorEntry { handler: Handler::Timer, code_selector, stack_index: None },
        ),
        table@[vector_number(InterruptIndex::Keyboard) as int] == Some(
            VectorEntry { handler: Handler::Keyboard, code_selector, stack_index: None },
        ),
        forall|vector: int|
            0 <= vector < VECTOR_COUNT ==> ((#[trigger] table@[vector]) matches Some(entry)
                && entry.stack_index is Some <==> vector == DOUBLE_FAULT_VECTOR),
        table@[DOUBLE_FAULT_VECTOR as int] == Some(
            VectorEntry {
                handler: Handler::DoubleFault,
                code_selector,
                stack_index: Some(DOUBLE_FAULT_IST_INDEX),
            },
        ),
{
    let mut entries: [Option<VectorEntry>; 256] = [None; 256];
    let mut vector: usize = 0;
    while vector < 256
        invariant
            vector <= 256,
            forall|v: int| 0 <= v < vector ==> entries@[v] == entry_of(v, code_selector),
        decreases 256 - vector,
    {
        entries[vector] = match handler_for(vector as u8) {
            Some(handler) => Some(
                VectorEntry {
                    handler,
                    code_selector,
                    stack_index: match handler {
                        Handler::DoubleFault => Some(DOUBLE_FAULT_IST_INDEX),
                        _ => None,
                    },
                },
            ),
            None => None,
        };
        vector = vector + 1;
    }
    assert(entries@ =~= table_of(code_selector));
    VectorTable { entries }
}

} // verus!

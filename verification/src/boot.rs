//! The order in which the kernel is brought up.
//!
//! Interrupts stay disabled during the whole bring-up and are enabled exactly
//! once, as the last step: by then the descriptors and the vector table are
//! loaded and the controllers are remapped and masked down to the lines in
//! use. The caller asks for one step after the other and carries each out.

use vstd::prelude::*;
use vstd::string::StringSliceAdditionalSpecFns;

verus! {

/// Number of boot steps.
pub const BOOT_STEPS: usize = 6;

/// Size in bytes of the region that is handed to the heap allocator.
pub const HEAP_SIZE: usize = 200 * 1024;

/// One step of the bring-up.
#[derive(Clone, Copy, PartialEq, Eq, Debug, Structural)]
pub enum BootStep {
    /// Load the descriptor table and the task state segment.
    LoadDescriptors,
    /// Load the vector table.
    LoadVectorTable,
    /// Hand the heap region to the allocator.
    InitHeap,
    /// Program the interval timer.
    ProgramTimer,
    /// Remap and mask the interrupt controllers.
    ProgramControllers,
    /// Enable interrupts on the processor.
    EnableInterrupts,
}

/// The boot steps in the order in which they are carried out.
pub open spec fn boot_order() -> Seq<BootStep> {
    seq![
        BootStep::LoadDescriptors,
        BootStep::LoadVectorTable,
        BootStep::InitHeap,
        BootStep::ProgramTimer,
        BootStep::ProgramControllers,
        BootStep::EnableInterrupts,
    ]
}

/// The place of a step in the boot order.
pub open spec fn place_of(step: BootStep) -> int {
    match step {
        BootStep::LoadDescriptors => 0,
        BootStep::LoadVectorTable => 1,
        BootStep::InitHeap => 2,
        BootStep::ProgramTimer => 3,
        BootStep::ProgramControllers => 4,
        BootStep::EnableInterrupts => 5,
    }
}

/// The status shown while a step is under way, for the steps that show one.
pub open spec fn status_of(step: BootStep) -> Option<Seq<char>> {
    match step {
        BootStep::LoadDescriptors => Some("[1/4] Initializing GDT..."@),
        BootStep::LoadVectorTable => Some("[2/4] Initializing IDT...    "@),
        BootStep::InitHeap => Some("[3/4] Initializing heap...   "@),
        BootStep::ProgramTimer => Some("[4/4] Starting interrupts... "@),
        BootStep::ProgramControllers => None,
        BootStep::EnableInterrupts => None,
    }
}

/// Every step has its one place in the boot order. Enabling interrupts is the
/// last step, and the descriptors, the vector table and the controllers all
/// come before it, the descriptors before the vector table.
pub proof fn lemma_boot_order(step: BootStep)
    ensures
        0 <= place_of(step) < boot_order().len() == BOOT_STEPS,
        boot_order()[place_of(step)] == step,
        forall|i: int| 0 <= i < BOOT_STEPS && boot_order()[i] == step ==> i == place_of(step),
        step != BootStep::EnableInterrupts ==> place_of(step) < place_of(
            BootStep::EnableInterrupts,
        ),
        place_of(BootStep::LoadDescriptors) < place_of(BootStep::LoadVectorTable) < place_of(
            BootStep::ProgramControllers,
        ) < place_of(BootStep::EnableInterrupts) == BOOT_STEPS - 1,
{
}

/// The step to carry out once `done` steps have been carried out, or nothing
/// when the boot is complete.
pub fn next_step(done: usize) -> (step: Option<BootStep>)
    ensures
        step == if done < BOOT_STEPS {
            Some(boot_order()[done as int])
        } else {
            None
        },
        step matches Some(s) ==> place_of(s) == done,
{
    match done {
        0 => Some(BootStep::LoadDescriptors),
        1 => Some(BootStep::LoadVectorTable),
        2 => Some(BootStep::InitHeap),
        3 => Some(BootStep::ProgramTimer),
        4 => Some(BootStep::ProgramControllers),
        5 => Some(BootStep::EnableInterrupts),
        _ => None,
    }
}

/// The status to show while `step` is under way, if it shows one.
pub fn status_line(step: BootStep) -> (status: Option<&'static str>)
    ensures
        status is Some <==> status_of(step) is Some,
        status matches Some(text) ==> Some(text@) == status_of(step),
{
    match step {
        BootStep::LoadDescriptors => Some("[1/4] Initializing GDT..."),
        BootStep::LoadVectorTable => Some("[2/4] Initializing IDT...    "),
        BootStep::InitHeap => Some("[3/4] Initializing heap...   "),
        BootStep::ProgramTimer => Some("[4/4] Starting interrupts... "),
        BootStep::ProgramControllers => None,
        BootStep::EnableInterrupts => None,
    }
}

} // verus!

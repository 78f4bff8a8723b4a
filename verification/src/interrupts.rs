//! The state shared between the interrupt handlers and the mainline loop, and
//! the handler bodies that change it.
//!
//! A handler body here is the decision part of a service routine. The caller
//! reads the hardware port, holds the lock around the [`InterruptState`] while
//! the body runs, and then performs the acknowledgment that the body returns.
//! Every device handler returns its acknowledgment: leaving it out would stall
//! all interrupts of equal or lower priority.

use vstd::prelude::*;
use crate::pic::{end_of_interrupt, eoi_script, PIC_1_OFFSET};
use crate::port::PortOps;
use crate::queue::{pop_model, pop_value, push_model, ScancodeBuffer};

verus! {

/// Port from which the keyboard's scancode byte is read.
pub const KEYBOARD_DATA_PORT: u16 = 0x60;

/// Status port of the keyboard controller.
pub const KEYBOARD_STATUS_PORT: u16 = 0x64;

/// Status bit that says a scancode is waiting in the data port.
pub const STATUS_OUTPUT_FULL: u8 = 0x01;

/// Scancode bit that marks the release of a key.
pub const KEY_RELEASE_BIT: u8 = 0x80;

/// Stack table slot that holds the isolated stack of the double-fault handler.
pub const DOUBLE_FAULT_IST_INDEX: u16 = 0;

/// The device interrupts the kernel serves.
#[derive(Clone, Copy, PartialEq, Eq, Debug, Structural)]
pub enum InterruptIndex {
    Timer,
    Keyboard,
}

/// The vector number of a device interrupt.
pub open spec fn vector_number(index: InterruptIndex) -> u8 {
    match index {
        InterruptIndex::Timer => PIC_1_OFFSET,
        InterruptIndex::Keyboard => (PIC_1_OFFSET + 1) as u8,
    }
}

impl InterruptIndex {
    /// The vector number as a byte: 32 for the timer, 33 for the keyboard.
    pub fn as_u8(self) -> (vector: u8)
        ensures
            vector == vector_number(self),
    {
        match self {
            InterruptIndex::Timer => PIC_1_OFFSET,
            InterruptIndex::Keyboard => PIC_1_OFFSET + 1,
        }
    }

    /// The vector number as an index into the vector table.
    pub fn as_usize(self) -> (vector: usize)
        ensures
            vector == vector_number(self),
    {
        self.as_u8() as usize
    }
}

/// A counter's value after one more event. The counters wrap around.
pub open spec fn counted(counter: u64) -> u64 {
    if counter == u64::MAX {
        0
    } else {
        (counter + 1) as u64
    }
}

/// Whether a scancode reports a key going down rather than coming up.
pub open spec fn is_key_press(scancode: u8) -> bool {
    scancode & KEY_RELEASE_BIT == 0
}

/// What an [`InterruptState`] stands for.
pub struct InterruptView {
    /// Scancodes waiting for the mainline loop, oldest first.
    pub scancodes: Seq<u8>,
    /// Timer interrupts served so far.
    pub timer_ticks: u64,
    /// Keyboard interrupts served so far.
    pub keyboard_interrupts: u64,
}

/// Everything the interrupt handlers share with the mainline loop.
///
/// There is one instance; it is created when the kernel starts and lives as
/// long as the kernel runs. Handlers and mainline reach it only through the
/// lock that its owner keeps around it.
pub struct InterruptState {
    scancodes: ScancodeBuffer,
    timer_ticks: u64,
    keyboard_interrupts: u64,
}

impl View for InterruptState {
    type V = InterruptView;

    closed spec fn view(&self) -> InterruptView {
        InterruptView {
            scancodes: self.scancodes@,
            timer_ticks: self.timer_ticks,
            keyboard_interrupts: self.keyboard_interrupts,
        }
    }
}

impl InterruptState {
    /// The state at start: nothing queued, nothing counted.
    pub fn new() -> (state: Self)
        ensures
            state@ == (InterruptView {
                scancodes: Seq::empty(),
                timer_ticks: 0,
                keyboard_interrupts: 0,
            }),
    {
        InterruptState { scancodes: ScancodeBuffer::new(), timer_ticks: 0, keyboard_interrupts: 0 }
    }
}

/// Takes the oldest waiting scancode out of the queue, if there is one.
pub fn read_scancode(state: &mut InterruptState) -> (scancode: Option<u8>)
    ensures
        scancode == pop_value(old(state)@.scancodes),
        final(state)@ == (InterruptView {
            scancodes: pop_model(old(state)@.scancodes),
            ..old(state)@
        }),
{
    state.scancodes.pop()
}

/// The number of timer interrupts served so far.
pub fn get_timer_ticks(state: &InterruptState) -> (ticks: u64)
    ensures
        ticks == state@.timer_ticks,
{
    state.timer_ticks
}

/// The number of keyboard interrupts served so far.
pub fn get_keyboard_interrupts(state: &InterruptState) -> (count: u64)
    ensures
        count == state@.keyboard_interrupts,
{
    state.keyboard_interrupts
}

/// A tick counter's value after one more tick.
pub fn increment_tick(ticks: u64) -> (next: u64)
    ensures
        next == counted(ticks),
{
    ticks.wrapping_add(1)
}

/// Whether the keyboard controller's status byte says that a scancode waits
/// to be read.
pub fn scancode_pending(status: u8) -> (pending: bool)
    ensures
        pending == (status & STATUS_OUTPUT_FULL != 0),
{
    status & STATUS_OUTPUT_FULL != 0
}

/// Whether a scancode reports a key press. A release has the high bit set.
pub fn key_pressed(scancode: u8) -> (pressed: bool)
    ensures
        pressed == is_key_press(scancode),
{
    scancode & KEY_RELEASE_BIT == 0
}

/// Body of the timer handler: counts the tick and returns the acknowledgment.
pub fn timer_interrupt_handler(state: &mut InterruptState) -> (ack: PortOps)
    ensures
        final(state)@ == (InterruptView {
            timer_ticks: counted(old(state)@.timer_ticks),
            ..old(state)@
        }),
        ack@ == eoi_script(vector_number(InterruptIndex::Timer)),
{
    state.timer_ticks = increment_tick(state.timer_ticks);
    end_of_interrupt(InterruptIndex::Timer.as_u8())
}

/// Body of the keyboard handler, for the byte `scancode` that was read from
/// the keyboard data port.
///
/// Counts the interrupt, queues the raw scancode if it reports a key press
/// and the queue has room, and returns the acknowledgment. A release is not
/// queued; a press that finds the queue full is dropped.
pub fn keyboard_interrupt_handler(state: &mut InterruptState, scancode: u8) -> (ack: PortOps)
    ensures
        final(state)@ == (InterruptView {
            scancodes: if is_key_press(scancode) {
                push_model(old(state)@.scancodes, scancode)
            } else {
                old(state)@.scancodes
            },
            keyboard_interrupts: counted(old(state)@.keyboard_interrupts),
            ..old(state)@
        }),
        ack@ == eoi_script(vector_number(InterruptIndex::Keyboard)),
{
    state.keyboard_interrupts = increment_tick(state.keyboard_interrupts);
    if key_pressed(scancode) {
        state.scancodes.push(scancode);
    }
    end_of_interrupt(InterruptIndex::Keyboard.as_u8())
}

} // verus!

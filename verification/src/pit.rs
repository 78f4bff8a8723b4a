//! The interval timer that raises the timer interrupt.

use vstd::prelude::*;
use crate::port::PortOp;

verus! {

/// Command port of the interval timer.
pub const PIT_COMMAND: u16 = 0x43;

/// Data port of the timer's channel 0.
pub const PIT_CHANNEL_0: u16 = 0x40;

/// Command: channel 0, low byte then high byte, rate generator.
pub const PIT_RATE_GENERATOR: u8 = 0x36;

/// Divisor that brings the timer's 1193182 Hz down to 100 Hz.
pub const PIT_DIVISOR: u16 = 11932;

/// The three writes that set the timer to 100 interrupts a second: the
/// command, then the low and the high byte of the divisor.
pub open spec fn pit_script() -> Seq<PortOp> {
    seq![
        PortOp::Write { port: PIT_COMMAND, value: PIT_RATE_GENERATOR },
        PortOp::Write { port: PIT_CHANNEL_0, value: 0x9C },
        PortOp::Write { port: PIT_CHANNEL_0, value: 0x2E },
    ]
}

/// The port accesses that set the timer to 100 interrupts a second.
pub fn init_pit() -> (ops: Vec<PortOp>)
    ensures
        ops@ == pit_script(),
        ops@[1] == (PortOp::Write { port: PIT_CHANNEL_0, value: (PIT_DIVISOR % 256) as u8 }),
        ops@[2] == (PortOp::Write { port: PIT_CHANNEL_0, value: (PIT_DIVISOR / 256) as u8 }),
{
    let divisor: u16 = PIT_DIVISOR;
    let low: u8 = (divisor & 0xFF) as u8;
    let high: u8 = (divisor >> 8) as u8;
    assert(low == 0x9C && high == 0x2E) by (bit_vector)
        requires
            divisor == 11932,
            low == (divisor & 0xFF) as u8,
            high == (divisor >> 8) as u8,
    ;
    let mut ops: Vec<PortOp> = Vec::new();
    ops.push(PortOp::Write { port: PIT_COMMAND, value: PIT_RATE_GENERATOR });
    ops.push(PortOp::Write { port: PIT_CHANNEL_0, value: low });
    ops.push(PortOp::Write { port: PIT_CHANNEL_0, value: high });
    assert(ops@ =~= pit_script());
    ops
}

} // verus!

//! Driver logic for the two cascaded interrupt controllers.
//!
//! Nothing here touches a port. Every operation returns the port accesses that
//! have to be carried out, in order, and records in a [`ControllerState`] what
//! the controllers hold once they have been carried out.
//!
//! The driver moves through four phases: uninitialized, remapping, masked and
//! active. Masking policy: after the remap every line is masked, and exactly
//! the lines in use are unmasked afterwards, one by one. A mask bit of 1
//! disables a line, a bit of 0 enables it.

use vstd::prelude::*;
use crate::port::{PortOp, PortOps};

verus! {

/// Command port of the master controller.
pub const PIC1_COMMAND: u16 = 0x20;

/// Data port of the master controller, which takes its mask byte.
pub const PIC1_DATA: u16 = 0x21;

/// Command port of the slave controller.
pub const PIC2_COMMAND: u16 = 0xA0;

/// Data port of the slave controller, which takes its mask byte.
pub const PIC2_DATA: u16 = 0xA1;

/// Unused port; a read from it is the delay between two controller writes.
pub const WAIT_PORT: u16 = 0x80;

/// End-of-interrupt command.
pub const PIC_EOI: u8 = 0x20;

/// First initialization word: start the initialization sequence.
pub const ICW1_INIT: u8 = 0x11;

/// Third initialization word of the master: a slave hangs on line 2.
pub const ICW3_MASTER: u8 = 0x04;

/// Third initialization word of the slave: its cascade identity.
pub const ICW3_SLAVE: u8 = 0x02;

/// Fourth initialization word: byte-oriented 8086 mode.
pub const ICW4_8086: u8 = 0x01;

/// Vector offset the kernel gives the master controller.
pub const PIC_1_OFFSET: u8 = 32;

/// Vector offset the kernel gives the slave controller.
pub const PIC_2_OFFSET: u8 = 40;

/// Mask byte that disables all eight lines of a controller.
pub const MASK_ALL: u8 = 0xFF;

/// Number of vectors the processor reserves for its own exceptions.
pub const EXCEPTION_VECTORS: u8 = 32;

/// Where the driver stands in bringing the controllers up.
#[derive(Clone, Copy, PartialEq, Eq, Debug, Structural)]
pub enum ControllerPhase {
    /// Nothing has been programmed yet.
    Uninitialized,
    /// The initialization words are out; no mask has been set yet.
    Remapping,
    /// Remapped, with every line disabled.
    Masked,
    /// Remapped, with at least one line enabled.
    Active,
}

/// Why a controller operation was refused.
#[derive(Clone, Copy, PartialEq, Eq, Debug, Structural)]
pub enum ControllerError {
    /// The controllers have been remapped already.
    AlreadyRemapped,
    /// The offsets would collide with the exception vectors or with each other.
    InvalidOffsets,
    /// The controllers have not been remapped yet.
    NotRemapped,
    /// There are only lines 0 to 15.
    InvalidLine,
}

/// One controller: its two ports and the mask byte it currently holds.
#[derive(Clone, Copy, PartialEq, Eq, Debug, Structural)]
pub struct Controller {
    pub command_port: u16,
    pub data_port: u16,
    pub mask: u8,
}

/// What a [`ControllerState`] stands for.
pub struct ControllerView {
    pub phase: ControllerPhase,
    pub master: Controller,
    pub slave: Controller,
    pub master_offset: u8,
    pub slave_offset: u8,
}

/// The cascaded controller pair as the driver has programmed it.
pub struct ControllerState {
    phase: ControllerPhase,
    master: Controller,
    slave: Controller,
    master_offset: u8,
    slave_offset: u8,
}

/// The delay between two controller writes.
pub open spec fn wait_op() -> PortOp {
    PortOp::Read { port: WAIT_PORT }
}

/// Offsets that keep both controllers' eight vectors clear of the exception
/// vectors and of each other. A controller ignores the low three bits of its
/// offset, so only multiples of eight are what they say.
pub open spec fn valid_offsets(master_offset: u8, slave_offset: u8) -> bool {
    &&& master_offset % 8 == 0
    &&& slave_offset % 8 == 0
    &&& master_offset >= EXCEPTION_VECTORS
    &&& slave_offset >= master_offset + 8
}

/// The vector a controller with offset `offset` raises for its line `line`.
pub open spec fn vector_of(offset: u8, line: int) -> int {
    offset + line
}

/// The initialization sequence: four words for each controller, a delay after
/// each write.
pub open spec fn remap_script(master_offset: u8, slave_offset: u8) -> Seq<PortOp> {
    seq![
        PortOp::Write { port: PIC1_COMMAND, value: ICW1_INIT },
        wait_op(),
        PortOp::Write { port: PIC2_COMMAND, value: ICW1_INIT },
        wait_op(),
        PortOp::Write { port: PIC1_DATA, value: master_offset },
        wait_op(),
        PortOp::Write { port: PIC2_DATA, value: slave_offset },
        wait_op(),
        PortOp::Write { port: PIC1_DATA, value: ICW3_MASTER },
        wait_op(),
        PortOp::Write { port: PIC2_DATA, value: ICW3_SLAVE },
        wait_op(),
        PortOp::Write { port: PIC1_DATA, value: ICW4_8086 },
        wait_op(),
        PortOp::Write { port: PIC2_DATA, value: ICW4_8086 },
        wait_op(),
    ]
}

/// The two writes that disable every line.
pub open spec fn mask_all_script() -> Seq<PortOp> {
    seq![
        PortOp::Write { port: PIC1_DATA, value: MASK_ALL },
        PortOp::Write { port: PIC2_DATA, value: MASK_ALL },
    ]
}

/// The acknowledgments owed for `vector_number`: one to the slave first if the
/// vector belongs to the cascaded controller, then one to the master.
pub open spec fn eoi_script(vector_number: u8) -> Seq<PortOp> {
    if vector_number >= PIC_2_OFFSET {
        seq![
            PortOp::Write { port: PIC2_COMMAND, value: PIC_EOI },
            PortOp::Write { port: PIC1_COMMAND, value: PIC_EOI },
        ]
    } else {
        seq![PortOp::Write { port: PIC1_COMMAND, value: PIC_EOI }]
    }
}

/// The mask bit of a controller's line `line`, for `line` below 8.
pub open spec fn line_bit(line: u8) -> u8 {
    1u8 << line
}

/// Whether a controller holding `mask` lets its line `line` through.
pub open spec fn line_enabled(mask: u8, line: u8) -> bool {
    mask & line_bit(line) == 0
}

/// `mask` with line `line` enabled.
pub open spec fn with_line_enabled(mask: u8, line: u8) -> u8 {
    mask & !line_bit(line)
}

/// `mask` with line `line` disabled.
pub open spec fn with_line_disabled(mask: u8, line: u8) -> u8 {
    mask | line_bit(line)
}

/// The phase of a remapped pair holding these two masks.
pub open spec fn phase_of_masks(master_mask: u8, slave_mask: u8) -> ControllerPhase {
    if master_mask == MASK_ALL && slave_mask == MASK_ALL {
        ControllerPhase::Masked
    } else {
        ControllerPhase::Active
    }
}

/// The pair before anything has been programmed.
pub open spec fn initial_view() -> ControllerView {
    ControllerView {
        phase: ControllerPhase::Uninitialized,
        master: Controller { command_port: PIC1_COMMAND, data_port: PIC1_DATA, mask: MASK_ALL },
        slave: Controller { command_port: PIC2_COMMAND, data_port: PIC2_DATA, mask: MASK_ALL },
        master_offset: 0,
        slave_offset: 0,
    }
}

/// `view` after one of the sixteen lines has been enabled or disabled.
pub open spec fn with_line_set(view: ControllerView, line: u8, enable: bool) -> ControllerView {
    let on_master = line < 8;
    let bit = (line % 8) as u8;
    let master_mask = if !on_master {
        view.master.mask
    } else if enable {
        with_line_enabled(view.master.mask, bit)
    } else {
        with_line_disabled(view.master.mask, bit)
    };
    let slave_mask = if on_master {
        view.slave.mask
    } else if enable {
        with_line_enabled(view.slave.mask, bit)
    } else {
        with_line_disabled(view.slave.mask, bit)
    };
    ControllerView {
        phase: phase_of_masks(master_mask, slave_mask),
        master: Controller { mask: master_mask, ..view.master },
        slave: Controller { mask: slave_mask, ..view.slave },
        ..view
    }
}

/// The mask write that goes with [`with_line_set`].
pub open spec fn line_set_op(view: ControllerView, line: u8, enable: bool) -> PortOp {
    let after = with_line_set(view, line, enable);
    if line < 8 {
        PortOp::Write { port: after.master.data_port, value: after.master.mask }
    } else {
        PortOp::Write { port: after.slave.data_port, value: after.slave.mask }
    }
}

/// Enabling one line of a controller enables that line and changes no other.
pub proof fn lemma_enable_line(mask: u8, line: u8, other: u8)
    requires
        line < 8,
        other < 8,
    ensures
        line_enabled(with_line_enabled(mask, line), other) == (other == line || line_enabled(
            mask,
            other,
        )),
{
    assert(((mask & !(1u8 << line)) & (1u8 << other) == 0) == (other == line || mask & (1u8
        << other) == 0)) by (bit_vector)
        requires
            line < 8,
            other < 8,
    ;
}

/// Disabling one line of a controller disables that line and changes no other.
pub proof fn lemma_disable_line(mask: u8, line: u8, other: u8)
    requires
        line < 8,
        other < 8,
    ensures
        line_enabled(with_line_disabled(mask, line), other) == (other != line && line_enabled(
            mask,
            other,
        )),
{
    assert(((mask | (1u8 << line)) & (1u8 << other) == 0) == (other != line && mask & (1u8
        << other) == 0)) by (bit_vector)
        requires
            line < 8,
            other < 8,
    ;
}

/// From everything masked, enabling the timer's line 0 and the keyboard's
/// line 1, in either order, gives the mask byte `0b1111_1100`.
pub proof fn lemma_timer_and_keyboard_mask()
    ensures
        with_line_enabled(with_line_enabled(MASK_ALL, 0), 1) == 0b1111_1100,
        with_line_enabled(with_line_enabled(MASK_ALL, 1), 0) == 0b1111_1100,
        forall|line: u8|
            line < 8 ==> (line_enabled(0b1111_1100, line) <==> line == 0 || line == 1),
{
    assert((0xFFu8 & !(1u8 << 0u8)) & !(1u8 << 1u8) == 0xFCu8) by (bit_vector);
    assert((0xFFu8 & !(1u8 << 1u8)) & !(1u8 << 0u8) == 0xFCu8) by (bit_vector);
    assert forall|line: u8| line < 8 implies (line_enabled(0b1111_1100, line) <==> line == 0
        || line == 1) by {
        assert((0xFCu8 & (1u8 << line) == 0) == (line == 0 || line == 1)) by (bit_vector)
            requires
                line < 8,
        ;
    }
}

/// A mask byte says exactly which lines are enabled: two bytes that enable the
/// same lines are the same byte, and the byte that enables none is `MASK_ALL`.
pub proof fn lemma_mask_reflects_lines(a: u8, b: u8)
    ensures
        (forall|line: u8| line < 8 ==> line_enabled(a, line) == line_enabled(b, line)) ==> a == b,
        forall|line: u8| line < 8 ==> !line_enabled(MASK_ALL, line),
{
    assert forall|line: u8| line < 8 implies !line_enabled(MASK_ALL, line) by {
        assert(0xFFu8 & (1u8 << line) != 0) by (bit_vector)
            requires
                line < 8,
        ;
    }
    if forall|line: u8| line < 8 ==> line_enabled(a, line) == line_enabled(b, line) {
        assert(line_enabled(a, 0) == line_enabled(b, 0));
        assert(line_enabled(a, 1) == line_enabled(b, 1));
        assert(line_enabled(a, 2) == line_enabled(b, 2));
        assert(line_enabled(a, 3) == line_enabled(b, 3));
        assert(line_enabled(a, 4) == line_enabled(b, 4));
        assert(line_enabled(a, 5) == line_enabled(b, 5));
        assert(line_enabled(a, 6) == line_enabled(b, 6));
        assert(line_enabled(a, 7) == line_enabled(b, 7));
        assert(a == b) by (bit_vector)
            requires
                (a & (1u8 << 0u8) == 0) == (b & (1u8 << 0u8) == 0),
                (a & (1u8 << 1u8) == 0) == (b & (1u8 << 1u8) == 0),
                (a & (1u8 << 2u8) == 0) == (b & (1u8 << 2u8) == 0),
                (a & (1u8 << 3u8) == 0) == (b & (1u8 << 3u8) == 0),
                (a & (1u8 << 4u8) == 0) == (b & (1u8 << 4u8) == 0),
                (a & (1u8 << 5u8) == 0) == (b & (1u8 << 5u8) == 0),
                (a & (1u8 << 6u8) == 0) == (b & (1u8 << 6u8) == 0),
                (a & (1u8 << 7u8) == 0) == (b & (1u8 << 7u8) == 0),
        ;
    }
}

/// With valid offsets no line of either controller raises an exception vector,
/// no vector is raised by both controllers, and every vector fits in a byte.
pub proof fn lemma_offsets_clear_of_exceptions(
    master_offset: u8,
    slave_offset: u8,
    master_line: int,
    slave_line: int,
)
    requires
        valid_offsets(master_offset, slave_offset),
        0 <= master_line < 8,
        0 <= slave_line < 8,
    ensures
        EXCEPTION_VECTORS <= vector_of(master_offset, master_line) < vector_of(
            slave_offset,
            slave_line,
        ) <= 255,
{
}

impl View for ControllerState {
    type V = ControllerView;

    closed spec fn view(&self) -> ControllerView {
        ControllerView {
            phase: self.phase,
            master: self.master,
            slave: self.slave,
            master_offset: self.master_offset,
            slave_offset: self.slave_offset,
        }
    }
}

impl ControllerState {
    #[verifier::type_invariant]
    spec fn well_formed(&self) -> bool {
        &&& self.master.command_port == PIC1_COMMAND
        &&& self.master.data_port == PIC1_DATA
        &&& self.slave.command_port == PIC2_COMMAND
        &&& self.slave.data_port == PIC2_DATA
        &&& self.phase != ControllerPhase::Uninitialized ==> valid_offsets(
            self.master_offset,
            self.slave_offset,
        )
        &&& (self.phase == ControllerPhase::Masked || self.phase == ControllerPhase::Active)
            ==> self.phase == phase_of_masks(self.master.mask, self.slave.mask)
    }

    /// The controller pair before anything has been programmed.
    pub fn new() -> (state: Self)
        ensures
            state@ == initial_view(),
    {
        ControllerState {
            phase: ControllerPhase::Uninitialized,
            master: Controller { command_port: PIC1_COMMAND, data_port: PIC1_DATA, mask: MASK_ALL },
            slave: Controller { command_port: PIC2_COMMAND, data_port: PIC2_DATA, mask: MASK_ALL },
            master_offset: 0,
            slave_offset: 0,
        }
    }

    /// The current phase.
    pub fn phase(&self) -> (phase: ControllerPhase)
        ensures
            phase == self@.phase,
    {
        self.phase
    }

    /// The master controller's ports and mask byte.
    pub fn master(&self) -> (controller: Controller)
        ensures
            controller == self@.master,
            controller.command_port == PIC1_COMMAND,
            controller.data_port == PIC1_DATA,
    {
        proof {
            use_type_invariant(self);
        }
        self.master
    }

    /// The slave controller's ports and mask byte.
    pub fn slave(&self) -> (controller: Controller)
        ensures
            controller == self@.slave,
            controller.command_port == PIC2_COMMAND,
            controller.data_port == PIC2_DATA,
    {
        proof {
            use_type_invariant(self);
        }
        self.slave
    }

    /// The vector offsets of master and slave, once they have been assigned.
    ///
    /// Assigned offsets are always valid: at or above the exception vectors,
    /// and the slave's at least eight above the master's.
    pub fn vector_offsets(&self) -> (offsets: Option<(u8, u8)>)
        ensures
            offsets is Some <==> self@.phase != ControllerPhase::Uninitialized,
            offsets matches Some((master_offset, slave_offset)) ==> {
                &&& master_offset == self@.master_offset
                &&& slave_offset == self@.slave_offset
                &&& valid_offsets(master_offset, slave_offset)
                &&& master_offset >= EXCEPTION_VECTORS
                &&& slave_offset >= master_offset + 8
            },
    {
        proof {
            use_type_invariant(self);
        }
        match self.phase {
            ControllerPhase::Uninitialized => None,
            _ => Some((self.master_offset, self.slave_offset)),
        }
    }

    /// Whether `line`, one of the sixteen lines of the pair, is enabled.
    /// Lines 0 to 7 are the master's, lines 8 to 15 the slave's; there is no
    /// other line, so none beyond them is enabled.
    pub fn is_line_enabled(&self, line: u8) -> (enabled: bool)
        ensures
            enabled == if line < 8 {
                line_enabled(self@.master.mask, line)
            } else if line < 16 {
                line_enabled(self@.slave.mask, (line - 8) as u8)
            } else {
                false
            },
    {
        if line < 8 {
            self.master.mask & (1u8 << line) == 0
        } else if line < 16 {
            self.slave.mask & (1u8 << (line - 8)) == 0
        } else {
            false
        }
    }

    /// Starts the initialization: gives both controllers their vector offsets,
    /// cascade wiring and operating mode.
    ///
    /// Succeeds exactly when nothing has been programmed yet and the offsets
    /// are valid. A refusal changes nothing.
    pub fn remap(&mut self, master_offset: u8, slave_offset: u8) -> (result: Result<
        Vec<PortOp>,
        ControllerError,
    >)
        ensures
            result is Ok <==> old(self)@.phase == ControllerPhase::Uninitialized && valid_offsets(
                master_offset,
                slave_offset,
            ),
            result matches Ok(ops) ==> {
                &&& ops@ == remap_script(master_offset, slave_offset)
                &&& final(self)@ == (ControllerView {
                    phase: ControllerPhase::Remapping,
                    master_offset,
                    slave_offset,
                    ..old(self)@
                })
                &&& final(self)@.master_offset >= EXCEPTION_VECTORS
                &&& final(self)@.slave_offset >= final(self)@.master_offset + 8
            },
            result matches Err(error) ==> {
                &&& final(self)@ == old(self)@
                &&& error == if old(self)@.phase != ControllerPhase::Uninitialized {
                    ControllerError::AlreadyRemapped
                } else {
                    ControllerError::InvalidOffsets
                }
            },
    {
        proof {
            use_type_invariant(&*self);
        }
        match self.phase {
            ControllerPhase::Uninitialized => {},
            _ => {
                return Err(ControllerError::AlreadyRemapped);
            },
        }
        if master_offset % 8 != 0 || slave_offset % 8 != 0 || master_offset < EXCEPTION_VECTORS
            || slave_offset < master_offset || slave_offset - master_offset < 8 {
            return Err(ControllerError::InvalidOffsets);
        }
        let mut ops: Vec<PortOp> = Vec::new();
        ops.push(PortOp::Write { port: PIC1_COMMAND, value: ICW1_INIT });
        ops.push(io_wait());
        ops.push(PortOp::Write { port: PIC2_COMMAND, value: ICW1_INIT });
        ops.push(io_wait());
        ops.push(PortOp::Write { port: PIC1_DATA, value: master_offset });
        ops.push(io_wait());
        ops.push(PortOp::Write { port: PIC2_DATA, value: slave_offset });
        ops.push(io_wait());
        ops.push(PortOp::Write { port: PIC1_DATA, value: ICW3_MASTER });
        ops.push(io_wait());
        ops.push(PortOp::Write { port: PIC2_DATA, value: ICW3_SLAVE });
        ops.push(io_wait());
        ops.push(PortOp::Write { port: PIC1_DATA, value: ICW4_8086 });
        ops.push(io_wait());
        ops.push(PortOp::Write { port: PIC2_DATA, value: ICW4_8086 });
        ops.push(io_wait());
        assert(ops@ =~= remap_script(master_offset, slave_offset));
        *self = ControllerState {
            phase: ControllerPhase::Remapping,
            master: self.master,
            slave: self.slave,
            master_offset,
            slave_offset,
        };
        Ok(ops)
    }

    /// Disables every line of both controllers.
    ///
    /// Succeeds exactly when the controllers have been remapped.
    pub fn mask_all(&mut self) -> (result: Result<Vec<PortOp>, ControllerError>)
        ensures
            result is Ok <==> old(self)@.phase != ControllerPhase::Uninitialized,
            result matches Ok(ops) ==> {
                &&& ops@ == mask_all_script()
                &&& final(self)@ == (ControllerView {
                    phase: ControllerPhase::Masked,
                    master: Controller { mask: MASK_ALL, ..old(self)@.master },
                    slave: Controller { mask: MASK_ALL, ..old(self)@.slave },
                    ..old(self)@
                })
            },
            result matches Err(error) ==> final(self)@ == old(self)@ && error
                == ControllerError::NotRemapped,
    {
        proof {
            use_type_invariant(&*self);
        }
        match self.phase {
            ControllerPhase::Uninitialized => {
                return Err(ControllerError::NotRemapped);
            },
            _ => {},
        }
        let mut ops: Vec<PortOp> = Vec::new();
        ops.push(PortOp::Write { port: PIC1_DATA, value: MASK_ALL });
        ops.push(PortOp::Write { port: PIC2_DATA, value: MASK_ALL });
        assert(ops@ =~= mask_all_script());
        *self = ControllerState {
            phase: ControllerPhase::Masked,
            master: Controller {
                command_port: self.master.command_port,
                data_port: self.master.data_port,
                mask: MASK_ALL,
            },
            slave: Controller {
                command_port: self.slave.command_port,
                data_port: self.slave.data_port,
                mask: MASK_ALL,
            },
            master_offset: self.master_offset,
            slave_offset: self.slave_offset,
        };
        Ok(ops)
    }

    /// Enables or disables one of the sixteen lines and leaves the others as
    /// they are.
    ///
    /// Succeeds exactly when `line` is below 16 and a mask has been set
    /// before, that is in the masked and the active phase. The result is the
    /// one mask write for the controller that owns the line.
    fn set_line(&mut self, line: u8, enable: bool) -> (result: Result<PortOp, ControllerError>)
        ensures
            result is Ok <==> line < 16 && (old(self)@.phase == ControllerPhase::Masked || old(
                self,
            )@.phase == ControllerPhase::Active),
            result matches Ok(op) ==> {
                &&& final(self)@ == with_line_set(old(self)@, line, enable)
                &&& op == line_set_op(old(self)@, line, enable)
            },
            result matches Err(error) ==> {
                &&& final(self)@ == old(self)@
                &&& error == if line >= 16 {
                    ControllerError::InvalidLine
                } else {
                    ControllerError::NotRemapped
                }
            },
    {
        proof {
            use_type_invariant(&*self);
        }
        if line >= 16 {
            return Err(ControllerError::InvalidLine);
        }
        match self.phase {
            ControllerPhase::Masked | ControllerPhase::Active => {},
            _ => {
                return Err(ControllerError::NotRemapped);
            },
        }
        let bit: u8 = 1u8 << (line % 8);
        let mut master_mask: u8 = self.master.mask;
        let mut slave_mask: u8 = self.slave.mask;
        if line < 8 {
            master_mask = if enable {
                master_mask & !bit
            } else {
                master_mask | bit
            };
        } else {
            slave_mask = if enable {
                slave_mask & !bit
            } else {
                slave_mask | bit
            };
        }
        let phase = if master_mask == MASK_ALL && slave_mask == MASK_ALL {
            ControllerPhase::Masked
        } else {
            ControllerPhase::Active
        };
        let op = if line < 8 {
            PortOp::Write { port: self.master.data_port, value: master_mask }
        } else {
            PortOp::Write { port: self.slave.data_port, value: slave_mask }
        };
        *self = ControllerState {
            phase,
            master: Controller {
                command_port: self.master.command_port,
                data_port: self.master.data_port,
                mask: master_mask,
            },
            slave: Controller {
                command_port: self.slave.command_port,
                data_port: self.slave.data_port,
                mask: slave_mask,
            },
            master_offset: self.master_offset,
            slave_offset: self.slave_offset,
        };
        Ok(op)
    }

    /// Enables `line` and leaves every other line as it is.
    ///
    /// Succeeds exactly when `line` is below 16 and the controllers are in the
    /// masked or the active phase. The result is the mask write for the
    /// controller that owns the line; afterwards the pair is active.
    pub fn unmask_line(&mut self, line: u8) -> (result: Result<PortOp, ControllerError>)
        ensures
            result is Ok <==> line < 16 && (old(self)@.phase == ControllerPhase::Masked || old(
                self,
            )@.phase == ControllerPhase::Active),
            result matches Ok(op) ==> {
                &&& final(self)@ == with_line_set(old(self)@, line, true)
                &&& op == line_set_op(old(self)@, line, true)
                &&& final(self)@.phase == ControllerPhase::Active
            },
            result matches Err(error) ==> {
                &&& final(self)@ == old(self)@
                &&& error == if line >= 16 {
                    ControllerError::InvalidLine
                } else {
                    ControllerError::NotRemapped
                }
            },
    {
        let ghost before = self@;
        let result = self.set_line(line, true);
        proof {
            if result is Ok {
                let bit = (line % 8) as u8;
                let mask = if line < 8 {
                    before.master.mask
                } else {
                    before.slave.mask
                };
                assert(mask & !(1u8 << bit) != 0xFFu8) by (bit_vector)
                    requires
                        bit < 8,
                ;
            }
        }
        result
    }

    /// Disables `line` and leaves every other line as it is.
    ///
    /// Succeeds exactly when `line` is below 16 and the controllers are in the
    /// masked or the active phase. The result is the mask write for the
    /// controller that owns the line; afterwards the pair is masked if no line
    /// is left enabled, and active otherwise.
    pub fn mask_line(&mut self, line: u8) -> (result: Result<PortOp, ControllerError>)
        ensures
            result is Ok <==> line < 16 && (old(self)@.phase == ControllerPhase::Masked || old(
                self,
            )@.phase == ControllerPhase::Active),
            result matches Ok(op) ==> {
                &&& final(self)@ == with_line_set(old(self)@, line, false)
                &&& op == line_set_op(old(self)@, line, false)
            },
            result matches Err(error) ==> {
                &&& final(self)@ == old(self)@
                &&& error == if line >= 16 {
                    ControllerError::InvalidLine
                } else {
                    ControllerError::NotRemapped
                }
            },
    {
        self.set_line(line, false)
    }
}

/// The delay that real hardware needs between two controller writes: a read
/// from the unused port.
pub fn io_wait() -> (op: PortOp)
    ensures
        op == wait_op(),
{
    PortOp::Read { port: WAIT_PORT }
}

/// The acknowledgments to send once the handler for `vector_number` has done
/// its work.
///
/// The master is always acknowledged. A vector of the cascaded controller, 40
/// or above, is acknowledged to the slave first. Nothing is allocated, so the
/// handler itself can ask for its acknowledgment.
pub fn end_of_interrupt(vector_number: u8) -> (ops: PortOps)
    ensures
        ops@ == eoi_script(vector_number),
        vector_number >= PIC_2_OFFSET ==> ops@ == seq![
            PortOp::Write { port: PIC2_COMMAND, value: PIC_EOI },
            PortOp::Write { port: PIC1_COMMAND, value: PIC_EOI },
        ],
        vector_number < PIC_2_OFFSET ==> ops@ == seq![
            PortOp::Write { port: PIC1_COMMAND, value: PIC_EOI },
        ],
{
    if vector_number >= PIC_2_OFFSET {
        PortOps::two(
            PortOp::Write { port: PIC2_COMMAND, value: PIC_EOI },
            PortOp::Write { port: PIC1_COMMAND, value: PIC_EOI },
        )
    } else {
        PortOps::one(PortOp::Write { port: PIC1_COMMAND, value: PIC_EOI })
    }
}

/// The state and the port accesses of [`init_pic`].
pub open spec fn init_pic_view() -> ControllerView {
    ControllerView {
        phase: ControllerPhase::Masked,
        master_offset: PIC_1_OFFSET,
        slave_offset: PIC_2_OFFSET,
        ..initial_view()
    }
}

/// Remaps the controllers to the kernel's offsets, 32 and 40, and leaves every
/// line masked.
///
/// Returns the state of the pair afterwards and the port accesses that bring
/// the hardware there: the initialization sequence, then the two mask writes.
pub fn init_pic() -> (result: (ControllerState, Vec<PortOp>))
    ensures
        result.0@ == init_pic_view(),
        result.1@ == remap_script(PIC_1_OFFSET, PIC_2_OFFSET) + mask_all_script(),
{
    let mut state = ControllerState::new();
    let mut ops: Vec<PortOp> = Vec::new();
    match state.remap(PIC_1_OFFSET, PIC_2_OFFSET) {
        Ok(mut remap) => {
            ops.append(&mut remap);
        },
        Err(_) => {},
    }
    match state.mask_all() {
        Ok(mut masks) => {
            ops.append(&mut masks);
        },
        Err(_) => {},
    }
    (state, ops)
}

/// The state that [`init_pics`] leaves: remapped, timer and keyboard enabled.
pub open spec fn init_pics_view() -> ControllerView {
    ControllerView {
        phase: ControllerPhase::Active,
        master: Controller { mask: 0xFC, ..initial_view().master },
        master_offset: PIC_1_OFFSET,
        slave_offset: PIC_2_OFFSET,
        ..initial_view()
    }
}

/// The two mask writes with which [`init_pics`] enables timer and keyboard.
pub open spec fn enable_devices_script() -> Seq<PortOp> {
    seq![
        PortOp::Write { port: PIC1_DATA, value: 0xFE },
        PortOp::Write { port: PIC1_DATA, value: 0xFC },
    ]
}

/// Brings the controllers up for the kernel: remaps them to 32 and 40, masks
/// every line, then enables line 0, the timer, and line 1, the keyboard.
///
/// Afterwards the master's mask byte is `0b1111_1100` and the slave's is
/// `0b1111_1111`.
pub fn init_pics() -> (result: (ControllerState, Vec<PortOp>))
    ensures
        result.0@ == init_pics_view(),
        result.0@.master.mask == 0b1111_1100,
        result.0@.slave.mask == 0b1111_1111,
        result.1@ == remap_script(PIC_1_OFFSET, PIC_2_OFFSET) + mask_all_script()
            + enable_devices_script(),
{
    let (mut state, mut ops) = init_pic();
    proof {
        assert(0xFFu8 & !(1u8 << 0u8) == 0xFEu8) by (bit_vector);
        assert(0xFEu8 & !(1u8 << 1u8) == 0xFCu8) by (bit_vector);
    }
    match state.unmask_line(0) {
        Ok(op) => {
            ops.push(op);
        },
        Err(_) => {},
    }
    match state.unmask_line(1) {
        Ok(op) => {
            ops.push(op);
        },
        Err(_) => {},
    }
    assert(ops@ =~= remap_script(PIC_1_OFFSET, PIC_2_OFFSET) + mask_all_script()
        + enable_devices_script());
    (state, ops)
}

} // verus!

//! Port accesses as values.
//!
//! The library never touches a port. Where hardware has to be programmed it
//! returns the accesses to make, and its caller makes them in the order given.

use vstd::prelude::*;
use vstd::slice::slice_subrange;

verus! {

/// One port access for the caller to perform.
#[derive(Clone, Copy, PartialEq, Eq, Debug, Structural)]
pub enum PortOp {
    /// Write the byte `value` to `port`.
    Write { port: u16, value: u8 },
    /// Write the 16-bit `word` to `port`.
    WriteWord { port: u16, word: u16 },
    /// Read one byte from `port` and discard it.
    Read { port: u16 },
}

/// A short run of port accesses that needs no allocation, so that an
/// interrupt handler can produce and perform it.
pub struct PortOps {
    ops: [PortOp; 2],
    count: usize,
}

impl View for PortOps {
    type V = Seq<PortOp>;

    /// The accesses, in the order in which they are to be performed.
    closed spec fn view(&self) -> Seq<PortOp> {
        self.ops@.take(self.count as int)
    }
}

impl PortOps {
    #[verifier::type_invariant]
    spec fn well_formed(&self) -> bool {
        self.count <= 2
    }

    /// A run of one access.
    pub fn one(first: PortOp) -> (run: Self)
        ensures
            run@ == seq![first],
    {
        let run = PortOps { ops: [first, first], count: 1 };
        assert(run@ =~= seq![first]);
        run
    }

    /// A run of two accesses.
    pub fn two(first: PortOp, second: PortOp) -> (run: Self)
        ensures
            run@ == seq![first, second],
    {
        let run = PortOps { ops: [first, second], count: 2 };
        assert(run@ =~= seq![first, second]);
        run
    }

    /// The number of accesses.
    pub fn len(&self) -> (count: usize)
        ensures
            count == self@.len(),
            count <= 2,
    {
        proof {
            use_type_invariant(self);
        }
        self.count
    }

    /// The accesses, in the order in which they are to be performed.
    pub fn as_slice(&self) -> (ops: &[PortOp])
        ensures
            ops@ == self@,
    {
        proof {
            use_type_invariant(self);
        }
        slice_subrange(self.ops.as_slice(), 0, self.count)
    }
}

} // verus!

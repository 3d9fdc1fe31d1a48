//! Bus operations: the ordered accesses a driver performs on a device's register file.
//!
//! Drivers in this crate never touch memory-mapped I/O themselves. Each keeps a model of
//! the registers it owns and appends every access it makes to a journal of `BusOp`s, in
//! program order; the platform layer performs them as volatile accesses, in that order.
use vstd::prelude::*;

verus! {

/// One access to a memory-mapped register, at a byte offset from the device's base.
#[derive(Clone, Copy, Debug, PartialEq, Eq, Structural)]
pub enum BusOp {
    /// Volatile store of `value` at `offset`.
    Write { offset: u32, value: u32 },
    /// Spin, re-reading the register at `offset`, until every bit of `mask` reads as 0.
    WaitClear { offset: u32, mask: u32 },
    /// Busy-wait for the given number of microseconds.
    DelayMicros { micros: u32 },
}

/// Hands out the journal and leaves it empty.
pub fn drain(ops: &mut Vec<BusOp>) -> (r: Vec<BusOp>)
    ensures
        r@ == old(ops)@,
        final(ops)@ == Seq::<BusOp>::empty(),
{
    let mut out: Vec<BusOp> = Vec::new();
    std::mem::swap(ops, &mut out);
    out
}

} // verus!

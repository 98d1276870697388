//! The interface between the memory bus and the emulated devices on it.

use vstd::prelude::*;

verus! {

/// A block of memory-mapped registers.
///
/// An access never fails from the guest's point of view: a read always gives
/// a value and a write always returns.
pub trait Mmio {
    /// The number of bytes that the block covers.
    fn size(&self) -> usize;

    /// Reads `size` bytes at `offset`.
    fn read(&self, offset: usize, size: u8) -> u64;

    /// Writes the low `size` bytes of `val` at `offset`.
    fn write(&mut self, offset: usize, size: u8, val: u64);
}

} // verus!

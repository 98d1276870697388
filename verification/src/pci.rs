//! PCI configuration space of an emulated function.

use vstd::prelude::*;

pub mod cap;
pub mod config;
pub mod flags;

verus! {

/// The address of a function on the bus: bus number, device number and
/// function number packed into 16 bits.
#[derive(Clone, Copy, Debug, PartialEq, Eq, Structural)]
pub struct Bdf(pub u16);

/// What stands behind one base address register.
#[derive(Clone, Copy, Debug, PartialEq, Eq, Structural)]
pub enum PciBar {
    /// The register is not used.
    Empty,
    /// A window in 32-bit memory space.
    Mem32 { size: u64 },
    /// A window in 64-bit memory space.
    Mem64 { size: u64 },
    /// A window in I/O port space.
    Io { size: u64 },
}

} // verus!

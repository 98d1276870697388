//! The interface to the hypervisor that runs the guest.

use vstd::prelude::*;

pub mod fake;

verus! {

/// A failure in the hypervisor layer.
#[derive(Clone, Debug, PartialEq, Eq)]
pub enum Error {
    /// The hypervisor lacks a capability.
    LackCap { cap: String },
    /// The host refused a request, with this error number.
    OsApi { errno: i32 },
}

/// How a range of host memory is mapped into the guest.
#[derive(Clone, Copy, Debug, PartialEq, Eq, Structural)]
pub struct MemMapOption {
    pub read: bool,
    pub write: bool,
    pub execute: bool,
    pub log_dirty: bool,
}

/// The guest physical memory of a virtual machine.
pub trait VmMemory {
    /// Maps `size` bytes of host memory at `hva` to the guest physical
    /// address `gpa`, in the given slot.
    fn mem_map(&self, slot: u32, gpa: usize, size: usize, hva: usize, option: MemMapOption) -> Result<
        (),
        Error,
    >;

    /// Removes the mapping of the given slot.
    fn unmap(&self, slot: u32, gpa: usize, size: usize) -> Result<(), Error>;

    /// The number of slots that the hypervisor offers.
    fn max_mem_slots(&self) -> Result<u32, Error>;
}

/// What a virtual CPU is told when it enters the guest.
#[derive(Clone, Copy, Debug, PartialEq, Eq, Structural)]
pub enum VmEntry {
    /// Resume the guest with no pending event.
    Resume,
    /// Ask the guest to shut down.
    Shutdown,
    /// Complete a port read with this data.
    Io { data: u32 },
    /// Complete a memory-mapped read with this data.
    Mmio { data: u64 },
}

/// Why a virtual CPU left the guest.
#[derive(Clone, Debug, PartialEq, Eq)]
pub enum VmExit {
    /// The guest accessed an I/O port; a write carries its data.
    Io { port: u16, write: Option<u32>, size: u8 },
    /// The guest accessed memory-mapped I/O; a write carries its data.
    Mmio { addr: usize, write: Option<u64>, size: u8 },
    /// The guest asked to shut down.
    Shutdown,
    /// The virtual CPU was interrupted without a reason of the guest's.
    Interrupted,
    /// An exit that the hypervisor layer does not know, with its description.
    Unknown(String),
}

/// A virtual CPU.
pub trait Vcpu {
    /// Enters the guest and returns when it exits.
    fn run(&mut self, entry: VmEntry) -> Result<VmExit, Error>;
}

/// A virtual machine.
pub trait Vm {
    type Vcpu: Vcpu;

    /// Creates the virtual CPU with the given index.
    fn create_vcpu(&self, id: u32) -> Result<Self::Vcpu, Error>;
}

} // verus!

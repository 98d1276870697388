//! Execution core of a virtual machine monitor: the PCI configuration-space
//! register model shared by every emulated function, the dispatch of guest
//! exits, and the life cycle of the virtual CPUs of a multi-processor guest.

pub mod arch;
pub mod bits;
pub mod board;
pub mod endian;
pub mod hv;
pub mod loader;
pub mod mem;
pub mod pci;

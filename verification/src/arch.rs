//! The layout of guest physical memory below 1 MiB.

use vstd::prelude::*;

verus! {

/// The first byte of the extended BIOS data area, where firmware tables go.
pub const EBDA_START: usize = 0x8_0000;

/// The first byte after the extended BIOS data area.
pub const EBDA_END: usize = 0xA_0000;

} // verus!

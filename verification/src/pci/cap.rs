//! The capability list of an emulated function.

use vstd::prelude::*;
use crate::mem::Mmio;

verus! {

/// The ordered list of capabilities of a function, which answers every
/// access to configuration space beyond the header.
pub trait PciCapList: Mmio {
    /// Whether the function has no capability.
    fn is_empty(&self) -> bool;
}

} // verus!

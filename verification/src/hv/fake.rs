//! A stand-in for guest memory that maps nothing.

use vstd::prelude::*;
use crate::hv::{Error, MemMapOption, VmMemory};

verus! {

/// Guest memory that accepts every mapping and keeps none.
#[derive(Clone, Copy, Debug, PartialEq, Eq, Structural)]
pub struct FakeVmMemory;

impl VmMemory for FakeVmMemory {
    fn mem_map(&self, _slot: u32, _gpa: usize, _size: usize, _hva: usize, _option: MemMapOption) -> (r:
        Result<(), Error>)
        ensures
            r == Ok::<(), Error>(()),
    {
        Ok(())
    }

    fn unmap(&self, _slot: u32, _gpa: usize, _size: usize) -> (r: Result<(), Error>)
        ensures
            r == Ok::<(), Error>(()),
    {
        Ok(())
    }

    fn max_mem_slots(&self) -> (r: Result<u32, Error>)
        ensures
            r matches Err(Error::LackCap { cap }) && cap@ == "MaxMemSlots"@,
    {
        Err(Error::LackCap { cap: "MaxMemSlots".to_string() })
    }
}

} // verus!

//! The Command and Status registers of the PCI configuration header.
//!
//! Both are 16-bit sets of flags. A guest may change the Command register
//! only within its writable bits. In the Status register a guest can only
//! clear the sticky error bits, by writing a one to them.

use vstd::prelude::*;
use crate::bits::{cleared16, clear_bits_u16, mask_bits_u16, masked16};

verus! {

/// The Command register, at offset 0x04.
#[derive(Clone, Copy, Debug, PartialEq, Eq, Structural)]
pub struct Command {
    pub bits: u16,
}

impl Command {
    /// INTx emulation interrupts are disabled.
    pub const INTX_DISABLE: u16 = 1 << 10;

    /// SERR# reporting is enabled.
    pub const SERR: u16 = 1 << 8;

    /// The function responds to parity errors.
    pub const PARITY_ERR: u16 = 1 << 6;

    /// The function may act as a bus master.
    pub const BUS_MASTER: u16 = 1 << 2;

    /// The function decodes memory space accesses.
    pub const MEM: u16 = 1 << 1;

    /// The function decodes I/O space accesses.
    pub const IO: u16 = 1 << 0;

    /// The bits that a guest write can change.
    pub const WRITABLE_BITS: u16 = Command::INTX_DISABLE | Command::SERR | Command::PARITY_ERR
        | Command::BUS_MASTER | Command::MEM | Command::IO;

    /// The register's value.
    pub open spec fn view(&self) -> u16 {
        self.bits
    }

    /// The register with no bit set.
    pub fn empty() -> (r: Command)
        ensures
            r@ == 0,
    {
        Command { bits: 0 }
    }

    /// The register that holds exactly `bits`, known flags or not.
    pub fn from_bits_retain(bits: u16) -> (r: Command)
        ensures
            r@ == bits,
    {
        Command { bits }
    }

    /// The register's value.
    pub fn bits(&self) -> (r: u16)
        ensures
            r == self@,
    {
        self.bits
    }

    /// Whether every bit of `other` is set in `self`.
    pub fn contains(&self, other: Command) -> (r: bool)
        ensures
            r == (self@ & other@ == other@),
    {
        self.bits & other.bits == other.bits
    }

    /// The bits set in either register.
    pub fn union(self, other: Command) -> (r: Command)
        ensures
            r@ == self@ | other@,
    {
        Command { bits: self.bits | other.bits }
    }

    /// The bits set in both registers.
    pub fn intersection(self, other: Command) -> (r: Command)
        ensures
            r@ == self@ & other@,
    {
        Command { bits: self.bits & other.bits }
    }

    /// The bits of `self` that are not set in `other`.
    pub fn difference(self, other: Command) -> (r: Command)
        ensures
            r@ == self@ & !other@,
    {
        Command { bits: self.bits & !other.bits }
    }

    /// The register after the guest writes `val` to it: the writable bits are
    /// those of `val`, every other bit keeps its value.
    pub fn guest_write(self, val: Command) -> (r: Command)
        ensures
            r@ == masked16(self@, val@, Command::WRITABLE_BITS),
            r@ & !Command::WRITABLE_BITS == self@ & !Command::WRITABLE_BITS,
            r@ & Command::WRITABLE_BITS == val@ & Command::WRITABLE_BITS,
    {
        Command { bits: mask_bits_u16(self.bits, val.bits, Command::WRITABLE_BITS) }
    }
}

impl Default for Command {
    fn default() -> (r: Command)
        ensures
            r@ == 0,
    {
        Command { bits: 0 }
    }
}

/// The Status register, at offset 0x06.
#[derive(Clone, Copy, Debug, PartialEq, Eq, Structural)]
pub struct Status {
    pub bits: u16,
}

impl Status {
    /// A parity error was detected.
    pub const PARITY_ERR: u16 = 1 << 15;

    /// The function signalled a system error.
    pub const SYSTEM_ERR: u16 = 1 << 14;

    /// A transaction of the function ended in a master abort.
    pub const RECEIVED_MASTER_ABORT: u16 = 1 << 13;

    /// A transaction of the function ended in a target abort.
    pub const RECEIVED_TARGET_ABORT: u16 = 1 << 12;

    /// The function ended a transaction with a target abort.
    pub const SIGNALED_TARGET_ABORT: u16 = 1 << 11;

    /// The function, as bus master, saw a parity error.
    pub const MASTER_PARITY_ERR: u16 = 1 << 8;

    /// The function has a capability list.
    pub const CAP: u16 = 1 << 4;

    /// An INTx interrupt is pending.
    pub const INTX: u16 = 1 << 3;

    /// The function is ready right after reset.
    pub const IMMEDIATE_READINESS: u16 = 1 << 0;

    /// The sticky error bits, which a guest clears by writing a one.
    pub const RW1C_BITS: u16 = Status::PARITY_ERR | Status::SYSTEM_ERR
        | Status::RECEIVED_MASTER_ABORT | Status::RECEIVED_TARGET_ABORT
        | Status::SIGNALED_TARGET_ABORT | Status::MASTER_PARITY_ERR;

    /// The register's value.
    pub open spec fn view(&self) -> u16 {
        self.bits
    }

    /// The register with no bit set.
    pub fn empty() -> (r: Status)
        ensures
            r@ == 0,
    {
        Status { bits: 0 }
    }

    /// The register that holds exactly `bits`, known flags or not.
    pub fn from_bits_retain(bits: u16) -> (r: Status)
        ensures
            r@ == bits,
    {
        Status { bits }
    }

    /// The register's value.
    pub fn bits(&self) -> (r: u16)
        ensures
            r == self@,
    {
        self.bits
    }

    /// Whether every bit of `other` is set in `self`.
    pub fn contains(&self, other: Status) -> (r: bool)
        ensures
            r == (self@ & other@ == other@),
    {
        self.bits & other.bits == other.bits
    }

    /// The bits set in either register.
    pub fn union(self, other: Status) -> (r: Status)
        ensures
            r@ == self@ | other@,
    {
        Status { bits: self.bits | other.bits }
    }

    /// The bits set in both registers.
    pub fn intersection(self, other: Status) -> (r: Status)
        ensures
            r@ == self@ & other@,
    {
        Status { bits: self.bits & other.bits }
    }

    /// The bits of `self` that are not set in `other`.
    pub fn difference(self, other: Status) -> (r: Status)
        ensures
            r@ == self@ & !other@,
    {
        Status { bits: self.bits & !other.bits }
    }

    /// The register after the guest writes `val` to it: a sticky error bit
    /// written as one is cleared, every other bit keeps its value.
    pub fn guest_write(self, val: Status) -> (r: Status)
        ensures
            r@ == cleared16(self@, val@, Status::RW1C_BITS),
            r@ & !Status::RW1C_BITS == self@ & !Status::RW1C_BITS,
            r@ & Status::RW1C_BITS & val@ == 0,
            r@ & Status::RW1C_BITS & !val@ == self@ & Status::RW1C_BITS & !val@,
    {
        Status { bits: clear_bits_u16(self.bits, val.bits, Status::RW1C_BITS) }
    }
}

impl Default for Status {
    fn default() -> (r: Status)
        ensures
            r@ == 0,
    {
        Status { bits: 0 }
    }
}

/// The masks are the flags they are made of: the writable Command bits are
/// 0x0547 and the sticky Status bits are 0xf900, and the capability flag
/// is not among the sticky bits.
pub proof fn lemma_register_masks()
    ensures
        Command::WRITABLE_BITS == 0x0547,
        Status::RW1C_BITS == 0xf900,
        Status::CAP == 0x0010,
        Status::CAP & Status::RW1C_BITS == 0,
{
    assert(Command::WRITABLE_BITS == 0x0547 && Status::RW1C_BITS == 0xf900 && Status::CAP
        == 0x0010 && Status::CAP & Status::RW1C_BITS == 0) by (bit_vector);
}

} // verus!

//! Masked register updates.
//!
//! A guest write to a partially writable register replaces the bits selected
//! by a mask and keeps every other bit.

use vstd::prelude::*;

verus! {

/// The 16-bit register value after writing `new` through `mask` onto `old`.
pub open spec fn masked16(old: u16, new: u16, mask: u16) -> u16 {
    (old & !mask) | (new & mask)
}

/// The 32-bit register value after writing `new` through `mask` onto `old`.
pub open spec fn masked32(old: u32, new: u32, mask: u32) -> u32 {
    (old & !mask) | (new & mask)
}

/// The 16-bit register value after a write-1-to-clear access with `new`, where
/// `mask` selects the sticky bits.
pub open spec fn cleared16(old: u16, new: u16, mask: u16) -> u16 {
    old & !(new & mask)
}

/// Writes `new` through `mask` onto `old`.
pub fn mask_bits_u16(old: u16, new: u16, mask: u16) -> (r: u16)
    ensures
        r == masked16(old, new, mask),
        r & !mask == old & !mask,
        r & mask == new & mask,
{
    proof {
        lemma_masked16(old, new, mask);
    }
    (old & !mask) | (new & mask)
}

/// Writes `new` through `mask` onto `old`.
pub fn mask_bits_u32(old: u32, new: u32, mask: u32) -> (r: u32)
    ensures
        r == masked32(old, new, mask),
        r & !mask == old & !mask,
        r & mask == new & mask,
{
    proof {
        lemma_masked32(old, new, mask);
    }
    (old & !mask) | (new & mask)
}

/// Clears in `old` the bits of `mask` to which `new` writes a one.
pub fn clear_bits_u16(old: u16, new: u16, mask: u16) -> (r: u16)
    ensures
        r == cleared16(old, new, mask),
        r & !mask == old & !mask,
        r & mask & new == 0,
        r & mask & !new == old & mask & !new,
{
    proof {
        lemma_cleared16(old, new, mask);
    }
    old & !(new & mask)
}

/// A masked write keeps the bits outside the mask and takes the bits inside
/// it from the written value.
pub proof fn lemma_masked16(old: u16, new: u16, mask: u16)
    ensures
        masked16(old, new, mask) & !mask == old & !mask,
        masked16(old, new, mask) & mask == new & mask,
{
    assert({
        let r = (old & !mask) | (new & mask);
        &&& r & !mask == old & !mask
        &&& r & mask == new & mask
    }) by (bit_vector);
}

/// A masked write keeps the bits outside the mask and takes the bits inside
/// it from the written value. With every bit in the mask the write replaces
/// the register; with none it changes nothing.
pub proof fn lemma_masked32(old: u32, new: u32, mask: u32)
    ensures
        masked32(old, new, mask) & !mask == old & !mask,
        masked32(old, new, mask) & mask == new & mask,
        mask == 0xffff_ffffu32 ==> masked32(old, new, mask) == new,
        mask == 0 ==> masked32(old, new, mask) == old,
{
    assert({
        let r = (old & !mask) | (new & mask);
        &&& r & !mask == old & !mask
        &&& r & mask == new & mask
        &&& mask == 0xffff_ffffu32 ==> r == new
        &&& mask == 0 ==> r == old
    }) by (bit_vector);
}

/// A write-1-to-clear access clears exactly the sticky bits that are written
/// as one: every bit of the result is the old bit, except that a sticky bit
/// written as one is zero.
pub proof fn lemma_cleared16(old: u16, new: u16, mask: u16)
    ensures
        cleared16(old, new, mask) & !mask == old & !mask,
        cleared16(old, new, mask) & mask & new == 0,
        cleared16(old, new, mask) & mask & !new == old & mask & !new,
{
    assert({
        let r = old & !(new & mask);
        &&& r & !mask == old & !mask
        &&& r & mask & new == 0
        &&& r & mask & !new == old & mask & !new
    }) by (bit_vector);
}

} // verus!

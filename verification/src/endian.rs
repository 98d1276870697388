//! Little-endian encoding of the multi-byte registers.
//!
//! Configuration space is a flat buffer of bytes in which every multi-byte
//! register is stored with its least significant byte first.

use vstd::prelude::*;
use vstd::slice::slice_subrange;
use zerocopy::byteorder::{LittleEndian, U16, U32, U64};
use zerocopy::FromBytes;

verus! {

/// Byte `k` of the encoding of a 16-bit register.
pub open spec fn byte_of16(v: u16, k: int) -> u8 {
    if k == 0 {
        v as u8
    } else {
        (v >> 8) as u8
    }
}

/// Byte `k` of the encoding of a 32-bit register.
pub open spec fn byte_of32(v: u32, k: int) -> u8 {
    if k == 0 {
        v as u8
    } else if k == 1 {
        (v >> 8) as u8
    } else if k == 2 {
        (v >> 16) as u8
    } else {
        (v >> 24) as u8
    }
}

/// The 16-bit value that two bytes encode.
pub open spec fn le16(b0: u8, b1: u8) -> u16 {
    (b0 as u16) | ((b1 as u16) << 8)
}

/// The 32-bit value that four bytes encode.
pub open spec fn le32(b0: u8, b1: u8, b2: u8, b3: u8) -> u32 {
    (b0 as u32) | ((b1 as u32) << 8) | ((b2 as u32) << 16) | ((b3 as u32) << 24)
}

/// The 16-bit value encoded at offset `i` of a buffer.
pub open spec fn le16_at(b: Seq<u8>, i: int) -> u16
    recommends
        0 <= i && i + 2 <= b.len(),
{
    le16(b[i], b[i + 1])
}

/// The 32-bit value encoded at offset `i` of a buffer.
pub open spec fn le32_at(b: Seq<u8>, i: int) -> u32
    recommends
        0 <= i && i + 4 <= b.len(),
{
    le32(b[i], b[i + 1], b[i + 2], b[i + 3])
}

/// The 64-bit value encoded at offset `i` of a buffer.
pub open spec fn le64_at(b: Seq<u8>, i: int) -> u64
    recommends
        0 <= i && i + 8 <= b.len(),
{
    (le32_at(b, i) as u64) | ((le32_at(b, i + 4) as u64) << 32)
}

/// What a read of `size` bytes at `offset` finds in a buffer: the value
/// encoded there for a size of 1, 2, 4 or 8 bytes that the buffer holds in
/// full, and zero for every other access.
pub open spec fn read_le(b: Seq<u8>, offset: int, size: u8) -> u64 {
    if size == 1 && offset + 1 <= b.len() {
        b[offset] as u64
    } else if size == 2 && offset + 2 <= b.len() {
        le16_at(b, offset) as u64
    } else if size == 4 && offset + 4 <= b.len() {
        le32_at(b, offset) as u64
    } else if size == 8 && offset + 8 <= b.len() {
        le64_at(b, offset)
    } else {
        0
    }
}

/// Byte `k` of a 16-bit register, for `k` below 2.
pub(crate) fn byte16(v: u16, k: usize) -> (r: u8)
    requires
        k < 2,
    ensures
        r == byte_of16(v, k as int),
{
    if k == 0 {
        #[verifier::truncate]
        (v as u8)
    } else {
        #[verifier::truncate]
        ((v >> 8) as u8)
    }
}

/// Byte `k` of a 32-bit register, for `k` below 4.
pub(crate) fn byte32(v: u32, k: usize) -> (r: u8)
    requires
        k < 4,
    ensures
        r == byte_of32(v, k as int),
{
    if k == 0 {
        #[verifier::truncate]
        (v as u8)
    } else if k == 1 {
        #[verifier::truncate]
        ((v >> 8) as u8)
    } else if k == 2 {
        #[verifier::truncate]
        ((v >> 16) as u8)
    } else {
        #[verifier::truncate]
        ((v >> 24) as u8)
    }
}

/// Decoding the bytes of a register gives the register back.
pub proof fn lemma_round_trip(h: u16, w: u32)
    ensures
        le16(byte_of16(h, 0), byte_of16(h, 1)) == h,
        le32(byte_of32(w, 0), byte_of32(w, 1), byte_of32(w, 2), byte_of32(w, 3)) == w,
{
    assert(((h as u8) as u16) | ((((h >> 8) as u8) as u16) << 8) == h) by (bit_vector);
    assert(((w as u8) as u32) | ((((w >> 8) as u8) as u32) << 8) | ((((w >> 16) as u8) as u32)
        << 16) | ((((w >> 24) as u8) as u32) << 24) == w) by (bit_vector);
}

/// Calls `FromBytes::read_from_prefix` of zerocopy for its little-endian
/// `U16` and takes the number out with `U16::get`. Believed of the two: the
/// result is `None` when fewer than two bytes are given, and otherwise the
/// number that the first two bytes encode, least significant byte first.
#[verifier::external_body]
fn read_u16(bytes: &[u8]) -> (r: Option<u16>)
    ensures
        r == (if bytes@.len() >= 2 {
            Some(le16_at(bytes@, 0))
        } else {
            None
        }),
{
    U16::<LittleEndian>::read_from_prefix(bytes).map(|v| v.get())
}

/// Calls `FromBytes::read_from_prefix` of zerocopy for its little-endian
/// `U32` and takes the number out with `U32::get`. Believed of the two: the
/// result is `None` when fewer than four bytes are given, and otherwise the
/// number that the first four bytes encode, least significant byte first.
#[verifier::external_body]
fn read_u32(bytes: &[u8]) -> (r: Option<u32>)
    ensures
        r == (if bytes@.len() >= 4 {
            Some(le32_at(bytes@, 0))
        } else {
            None
        }),
{
    U32::<LittleEndian>::read_from_prefix(bytes).map(|v| v.get())
}

/// Calls `FromBytes::read_from_prefix` of zerocopy for its little-endian
/// `U64` and takes the number out with `U64::get`. Believed of the two: the
/// result is `None` when fewer than eight bytes are given, and otherwise the
/// number that the first eight bytes encode, least significant byte first.
#[verifier::external_body]
fn read_u64(bytes: &[u8]) -> (r: Option<u64>)
    ensures
        r == (if bytes@.len() >= 8 {
            Some(le64_at(bytes@, 0))
        } else {
            None
        }),
{
    U64::<LittleEndian>::read_from_prefix(bytes).map(|v| v.get())
}

/// Reads `size` bytes at `offset` of a buffer. An access of another size
/// than 1, 2, 4 or 8 bytes, or one that runs past the end of the buffer,
/// reads zero.
pub fn read_at(bytes: &[u8], offset: usize, size: u8) -> (r: u64)
    ensures
        r == read_le(bytes@, offset as int, size),
{
    if offset >= bytes.len() {
        return 0;
    }
    let tail = slice_subrange(bytes, offset, bytes.len());
    match size {
        1 => bytes[offset] as u64,
        2 => match read_u16(tail) {
            Some(v) => v as u64,
            None => 0,
        },
        4 => match read_u32(tail) {
            Some(v) => v as u64,
            None => 0,
        },
        8 => match read_u64(tail) {
            Some(v) => v,
            None => 0,
        },
        _ => 0,
    }
}

} // verus!

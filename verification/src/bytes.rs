//! Little-endian reads from byte buffers.

use vstd::prelude::*;

verus! {

/// Little-endian value of the two bytes of `s` starting at `i`.
pub open spec fn le16(s: Seq<u8>, i: int) -> int {
    s[i] + 0x100 * s[i + 1]
}

/// Little-endian value of the four bytes of `s` starting at `i`.
pub open spec fn le32(s: Seq<u8>, i: int) -> int {
    s[i] + 0x100 * s[i + 1] + 0x10000 * s[i + 2] + 0x1000000 * s[i + 3]
}

/// The four bytes of `s` starting at `i`, read as a little-endian two's
/// complement 32-bit signed value.
pub open spec fn le32_signed(s: Seq<u8>, i: int) -> int {
    if le32(s, i) >= 0x8000_0000 {
        le32(s, i) - 0x1_0000_0000
    } else {
        le32(s, i)
    }
}

/// Reads a little-endian `u16` from `data` at offset `i`.
pub fn read_u16_le(data: &[u8], i: usize) -> (r: u16)
    requires
        i + 2 <= data@.len(),
    ensures
        r == le16(data@, i as int),
{
    let b0 = data[i] as u16;
    let b1 = data[i + 1] as u16;
    b0 + b1 * 0x100
}

/// Reads a little-endian `u32` from `data` at offset `i`.
pub fn read_u32_le(data: &[u8], i: usize) -> (r: u32)
    requires
        i + 4 <= data@.len(),
    ensures
        r == le32(data@, i as int),
{
    let b0 = data[i] as u32;
    let b1 = data[i + 1] as u32;
    let b2 = data[i + 2] as u32;
    let b3 = data[i + 3] as u32;
    b0 + b1 * 0x100 + b2 * 0x10000 + b3 * 0x1000000
}

/// Reads a little-endian `i32` from `data` at offset `i`: the unaligned,
/// narrower-than-pointer signed load used on displacement fields inside
/// instruction bytes.
pub fn read_i32_le(data: &[u8], i: usize) -> (r: i32)
    requires
        i + 4 <= data@.len(),
    ensures
        r as int == le32_signed(data@, i as int),
{
    let u = read_u32_le(data, i);
    if u >= 0x8000_0000 {
        -((0xFFFF_FFFFu32 - u) as i32) - 1
    } else {
        u as i32
    }
}

} // verus!

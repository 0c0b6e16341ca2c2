//! Relative-address resolution at a match site.
//!
//! A match offset names the site of a known instruction sequence.  The
//! resolver reads the 32-bit signed displacement planted at a fixed field
//! offset inside those instruction bytes (an unaligned, narrower-than-
//! pointer load), and adds it, together with a second fixed constant, to
//! the site's absolute address.  The result is the absolute address of the
//! pointer slot that holds the handle to global state; the single
//! dereference of that slot is left to the embedding layer, since it reads
//! live process memory rather than the scanned bytes.

use vstd::prelude::*;
use crate::bytes::{le32_signed, read_i32_le};

verus! {

/// The documented resolution formula: with `site = base + o`, the resolved
/// address is `site + extra_offset + displacement`, where the displacement
/// is the little-endian signed 32-bit value at `site + field_offset`.
pub open spec fn resolved_target(
    data: Seq<u8>,
    base: int,
    o: int,
    field_offset: int,
    extra_offset: int,
) -> int {
    base + o + extra_offset + le32_signed(data, o + field_offset)
}

/// Resolution succeeds: the displacement field lies inside the scanned
/// bytes and the resolved address is representable.
pub open spec fn resolve_ok(
    data: Seq<u8>,
    base: int,
    o: int,
    field_offset: int,
    extra_offset: int,
) -> bool {
    &&& o + field_offset + 4 <= data.len()
    &&& 0 <= resolved_target(data, base, o, field_offset, extra_offset) <= u64::MAX
}

/// Resolves the address of the pointer slot named by the displacement at
/// the match site.  Returns the address of the documented formula exactly
/// where the displacement field lies inside `data` and the sum is
/// representable; otherwise `None`, which callers treat as fatal.
pub fn resolve_site(
    data: &[u8],
    base: u64,
    match_offset: usize,
    field_offset: usize,
    extra_offset: usize,
) -> (r: Option<u64>)
    ensures
        r is Some <==> resolve_ok(
            data@,
            base as int,
            match_offset as int,
            field_offset as int,
            extra_offset as int,
        ),
        match r {
            Some(a) => a == resolved_target(
                data@,
                base as int,
                match_offset as int,
                field_offset as int,
                extra_offset as int,
            ),
            None => true,
        },
{
    let dlen: usize = data.len();
    if match_offset > dlen {
        return None;
    }
    let rem = dlen - match_offset;
    if field_offset > rem || rem - field_offset < 4 {
        return None;
    }
    let pos = match_offset + field_offset;
    let disp = read_i32_le(data, pos);
    let t: i128 = base as i128 + match_offset as i128 + extra_offset as i128 + disp as i128;
    if t < 0 || t > u64::MAX as i128 {
        return None;
    }
    Some(t as u64)
}

} // verus!

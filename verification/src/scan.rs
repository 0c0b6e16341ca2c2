//! Brute-force sliding signature scan over a byte range.
//!
//! The scan yields every offset at which the signature matches, each
//! exactly once, in ascending order.  A lazy, restartable form is offered
//! through [`Matcher`]; [`scan`] collects the whole ascending sequence.

use vstd::prelude::*;
use crate::sig::{SigByte, Signature, sig_byte_matches};

verus! {

/// The signature `sig` matches `data` at offset `o`: the whole signature
/// lies inside `data` and every non-wildcard position agrees with the byte
/// under it.
pub open spec fn matches_at(sig: Seq<SigByte>, data: Seq<u8>, o: int) -> bool {
    &&& 0 <= o
    &&& o + sig.len() <= data.len()
    &&& forall|k: int| 0 <= k < sig.len() ==> sig_byte_matches(#[trigger] sig[k], data[o + k])
}

/// `o` is a match offset inside the scan window `[lo, hi)`: the candidate
/// start lies at or after `lo` and the whole signature fits before `hi`.
pub open spec fn match_in_range(sig: Seq<SigByte>, data: Seq<u8>, lo: int, hi: int, o: int) -> bool {
    &&& lo <= o
    &&& o + sig.len() <= hi
    &&& matches_at(sig, data, o)
}

/// `o` is the least match offset in the window `[from, hi)`.
pub open spec fn is_first_match_from(
    sig: Seq<SigByte>,
    data: Seq<u8>,
    from: int,
    hi: int,
    o: int,
) -> bool {
    &&& match_in_range(sig, data, from, hi, o)
    &&& forall|o2: int| from <= o2 < o ==> !match_in_range(sig, data, from, hi, o2)
}

/// A window shorter than the signature admits no match: an empty window,
/// or a signature longer than the window, yields nothing.
pub proof fn lemma_short_range_has_no_match(sig: Seq<SigByte>, data: Seq<u8>, lo: int, hi: int)
    requires
        hi - lo < sig.len(),
    ensures
        forall|o: int| !match_in_range(sig, data, lo, hi, o),
{
}

/// Two least match offsets of the same window are the same offset.
pub proof fn lemma_first_match_unique(
    sig: Seq<SigByte>,
    data: Seq<u8>,
    from: int,
    hi: int,
    o1: int,
    o2: int,
)
    requires
        is_first_match_from(sig, data, from, hi, o1),
        is_first_match_from(sig, data, from, hi, o2),
    ensures
        o1 == o2,
{
    if o1 < o2 {
        assert(!match_in_range(sig, data, from, hi, o1));
    } else if o2 < o1 {
        assert(!match_in_range(sig, data, from, hi, o2));
    }
}

/// Whether the signature matches at the single offset `o`.
fn matches_here(sig: &Signature, data: &[u8], o: usize) -> (r: bool)
    requires
        o + sig@.len() <= data@.len(),
    ensures
        r == matches_at(sig@, data@, o as int),
{
    let dlen: usize = data.len();
    let n = sig.entries.len();
    let mut k: usize = 0;
    while k < n
        invariant
            n == sig@.len(),
            0 <= k <= n,
            o + n <= dlen,
            dlen == data@.len(),
            forall|j: int| 0 <= j < k ==> sig_byte_matches(#[trigger] sig@[j], data@[o + j]),
        decreases n - k,
    {
        match sig.entries[k] {
            SigByte::Byte(v) => {
                if data[o + k] != v {
                    assert(!sig_byte_matches(sig@[k as int], data@[o + k as int]));
                    return false;
                }
            },
            SigByte::Wildcard => {},
        }
        k += 1;
    }
    true
}

/// The least match offset at or after `from` whose signature still fits
/// before `hi`, or `None` where the window holds no match.
pub fn find_from(sig: &Signature, data: &[u8], from: usize, hi: usize) -> (r: Option<usize>)
    requires
        sig.wf(),
        hi <= data@.len(),
    ensures
        match r {
            Some(o) => is_first_match_from(sig@, data@, from as int, hi as int, o as int),
            None => forall|o: int| !match_in_range(sig@, data@, from as int, hi as int, o),
        },
{
    let n = sig.entries.len();
    if hi < n || from > hi - n {
        assert forall|o: int| !match_in_range(sig@, data@, from as int, hi as int, o) by {}
        return None;
    }
    let last = hi - n;
    let mut o = from;
    while o <= last
        invariant
            n == sig@.len(),
            n >= 1,
            hi <= data@.len(),
            last == hi - n,
            from <= o,
            o <= last + 1,
            forall|o2: int| from <= o2 < o ==> !match_in_range(sig@, data@, from as int, hi as int, o2),
        decreases last + 1 - o,
    {
        if matches_here(sig, data, o) {
            return Some(o);
        }
        o += 1;
    }
    None
}

/// A lazy, restartable producer of match offsets: each call to
/// [`Matcher::next_match`] yields the least match at or after the cursor
/// and advances the cursor past it.
pub struct Matcher {
    pub cursor: usize,
}

impl Matcher {
    /// A matcher whose next yield is the least match at or after `start`.
    pub fn new(start: usize) -> (m: Matcher)
        ensures
            m.cursor == start,
    {
        Matcher { cursor: start }
    }

    /// Yields the least match offset at or after the cursor whose
    /// signature fits before `hi`, advancing the cursor one past it, or
    /// `None` (cursor unchanged) where no match remains.
    pub fn next_match(&mut self, sig: &Signature, data: &[u8], hi: usize) -> (r: Option<usize>)
        requires
            sig.wf(),
            hi <= data@.len(),
        ensures
            match r {
                Some(o) => {
                    &&& is_first_match_from(sig@, data@, old(self).cursor as int, hi as int, o as int)
                    &&& final(self).cursor == o + 1
                },
                None => {
                    &&& forall|o: int|
                        !match_in_range(sig@, data@, old(self).cursor as int, hi as int, o)
                    &&& final(self).cursor == old(self).cursor
                },
            },
    {
        match find_from(sig, data, self.cursor, hi) {
            Some(o) => {
                self.cursor = o + 1;
                Some(o)
            },
            None => None,
        }
    }
}

/// Scans the window `[lo, hi)` of `data` and collects every match offset of
/// the signature, each exactly once, in strictly ascending order.
pub fn scan(sig: &Signature, data: &[u8], lo: usize, hi: usize) -> (r: Vec<usize>)
    requires
        sig.wf(),
        lo <= hi,
        hi <= data@.len(),
    ensures
        forall|i: int|
            0 <= i < r@.len() ==> match_in_range(
                sig@,
                data@,
                lo as int,
                hi as int,
                #[trigger] r@[i] as int,
            ),
        forall|o: int|
            match_in_range(sig@, data@, lo as int, hi as int, o) ==> exists|i: int|
                0 <= i < r@.len() && r@[i] == o,
        forall|i: int, j: int| 0 <= i < j < r@.len() ==> r@[i] < r@[j],
        hi - lo < sig@.len() ==> r@.len() == 0,
{
    let n = sig.entries.len();
    let mut r: Vec<usize> = Vec::new();
    if hi < n || lo > hi - n {
        proof {
            lemma_short_range_has_no_match(sig@, data@, lo as int, hi as int);
        }
        return r;
    }
    let last = hi - n;
    let mut o = lo;
    while o <= last
        invariant
            n == sig@.len(),
            n >= 1,
            lo <= hi,
            hi <= data@.len(),
            last == hi - n,
            lo <= o,
            o <= last + 1,
            forall|i: int|
                0 <= i < r@.len() ==> match_in_range(
                    sig@,
                    data@,
                    lo as int,
                    hi as int,
                    #[trigger] r@[i] as int,
                ),
            forall|i: int| 0 <= i < r@.len() ==> lo <= #[trigger] r@[i] < o,
            forall|o2: int|
                lo <= o2 < o && match_in_range(sig@, data@, lo as int, hi as int, o2)
                    ==> exists|i: int| 0 <= i < r@.len() && r@[i] == o2,
            forall|i: int, j: int| 0 <= i < j < r@.len() ==> r@[i] < r@[j],
        decreases last + 1 - o,
    {
        if matches_here(sig, data, o) {
            let ghost oldr = r@;
            r.push(o);
            proof {
                assert forall|o2: int|
                    lo <= o2 < o + 1 && match_in_range(sig@, data@, lo as int, hi as int, o2)
                        implies exists|i: int| 0 <= i < r@.len() && r@[i] == o2 by {
                    if o2 == o {
                        assert(r@[r@.len() - 1] == o2);
                    } else {
                        let i = choose|i: int| 0 <= i < oldr.len() && oldr[i] == o2;
                        assert(r@[i] == o2);
                    }
                }
            }
        } else {
            assert(!match_in_range(sig@, data@, lo as int, hi as int, o as int));
        }
        o += 1;
    }
    r
}

} // verus!

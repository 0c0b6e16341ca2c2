//! The bootstrap pipeline: image bytes in, pointer-slot address out.
//!
//! One call runs the whole startup sequence of the engine on plain values:
//! parse the signature text, parse the image's section table, find the
//! named section, scan its file range for the first signature match, and
//! resolve the displacement arithmetic at the match site.  Every failure is
//! an environment mismatch between the hard-coded assumptions (signature
//! bytes, fixed offsets, section name) and the actual image, and is
//! reported as a [`LocateError`] that callers escalate to a fatal abort of
//! the attach sequence.

use vstd::prelude::*;
use crate::sig::{Signature, sig_text_spec, parse_signature};
use crate::scan::{Matcher, match_in_range, is_first_match_from, lemma_first_match_unique};
use crate::image::{
    Image,
    image_ok,
    image_models,
    is_first_section_named,
    has_section_named,
    lemma_first_section_unique,
    num_sections,
    section_name_spec,
    section_file_offset_spec,
    section_file_size_spec,
    parse_image,
};
use crate::resolve::{resolve_ok, resolved_target, resolve_site};

verus! {

/// The unrecoverable environment mismatches of the bootstrap sequence.
#[derive(Clone, Copy, PartialEq, Eq, Structural, Debug)]
pub enum LocateError {
    /// The signature text is not a well-formed token list.
    InvalidSignature,
    /// The bytes do not form a recognized executable image.
    InvalidImage,
    /// No section of the image carries the requested name.
    SectionNotFound,
    /// The named section holds no occurrence of the signature.
    NoMatch,
    /// The displacement field or the resolved address falls outside range.
    ResolveOutOfRange,
}

/// Start of the scan window of a section: its file offset, clamped to the
/// available bytes.
pub open spec fn window_lo(s: Seq<u8>, file_offset: int) -> int {
    if file_offset <= s.len() {
        file_offset
    } else {
        s.len() as int
    }
}

/// End of the scan window of a section: the end of its file range, clamped
/// to the available bytes.
pub open spec fn window_hi(s: Seq<u8>, file_offset: int, file_size: int) -> int {
    if file_offset + file_size <= s.len() {
        file_offset + file_size
    } else {
        s.len() as int
    }
}

/// The value of the whole bootstrap pipeline on the raw inputs: either the
/// resolved pointer-slot address, or the first environment mismatch along
/// the way.
pub open spec fn pipeline_spec(
    s: Seq<u8>,
    base: int,
    sig_text: Seq<u8>,
    name: Seq<u8>,
    field_offset: int,
    extra_offset: int,
) -> Result<int, LocateError> {
    match sig_text_spec(sig_text) {
        None => Err(LocateError::InvalidSignature),
        Some(sigv) => if !image_ok(s) {
            Err(LocateError::InvalidImage)
        } else if !has_section_named(s, name) {
            Err(LocateError::SectionNotFound)
        } else {
            let k = choose|k: int| is_first_section_named(s, name, k);
            let lo = window_lo(s, section_file_offset_spec(s, k));
            let hi = window_hi(s, section_file_offset_spec(s, k), section_file_size_spec(s, k));
            if !(exists|o: int| match_in_range(sigv, s, lo, hi, o)) {
                Err(LocateError::NoMatch)
            } else {
                let o = choose|o: int| is_first_match_from(sigv, s, lo, hi, o);
                if !resolve_ok(s, base, o, field_offset, extra_offset) {
                    Err(LocateError::ResolveOutOfRange)
                } else {
                    Ok(resolved_target(s, base, o, field_offset, extra_offset))
                }
            }
        },
    }
}

/// The executable result names the same outcome as the mathematical one.
pub open spec fn result_abstracts(r: Result<u64, LocateError>, m: Result<int, LocateError>) -> bool {
    match (r, m) {
        (Ok(a), Ok(v)) => a == v,
        (Err(e1), Err(e2)) => e1 == e2,
        _ => false,
    }
}

/// Runs the bootstrap pipeline on the raw image bytes: parses the
/// signature text and the image, finds the first section named
/// `section_name`, scans its clamped file range for the first match of the
/// signature, and resolves the displacement at the match site against
/// `base`.  The result is exactly [`pipeline_spec`] on the same values.
pub fn locate_global(
    data: &[u8],
    base: u64,
    sig_text: &[u8],
    section_name: &[u8],
    field_offset: usize,
    extra_offset: usize,
) -> (r: Result<u64, LocateError>)
    ensures
        result_abstracts(
            r,
            pipeline_spec(
                data@,
                base as int,
                sig_text@,
                section_name@,
                field_offset as int,
                extra_offset as int,
            ),
        ),
{
    let ghost s = data@;
    let sig: Signature = match parse_signature(sig_text) {
        None => {
            return Err(LocateError::InvalidSignature);
        },
        Some(sig) => sig,
    };
    let img: Image = match parse_image(data) {
        None => {
            return Err(LocateError::InvalidImage);
        },
        Some(img) => img,
    };
    let k: usize = match img.find_section(section_name) {
        None => {
            proof {
                assert forall|kk: int|
                    0 <= kk < num_sections(s) implies section_name_spec(s, kk)
                    != section_name@ by {
                    assert(img.sections@[kk].name@ == section_name_spec(s, kk));
                }
                assert(!has_section_named(s, section_name@));
            }
            return Err(LocateError::SectionNotFound);
        },
        Some(k) => k,
    };
    proof {
        assert forall|j: int| 0 <= j < k implies section_name_spec(s, j) != section_name@ by {
            assert(img.sections@[j].name@ == section_name_spec(s, j));
        }
        assert(img.sections@[k as int].name@ == section_name_spec(s, k as int));
        assert(is_first_section_named(s, section_name@, k as int));
        assert(has_section_named(s, section_name@));
    }
    let dlen: usize = data.len();
    let fo64: u64 = img.sections[k].file_offset as u64;
    let fs64: u64 = img.sections[k].file_size as u64;
    let dlen64: u64 = dlen as u64;
    let lo: usize = if fo64 <= dlen64 {
        img.sections[k].file_offset as usize
    } else {
        dlen
    };
    let hi: usize = if fo64 + fs64 <= dlen64 {
        (fo64 + fs64) as usize
    } else {
        dlen
    };
    proof {
        let k0 = choose|kk: int| is_first_section_named(s, section_name@, kk);
        lemma_first_section_unique(s, section_name@, k as int, k0);
        assert(lo == window_lo(s, section_file_offset_spec(s, k0)));
        assert(hi == window_hi(s, section_file_offset_spec(s, k0), section_file_size_spec(s, k0)));
    }
    let mut matcher = Matcher::new(lo);
    let o: usize = match matcher.next_match(&sig, data, hi) {
        None => {
            return Err(LocateError::NoMatch);
        },
        Some(o) => o,
    };
    proof {
        let lo_i = lo as int;
        let hi_i = hi as int;
        assert(match_in_range(sig@, s, lo_i, hi_i, o as int));
        let o0 = choose|oo: int| is_first_match_from(sig@, s, lo_i, hi_i, oo);
        assert(is_first_match_from(sig@, s, lo_i, hi_i, o as int));
        lemma_first_match_unique(sig@, s, lo_i, hi_i, o as int, o0);
    }
    proof {
        let m = pipeline_spec(s, base as int, sig_text@, section_name@, field_offset as int, extra_offset as int);
        let k0 = choose|kk: int| is_first_section_named(s, section_name@, kk);
        let lo0 = window_lo(s, section_file_offset_spec(s, k0));
        let hi0 = window_hi(s, section_file_offset_spec(s, k0), section_file_size_spec(s, k0));
        assert(lo0 == lo as int);
        assert(hi0 == hi as int);
        assert(exists|oo: int| match_in_range(sig@, s, lo0, hi0, oo));
        let o0 = choose|oo: int| is_first_match_from(sig@, s, lo0, hi0, oo);
        assert(o0 == o as int);
        assert(!resolve_ok(s, base as int, o as int, field_offset as int, extra_offset as int)
            ==> m == Err::<int, LocateError>(LocateError::ResolveOutOfRange));
        assert(resolve_ok(s, base as int, o as int, field_offset as int, extra_offset as int)
            ==> m == Ok::<int, LocateError>(
            resolved_target(s, base as int, o as int, field_offset as int, extra_offset as int),
        ));
    }
    match resolve_site(data, base, o, field_offset, extra_offset) {
        None => Err(LocateError::ResolveOutOfRange),
        Some(a) => Ok(a),
    }
}

} // verus!

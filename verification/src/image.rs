//! Structured view of a loaded executable image.
//!
//! The parser validates the two headers of the portable-executable layout
//! (the legacy `MZ` stub and the `PE\0\0` signature behind it), then reads
//! the section table: per section its 8-byte padded name and the file range
//! it occupies.  Sections are looked up by exact 8-byte name match.

use vstd::prelude::*;
use crate::bytes::{le16, le32, read_u16_le, read_u32_le};

verus! {

/// One entry of the section table: the section's padded name and the file
/// range `file_offset .. file_offset + file_size` it maps.
pub struct SectionInfo {
    pub name: Vec<u8>,
    pub file_offset: u32,
    pub file_size: u32,
}

/// A parsed image: its section table, in file order.
pub struct Image {
    pub sections: Vec<SectionInfo>,
}

/// The image starts with the legacy two-byte `MZ` mark and is long enough
/// to hold the header-offset field.
pub open spec fn dos_ok(s: Seq<u8>) -> bool {
    s.len() >= 0x40 && s[0] == 0x4d && s[1] == 0x5a
}

/// Offset of the modern header, read from the legacy header.
pub open spec fn pe_off(s: Seq<u8>) -> int {
    le32(s, 0x3c)
}

/// The modern header lies inside the image and carries the `PE\0\0` mark.
pub open spec fn pe_sig_ok(s: Seq<u8>) -> bool {
    &&& dos_ok(s)
    &&& pe_off(s) + 24 <= s.len()
    &&& s[pe_off(s)] == 0x50
    &&& s[pe_off(s) + 1] == 0x45
    &&& s[pe_off(s) + 2] == 0
    &&& s[pe_off(s) + 3] == 0
}

/// Number of entries of the section table.
pub open spec fn num_sections(s: Seq<u8>) -> int
    recommends
        pe_sig_ok(s),
{
    le16(s, pe_off(s) + 6)
}

/// Declared size of the optional header, which the section table follows.
pub open spec fn opt_header_size(s: Seq<u8>) -> int
    recommends
        pe_sig_ok(s),
{
    le16(s, pe_off(s) + 20)
}

/// Offset of the first section-table entry.
pub open spec fn section_table_off(s: Seq<u8>) -> int
    recommends
        pe_sig_ok(s),
{
    pe_off(s) + 24 + opt_header_size(s)
}

/// The headers are valid and the whole section table lies inside the image
/// (each entry is 40 bytes long).
pub open spec fn image_ok(s: Seq<u8>) -> bool {
    &&& pe_sig_ok(s)
    &&& section_table_off(s) + 40 * num_sections(s) <= s.len()
}

/// The padded 8-byte name of section `k`.
pub open spec fn section_name_spec(s: Seq<u8>, k: int) -> Seq<u8>
    recommends
        image_ok(s),
        0 <= k < num_sections(s),
{
    s.subrange(section_table_off(s) + 40 * k, section_table_off(s) + 40 * k + 8)
}

/// The size in bytes of the file range of section `k`.
pub open spec fn section_file_size_spec(s: Seq<u8>, k: int) -> int
    recommends
        image_ok(s),
        0 <= k < num_sections(s),
{
    le32(s, section_table_off(s) + 40 * k + 16)
}

/// The start of the file range of section `k`.
pub open spec fn section_file_offset_spec(s: Seq<u8>, k: int) -> int
    recommends
        image_ok(s),
        0 <= k < num_sections(s),
{
    le32(s, section_table_off(s) + 40 * k + 20)
}

/// `img` is the structured reading of the raw image `s`.
pub open spec fn image_models(img: Image, s: Seq<u8>) -> bool {
    &&& image_ok(s)
    &&& img.sections@.len() == num_sections(s)
    &&& forall|k: int|
        0 <= k < num_sections(s) ==> {
            &&& (#[trigger] img.sections@[k]).name@ == section_name_spec(s, k)
            &&& img.sections@[k].file_size == section_file_size_spec(s, k)
            &&& img.sections@[k].file_offset == section_file_offset_spec(s, k)
        }
}

/// Section `k` is the first one of `s` whose padded name is `name`.
pub open spec fn is_first_section_named(s: Seq<u8>, name: Seq<u8>, k: int) -> bool {
    &&& 0 <= k < num_sections(s)
    &&& section_name_spec(s, k) == name
    &&& forall|j: int| 0 <= j < k ==> section_name_spec(s, j) != name
}

/// Some section of `s` carries the padded name `name`.
pub open spec fn has_section_named(s: Seq<u8>, name: Seq<u8>) -> bool {
    exists|k: int| 0 <= k < num_sections(s) && section_name_spec(s, k) == name
}

/// Two first sections of the same name are the same section.
pub proof fn lemma_first_section_unique(s: Seq<u8>, name: Seq<u8>, k1: int, k2: int)
    requires
        is_first_section_named(s, name, k1),
        is_first_section_named(s, name, k2),
    ensures
        k1 == k2,
{
    if k1 < k2 {
        assert(section_name_spec(s, k1) != name);
    } else if k2 < k1 {
        assert(section_name_spec(s, k2) != name);
    }
}

/// Parses the raw image bytes.  Returns the structured image exactly where
/// the headers are recognized and the section table lies inside the bytes;
/// a malformed image returns `None`.
pub fn parse_image(data: &[u8]) -> (r: Option<Image>)
    ensures
        match r {
            Some(img) => image_models(img, data@),
            None => !image_ok(data@),
        },
{
    let dlen: usize = data.len();
    if dlen < 0x40 {
        return None;
    }
    if data[0] != 0x4d || data[1] != 0x5a {
        return None;
    }
    let peo32 = read_u32_le(data, 0x3c);
    let peo = peo32 as usize;
    if peo > dlen - 24 {
        return None;
    }
    if data[peo] != 0x50 || data[peo + 1] != 0x45 || data[peo + 2] != 0 || data[peo + 3] != 0 {
        return None;
    }
    let nsec = read_u16_le(data, peo + 6) as usize;
    let osz = read_u16_le(data, peo + 20) as usize;
    let rem = dlen - (peo + 24);
    if osz + 40 * nsec > rem {
        return None;
    }
    let sto = peo + 24 + osz;
    assert(sto == section_table_off(data@));
    assert(sto + 40 * nsec <= dlen);
    let mut sections: Vec<SectionInfo> = Vec::new();
    let mut k: usize = 0;
    while k < nsec
        invariant
            dlen == data@.len(),
            image_ok(data@),
            nsec == num_sections(data@),
            sto == section_table_off(data@),
            sto + 40 * nsec <= dlen,
            0 <= k <= nsec,
            sections@.len() == k,
            forall|j: int|
                0 <= j < k ==> {
                    &&& (#[trigger] sections@[j]).name@ == section_name_spec(data@, j)
                    &&& sections@[j].file_size == section_file_size_spec(data@, j)
                    &&& sections@[j].file_offset == section_file_offset_spec(data@, j)
                },
        decreases nsec - k,
    {
        let base = sto + 40 * k;
        let mut name: Vec<u8> = Vec::new();
        let mut j: usize = 0;
        while j < 8
            invariant
                dlen == data@.len(),
                base + 40 <= dlen,
                0 <= j <= 8,
                name@.len() == j,
                forall|m: int| 0 <= m < j ==> name@[m] == data@[base + m],
            decreases 8 - j,
        {
            name.push(data[base + j]);
            j += 1;
        }
        assert(name@ =~= section_name_spec(data@, k as int));
        let file_size = read_u32_le(data, base + 16);
        let file_offset = read_u32_le(data, base + 20);
        sections.push(SectionInfo { name, file_offset, file_size });
        k += 1;
    }
    Some(Image { sections })
}

/// Whether the bytes of `a` are exactly the bytes of `b`.
fn bytes_eq(a: &Vec<u8>, b: &[u8]) -> (r: bool)
    ensures
        r == (a@ == b@),
{
    let n = a.len();
    if n != b.len() {
        return false;
    }
    let mut i: usize = 0;
    while i < n
        invariant
            n == a@.len(),
            n == b@.len(),
            0 <= i <= n,
            forall|j: int| 0 <= j < i ==> a@[j] == b@[j],
        decreases n - i,
    {
        if a[i] != b[i] {
            return false;
        }
        i += 1;
    }
    proof {
        assert(a@ =~= b@);
    }
    true
}

impl Image {
    /// Index of the first section whose padded 8-byte name is `name`, or
    /// `None` where no section carries that name.  Absence of the section
    /// that was to be scanned is fatal to the caller.
    pub fn find_section(&self, name: &[u8]) -> (r: Option<usize>)
        ensures
            match r {
                Some(k) => {
                    &&& k < self.sections@.len()
                    &&& self.sections@[k as int].name@ == name@
                    &&& forall|j: int| 0 <= j < k ==> self.sections@[j].name@ != name@
                },
                None => forall|j: int|
                    0 <= j < self.sections@.len() ==> self.sections@[j].name@ != name@,
            },
    {
        let n = self.sections.len();
        let mut k: usize = 0;
        while k < n
            invariant
                n == self.sections@.len(),
                0 <= k <= n,
                forall|j: int| 0 <= j < k ==> self.sections@[j].name@ != name@,
            decreases n - k,
        {
            if bytes_eq(&self.sections[k].name, name) {
                return Some(k);
            }
            k += 1;
        }
        None
    }
}

} // verus!

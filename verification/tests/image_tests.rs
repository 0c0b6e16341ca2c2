use sigscan::image::parse_image;

const PE_OFF: usize = 0x40;
const SECTION_TABLE: usize = PE_OFF + 24;

/// A minimal image: legacy `MZ` header, `PE\0\0` header at 0x40 with a
/// zero-length optional header, and the given sections' table entries.
/// Each section is (name, file_offset, file_size).
fn build_image(sections: &[([u8; 8], u32, u32)], total: usize) -> Vec<u8> {
    let mut img = vec![0u8; total];
    img[0] = 0x4D;
    img[1] = 0x5A;
    img[0x3C..0x40].copy_from_slice(&(PE_OFF as u32).to_le_bytes());
    img[PE_OFF] = 0x50;
    img[PE_OFF + 1] = 0x45;
    let n = sections.len() as u16;
    img[PE_OFF + 6..PE_OFF + 8].copy_from_slice(&n.to_le_bytes());
    // bytes PE_OFF+20..22 stay zero: no optional header.
    for (i, (name, file_offset, file_size)) in sections.iter().enumerate() {
        let e = SECTION_TABLE + 40 * i;
        img[e..e + 8].copy_from_slice(name);
        img[e + 16..e + 20].copy_from_slice(&file_size.to_le_bytes());
        img[e + 20..e + 24].copy_from_slice(&file_offset.to_le_bytes());
    }
    img
}

#[test]
fn parse_reads_section_table() {
    let img = build_image(
        &[(*b".text\0\0\0", 0x200, 0x80), (*b".data\0\0\0", 0x300, 0x40)],
        0x400,
    );
    let parsed = parse_image(&img).expect("valid image must parse");
    assert_eq!(parsed.sections.len(), 2);
    assert_eq!(parsed.sections[0].name, b".text\0\0\0".to_vec());
    assert_eq!(parsed.sections[0].file_offset, 0x200);
    assert_eq!(parsed.sections[0].file_size, 0x80);
    assert_eq!(parsed.sections[1].name, b".data\0\0\0".to_vec());
    assert_eq!(parsed.sections[1].file_offset, 0x300);
    assert_eq!(parsed.sections[1].file_size, 0x40);
}

#[test]
fn parse_rejects_short_buffer() {
    assert!(parse_image(&[0x4D, 0x5A, 0x00]).is_none());
}

#[test]
fn parse_rejects_bad_legacy_mark() {
    let mut img = build_image(&[(*b".text\0\0\0", 0x100, 0x10)], 0x200);
    img[0] = 0x00;
    assert!(parse_image(&img).is_none());
}

#[test]
fn parse_rejects_bad_header_mark() {
    let mut img = build_image(&[(*b".text\0\0\0", 0x100, 0x10)], 0x200);
    img[PE_OFF + 1] = 0x00;
    assert!(parse_image(&img).is_none());
}

#[test]
fn parse_rejects_header_offset_outside_image() {
    let mut img = build_image(&[(*b".text\0\0\0", 0x100, 0x10)], 0x200);
    img[0x3C..0x40].copy_from_slice(&0x1000u32.to_le_bytes());
    assert!(parse_image(&img).is_none());
}

#[test]
fn parse_rejects_truncated_section_table() {
    // The table of one 40-byte entry would run past the end.
    let img = build_image(&[(*b".text\0\0\0", 0x100, 0x10)], SECTION_TABLE + 39);
    assert!(parse_image(&img).is_none());
}

#[test]
fn find_section_exact_name_match() {
    let img = build_image(
        &[(*b".data\0\0\0", 0x300, 0x40), (*b".text\0\0\0", 0x200, 0x80)],
        0x400,
    );
    let parsed = parse_image(&img).expect("valid image must parse");
    assert_eq!(parsed.find_section(b".text\0\0\0"), Some(1));
    assert_eq!(parsed.find_section(b".data\0\0\0"), Some(0));
    // The padding bytes take part in the comparison.
    assert_eq!(parsed.find_section(b".text\0\0\x01"), None);
    assert_eq!(parsed.find_section(b".rsrc\0\0\0"), None);
}

#[test]
fn find_section_returns_first_of_equal_names() {
    let img = build_image(
        &[(*b".text\0\0\0", 0x100, 0x10), (*b".text\0\0\0", 0x200, 0x10)],
        0x400,
    );
    let parsed = parse_image(&img).expect("valid image must parse");
    assert_eq!(parsed.find_section(b".text\0\0\0"), Some(0));
}

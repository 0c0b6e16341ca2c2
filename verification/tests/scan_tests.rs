use sigscan::scan::{scan, Matcher};
use sigscan::sig::{parse_signature, SigByte, Signature};

fn sig_of(text: &str) -> Signature {
    parse_signature(text.as_bytes()).expect("signature text must parse")
}

#[test]
fn scan_yields_all_matches_ascending() {
    let sig = sig_of("AB ? CD");
    let data = vec![0xAB, 0x01, 0xCD, 0xAB, 0xFF, 0xCD, 0xAB, 0xAB, 0x00, 0xCD];
    let r = scan(&sig, &data, 0, data.len());
    assert_eq!(r, vec![0, 3, 7]);
}

#[test]
fn scan_overlapping_matches_each_reported_once() {
    let sig = sig_of("AA ?");
    let data = vec![0xAA, 0xAA, 0xAA];
    let r = scan(&sig, &data, 0, data.len());
    assert_eq!(r, vec![0, 1]);
}

#[test]
fn scan_respects_window_bounds() {
    let sig = sig_of("AB CD");
    let data = vec![0xAB, 0xCD, 0x00, 0xAB, 0xCD, 0xAB, 0xCD];
    // Window [2, 6): the match at 0 starts before it, the one at 5 would
    // run past it; only the match at 3 lies wholly inside.
    let r = scan(&sig, &data, 2, 6);
    assert_eq!(r, vec![3]);
}

#[test]
fn scan_empty_range_yields_nothing() {
    let sig = sig_of("AB");
    let data = vec![0xAB, 0xAB];
    let r = scan(&sig, &data, 1, 1);
    assert!(r.is_empty());
}

#[test]
fn scan_signature_longer_than_range_yields_nothing() {
    let sig = sig_of("AB CD EF 01 23");
    let data = vec![0xAB, 0xCD, 0xEF];
    let r = scan(&sig, &data, 0, data.len());
    assert!(r.is_empty());
}

#[test]
fn scan_no_occurrence_yields_nothing() {
    let sig = sig_of("48 8B 05");
    let data = vec![0x48, 0x8B, 0x06, 0x48, 0x8C, 0x05];
    let r = scan(&sig, &data, 0, data.len());
    assert!(r.is_empty());
}

#[test]
fn scan_wildcard_does_not_match_missing_byte() {
    // The wildcard still needs a byte under it: a match may not run past
    // the end of the window.
    let sig = sig_of("AB ?");
    let data = vec![0x00, 0xAB];
    let r = scan(&sig, &data, 0, data.len());
    assert!(r.is_empty());
}

#[test]
fn matcher_yields_lazily_in_order() {
    let sig = sig_of("AB ? CD");
    let data = vec![0xAB, 0x01, 0xCD, 0xAB, 0xFF, 0xCD];
    let mut m = Matcher::new(0);
    assert_eq!(m.next_match(&sig, &data, data.len()), Some(0));
    assert_eq!(m.next_match(&sig, &data, data.len()), Some(3));
    assert_eq!(m.next_match(&sig, &data, data.len()), None);
    // Exhaustion is stable.
    assert_eq!(m.next_match(&sig, &data, data.len()), None);
}

#[test]
fn matcher_is_restartable() {
    let sig = sig_of("AB");
    let data = vec![0xAB, 0x00, 0xAB];
    let mut m1 = Matcher::new(0);
    assert_eq!(m1.next_match(&sig, &data, data.len()), Some(0));
    let mut m2 = Matcher::new(0);
    assert_eq!(m2.next_match(&sig, &data, data.len()), Some(0));
    assert_eq!(m2.next_match(&sig, &data, data.len()), Some(2));
}

#[test]
fn parse_signature_mixed_tokens() {
    let sig = parse_signature(b"48 8b 05 ? ? C3").expect("must parse");
    assert_eq!(
        sig.entries,
        vec![
            SigByte::Byte(0x48),
            SigByte::Byte(0x8B),
            SigByte::Byte(0x05),
            SigByte::Wildcard,
            SigByte::Wildcard,
            SigByte::Byte(0xC3),
        ]
    );
}

#[test]
fn parse_signature_rejects_malformed_text() {
    assert!(parse_signature(b"").is_none());
    assert!(parse_signature(b" ").is_none());
    assert!(parse_signature(b"4").is_none());
    assert!(parse_signature(b"48 ").is_none());
    assert!(parse_signature(b"48  8B").is_none());
    assert!(parse_signature(b"4G").is_none());
    assert!(parse_signature(b"??").is_none());
    assert!(parse_signature(b"48 8B0").is_none());
}

#[test]
fn parse_signature_single_token() {
    let sig = parse_signature(b"?").expect("must parse");
    assert_eq!(sig.entries, vec![SigByte::Wildcard]);
    let sig = parse_signature(b"ff").expect("must parse");
    assert_eq!(sig.entries, vec![SigByte::Byte(0xFF)]);
}

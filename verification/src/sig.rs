//! Wildcard byte signatures and their textual form.
//!
//! A signature is a non-empty sequence of positions, each either a concrete
//! byte or a wildcard.  The textual form is a space-separated list of
//! tokens, each token two hexadecimal digits (`48`, `8B`, `c3`) or a single
//! `?` for a wildcard.

use vstd::prelude::*;

verus! {

/// One position of a signature: a concrete byte, or a wildcard that matches
/// any byte.
#[derive(Clone, Copy, PartialEq, Eq, Structural, Debug)]
pub enum SigByte {
    Byte(u8),
    Wildcard,
}

/// Whether signature position `p` accepts the image byte `b`.
pub open spec fn sig_byte_matches(p: SigByte, b: u8) -> bool {
    match p {
        SigByte::Byte(v) => v == b,
        SigByte::Wildcard => true,
    }
}

/// A wildcard-masked byte signature used to locate a known code site
/// without symbols.
pub struct Signature {
    pub entries: Vec<SigByte>,
}

impl View for Signature {
    type V = Seq<SigByte>;

    open spec fn view(&self) -> Seq<SigByte> {
        self.entries@
    }
}

impl Signature {
    /// Valid signatures are non-empty.
    pub open spec fn wf(&self) -> bool {
        self@.len() > 0
    }
}

/// `c` is an ASCII hexadecimal digit.
pub open spec fn is_hex_digit(c: u8) -> bool {
    (0x30 <= c && c <= 0x39) || (0x41 <= c && c <= 0x46) || (0x61 <= c && c <= 0x66)
}

/// Numeric value of the ASCII hexadecimal digit `c`.
pub open spec fn hex_val(c: u8) -> int {
    if 0x30 <= c && c <= 0x39 {
        c - 0x30
    } else if 0x41 <= c && c <= 0x46 {
        c - 0x41 + 10
    } else {
        c - 0x61 + 10
    }
}

/// Length of the signature token at the front of `s`: 1 for a wildcard
/// `?`, 2 for a pair of hexadecimal digits, 0 if no token starts here.
pub open spec fn tok_len(s: Seq<u8>) -> int {
    if s.len() >= 1 && s[0] == 0x3f {
        1
    } else if s.len() >= 2 && is_hex_digit(s[0]) && is_hex_digit(s[1]) {
        2
    } else {
        0
    }
}

/// The signature position denoted by the token at the front of `s`.
pub open spec fn tok_entry(s: Seq<u8>) -> SigByte
    recommends
        tok_len(s) > 0,
{
    if s[0] == 0x3f {
        SigByte::Wildcard
    } else {
        SigByte::Byte((16 * hex_val(s[0]) + hex_val(s[1])) as u8)
    }
}

/// The signature denoted by the text `s`, or `None` where `s` is not a
/// non-empty list of tokens separated by single spaces.
pub open spec fn sig_text_spec(s: Seq<u8>) -> Option<Seq<SigByte>>
    decreases s.len(),
{
    if tok_len(s) == 0 {
        None
    } else if s.len() == tok_len(s) {
        Some(seq![tok_entry(s)])
    } else if s[tok_len(s)] == 0x20 {
        match sig_text_spec(s.skip(tok_len(s) + 1)) {
            None => None,
            Some(rest) => Some(seq![tok_entry(s)] + rest),
        }
    } else {
        None
    }
}

/// Numeric value of one hexadecimal digit byte.
fn hex_digit_value(c: u8) -> (r: u8)
    requires
        is_hex_digit(c),
    ensures
        r == hex_val(c),
{
    if 0x30 <= c && c <= 0x39 {
        c - 0x30
    } else if 0x41 <= c && c <= 0x46 {
        c - 0x41 + 10
    } else {
        c - 0x61 + 10
    }
}

/// `c` is an ASCII hexadecimal digit.
fn is_hex_digit_exec(c: u8) -> (r: bool)
    ensures
        r == is_hex_digit(c),
{
    (0x30 <= c && c <= 0x39) || (0x41 <= c && c <= 0x46) || (0x61 <= c && c <= 0x66)
}

/// Parses the token list of `text` from position `i` on.
fn parse_entries(text: &[u8], i: usize) -> (r: Option<Vec<SigByte>>)
    requires
        i <= text@.len(),
    ensures
        match r {
            Some(v) => sig_text_spec(text@.skip(i as int)) == Some(v@) && v@.len() > 0,
            None => sig_text_spec(text@.skip(i as int)) is None,
        },
    decreases text@.len() - i,
{
    let n = text.len();
    let ghost s = text@.skip(i as int);
    if i >= n {
        assert(tok_len(s) == 0);
        return None;
    }
    let entry: SigByte;
    let tl: usize;
    if text[i] == 0x3f {
        entry = SigByte::Wildcard;
        tl = 1;
        assert(tok_len(s) == 1 && tok_entry(s) == entry);
    } else if n - i >= 2 && is_hex_digit_exec(text[i]) && is_hex_digit_exec(text[i + 1]) {
        let hv = hex_digit_value(text[i]);
        let lv = hex_digit_value(text[i + 1]);
        entry = SigByte::Byte(16 * hv + lv);
        tl = 2;
        assert(tok_len(s) == 2 && tok_entry(s) == entry);
    } else {
        assert(tok_len(s) == 0);
        return None;
    }
    if n - i == tl {
        assert(s.len() == tok_len(s));
        let mut v: Vec<SigByte> = Vec::new();
        v.push(entry);
        assert(v@ =~= seq![entry]);
        return Some(v);
    }
    if text[i + tl] != 0x20 {
        assert(s[tok_len(s)] == text@[(i + tl) as int]);
        return None;
    }
    assert(s[tok_len(s)] == 0x20);
    let rest = parse_entries(text, i + tl + 1);
    assert(text@.skip((i + tl + 1) as int) =~= s.skip(tok_len(s) + 1));
    match rest {
        None => None,
        Some(mut v) => {
            let ghost tail = v@;
            v.insert(0, entry);
            assert(v@ =~= seq![entry] + tail);
            Some(v)
        },
    }
}

/// Parses the textual form of a signature.  Returns the signature exactly
/// where the text is a non-empty list of `?` and two-digit hexadecimal
/// tokens separated by single spaces, and `None` otherwise.
pub fn parse_signature(text: &[u8]) -> (r: Option<Signature>)
    ensures
        match r {
            Some(sig) => sig.wf() && sig_text_spec(text@) == Some(sig@),
            None => sig_text_spec(text@) is None,
        },
{
    let ghost s0 = text@.skip(0);
    assert(s0 =~= text@);
    match parse_entries(text, 0) {
        None => None,
        Some(v) => Some(Signature { entries: v }),
    }
}

} // verus!

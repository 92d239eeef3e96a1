//! Lowercase hexadecimal text for byte strings, and its decoding.
use vstd::prelude::*;
use vstd::string::StringSliceAdditionalSpecFns;

verus! {

/// Why a text is not a hexadecimal byte string.
#[derive(Debug, Clone, Copy, PartialEq, Eq, Structural)]
pub enum HexError {
    /// The text has an odd number of bytes.
    OddLength,
    /// The text holds a byte that is not a hexadecimal digit.
    InvalidDigit,
}

/// The ASCII code of the lowercase hexadecimal digit for `n` (< 16).
pub open spec fn hex_digit(n: int) -> u8 {
    if n < 10 {
        (0x30 + n) as u8
    } else {
        (0x61 + n - 10) as u8
    }
}

/// The lowercase hexadecimal ASCII codes of `bytes`, two per byte, high
/// nibble first.
pub open spec fn hex_codes(bytes: Seq<u8>) -> Seq<u8>
    decreases bytes.len(),
{
    if bytes.len() == 0 {
        Seq::empty()
    } else {
        hex_codes(bytes.drop_last()) + seq![hex_digit(bytes.last() as int / 16), hex_digit(bytes.last() as int % 16)]
    }
}

/// The characters of ASCII codes.
pub open spec fn ascii_chars(codes: Seq<u8>) -> Seq<char> {
    codes.map_values(|c: u8| c as char)
}

/// The value of a hexadecimal digit's ASCII code (either case).
pub open spec fn digit_value(c: u8) -> Option<u8> {
    if 0x30 <= c <= 0x39 {
        Some((c - 0x30) as u8)
    } else if 0x61 <= c <= 0x66 {
        Some((c - 0x61 + 10) as u8)
    } else if 0x41 <= c <= 0x46 {
        Some((c - 0x41 + 10) as u8)
    } else {
        None
    }
}

/// Whether every code of `text` is a hexadecimal digit.
pub open spec fn all_hex_digits(text: Seq<u8>) -> bool {
    forall|i: int| 0 <= i < text.len() ==> #[trigger] digit_value(text[i]) is Some
}

/// The bytes a hexadecimal text of even length and valid digits denotes.
pub open spec fn hex_value(text: Seq<u8>) -> Seq<u8> {
    Seq::new(
        (text.len() / 2) as nat,
        |i: int| (16 * digit_value(text[2 * i]).unwrap() + digit_value(text[2 * i + 1]).unwrap()) as u8,
    )
}

/// What decoding the UTF-8 bytes `text` gives.
pub open spec fn hex_decoded(text: Seq<u8>) -> Result<Seq<u8>, HexError> {
    if text.len() % 2 != 0 {
        Err(HexError::OddLength)
    } else if !all_hex_digits(text) {
        Err(HexError::InvalidDigit)
    } else {
        Ok(hex_value(text))
    }
}

/// A `String` of the ASCII characters `bytes` (`String::from_utf8`).
/// Trusted: ASCII is valid UTF-8, so the string holds exactly those
/// characters.
#[verifier::external_body]
fn string_from_ascii(bytes: Vec<u8>) -> (s: String)
    requires
        forall|i: int| 0 <= i < bytes@.len() ==> bytes@[i] < 128,
    ensures
        s@ == ascii_chars(bytes@),
{
    String::from_utf8(bytes).unwrap_or_default()
}

fn nibble_code(n: u8) -> (c: u8)
    requires
        n < 16,
    ensures
        c == hex_digit(n as int),
        c < 128,
{
    if n < 10 {
        0x30 + n
    } else {
        0x61 + (n - 10)
    }
}

/// The lowercase hexadecimal text of `bytes`.
pub fn hex_encode(bytes: &[u8]) -> (s: String)
    ensures
        s@ == ascii_chars(hex_codes(bytes@)),
        s@.len() == 2 * bytes@.len(),
{
    let mut codes: Vec<u8> = Vec::new();
    let mut i: usize = 0;
    while i < bytes.len()
        invariant
            0 <= i <= bytes@.len(),
            codes@ == hex_codes(bytes@.subrange(0, i as int)),
            codes@.len() == 2 * i,
            forall|j: int| 0 <= j < codes@.len() ==> codes@[j] < 128,
        decreases bytes@.len() - i,
    {
        let b = bytes[i];
        codes.push(nibble_code(b / 16));
        codes.push(nibble_code(b % 16));
        proof {
            let s = bytes@.subrange(0, i + 1);
            assert(s.drop_last() =~= bytes@.subrange(0, i as int));
            assert(s.last() == b);
        }
        i += 1;
        assert(codes@ =~= hex_codes(bytes@.subrange(0, i as int)));
    }
    assert(bytes@.subrange(0, bytes@.len() as int) =~= bytes@);
    string_from_ascii(codes)
}

fn code_value(c: u8) -> (v: Option<u8>)
    ensures
        v == digit_value(c),
{
    if 0x30 <= c && c <= 0x39 {
        Some(c - 0x30)
    } else if 0x61 <= c && c <= 0x66 {
        Some(c - 0x61 + 10)
    } else if 0x41 <= c && c <= 0x46 {
        Some(c - 0x41 + 10)
    } else {
        None
    }
}

/// Decode hexadecimal text (either case) into bytes.
pub fn hex_decode(text: &str) -> (r: Result<Vec<u8>, HexError>)
    ensures
        match hex_decoded(text.spec_bytes()) {
            Ok(v) => r matches Ok(out) && out@ == v,
            Err(e) => r == Err::<Vec<u8>, HexError>(e),
        },
{
    let t = text.as_bytes();
    if t.len() % 2 != 0 {
        return Err(HexError::OddLength);
    }
    let mut out: Vec<u8> = Vec::new();
    let mut i: usize = 0;
    while i < t.len() / 2
        invariant
            t@ == text.spec_bytes(),
            t@.len() % 2 == 0,
            0 <= i <= t@.len() / 2,
            out@.len() == i,
            forall|k: int| 0 <= k < 2 * i ==> #[trigger] digit_value(t@[k]) is Some,
            forall|k: int| 0 <= k < i ==> #[trigger] out@[k] == (16 * digit_value(t@[2 * k]).unwrap()
                + digit_value(t@[2 * k + 1]).unwrap()) as u8,
        decreases t@.len() / 2 - i,
    {
        let hi = code_value(t[2 * i]);
        let lo = code_value(t[2 * i + 1]);
        match (hi, lo) {
            (Some(h), Some(l)) => {
                out.push(16 * h + l);
            },
            _ => {
                proof {
                    if hi is None {
                        assert(digit_value(t@[2 * i as int]) is None);
                    } else {
                        assert(digit_value(t@[2 * i + 1]) is None);
                    }
                }
                return Err(HexError::InvalidDigit);
            },
        }
        i += 1;
    }
    assert(out@ =~= hex_value(t@));
    Ok(out)
}

/// Every byte string's hexadecimal text decodes back to it.
pub proof fn lemma_hex_roundtrip(bytes: Seq<u8>)
    ensures
        hex_codes(bytes).len() == 2 * bytes.len(),
        hex_decoded(hex_codes(bytes)) == Ok::<Seq<u8>, HexError>(bytes),
    decreases bytes.len(),
{
    if bytes.len() > 0 {
        let pre = bytes.drop_last();
        lemma_hex_roundtrip(pre);
        let t = hex_codes(bytes);
        let tp = hex_codes(pre);
        let b = bytes.last();
        assert(t == tp + seq![hex_digit(b as int / 16), hex_digit(b as int % 16)]);
        assert forall|i: int| 0 <= i < t.len() implies #[trigger] digit_value(t[i]) is Some by {
            if i < tp.len() {
                assert(t[i] == tp[i]);
                assert(digit_value(tp[i]) is Some);
            }
        }
        assert forall|i: int| 0 <= i < bytes.len() implies #[trigger] hex_value(t)[i] == bytes[i] by {
            if i < pre.len() {
                assert(t[2 * i] == tp[2 * i]);
                assert(t[2 * i + 1] == tp[2 * i + 1]);
                assert(hex_value(tp)[i] == pre[i]);
            } else {
                assert(t[2 * i] == hex_digit(b as int / 16));
                assert(t[2 * i + 1] == hex_digit(b as int % 16));
            }
        }
        assert(hex_value(t) =~= bytes);
        assert(all_hex_digits(t));
        assert(t.len() % 2 == 0);
    } else {
        assert(hex_codes(bytes) =~= Seq::<u8>::empty());
        assert(hex_value(hex_codes(bytes)) =~= bytes);
    }
}

} // verus!

//! Hexadecimal text and the payload encoding used for notices and reports.
use vstd::prelude::*;
use vstd::string::*;
use vstd::utf8::*;

verus! {

/// The lowercase hexadecimal digit for a value below sixteen.
pub open spec fn hex_digit(n: u8) -> char {
    if n < 10 {
        (48 + n) as char
    } else {
        (87 + n) as char
    }
}

/// Lowercase hexadecimal text of a byte sequence: two digits per byte, high nibble first.
pub open spec fn hex_text(bytes: Seq<u8>) -> Seq<char>
    decreases bytes.len(),
{
    if bytes.len() == 0 {
        Seq::empty()
    } else {
        seq![hex_digit(bytes[0] / 16), hex_digit(bytes[0] % 16)] + hex_text(bytes.drop_first())
    }
}

/// The value of one hexadecimal digit, written as an ASCII byte, in either case.
pub open spec fn hex_value(c: u8) -> Option<u8> {
    if 48 <= c <= 57 {
        Some((c - 48) as u8)
    } else if 97 <= c <= 102 {
        Some((c - 87) as u8)
    } else if 65 <= c <= 70 {
        Some((c - 55) as u8)
    } else {
        None
    }
}

/// Why a text is not hexadecimal.
#[derive(Debug, Clone, PartialEq, Eq)]
pub enum HexError {
    /// The byte at `index` is not a hexadecimal digit.
    InvalidHexCharacter { c: char, index: usize },
    /// The text has an odd number of digits.
    OddLength,
    /// The text does not fit the fixed-size buffer it was decoded into.
    InvalidStringLength,
}

/// Decodes the digit pairs of `text` from position `start` on.
pub open spec fn hex_pairs(text: Seq<u8>, start: int) -> Result<Seq<u8>, HexError>
    decreases text.len() - start,
{
    if start < 0 || start + 2 > text.len() {
        Ok(Seq::empty())
    } else {
        match (hex_value(text[start]), hex_value(text[start + 1])) {
            (None, _) => Err(HexError::InvalidHexCharacter { c: text[start] as char, index: start as usize }),
            (Some(_), None) => Err(
                HexError::InvalidHexCharacter { c: text[start + 1] as char, index: (start + 1) as usize },
            ),
            (Some(hi), Some(lo)) => match hex_pairs(text, start + 2) {
                Ok(rest) => Ok(seq![(hi * 16 + lo) as u8] + rest),
                Err(e) => Err(e),
            },
        }
    }
}

/// Decoding of hexadecimal text: an odd length is refused first, then the first
/// byte that is not a digit, in either case.
pub open spec fn hex_bytes(text: Seq<u8>) -> Result<Seq<u8>, HexError> {
    if text.len() % 2 != 0 {
        Err(HexError::OddLength)
    } else {
        hex_pairs(text, 0)
    }
}

/// `text` without one leading `0x`, where it has one.
pub open spec fn without_0x(text: Seq<char>) -> Seq<char> {
    if text.len() >= 2 && text[0] == '0' && text[1] == 'x' {
        text.skip(2)
    } else {
        text
    }
}

/// Calls `hex::encode`, which writes each byte as two lowercase hexadecimal
/// digits, high nibble first.
#[verifier::external_body]
pub(crate) fn hex_encode(data: &[u8]) -> (r: String)
    ensures
        r@ == hex_text(data@),
{
    ::hex::encode(data)
}

/// Calls `hex::decode`: odd length is `OddLength`; otherwise the first byte
/// that is no digit of either case is reported with its position; otherwise
/// each pair of digits becomes one byte.
#[verifier::external_body]
fn hex_decode(text: &[u8]) -> (r: Result<Vec<u8>, HexError>)
    ensures
        match hex_bytes(text@) {
            Ok(b) => r matches Ok(v) && v@ == b,
            Err(e) => r == Err::<Vec<u8>, HexError>(e),
        },
{
    match ::hex::decode(text) {
        Ok(v) => Ok(v),
        Err(::hex::FromHexError::InvalidHexCharacter { c, index }) => Err(
            HexError::InvalidHexCharacter { c, index },
        ),
        Err(::hex::FromHexError::OddLength) => Err(HexError::OddLength),
        Err(::hex::FromHexError::InvalidStringLength) => Err(HexError::InvalidStringLength),
    }
}

/// Calls `str::strip_prefix` with the pattern `"0x"`: the rest of the text
/// where it starts with those two characters, `None` otherwise.
#[verifier::external_body]
fn strip_0x(text: &str) -> (r: Option<&str>)
    ensures
        match r {
            Some(rest) => text@.len() >= 2 && text@[0] == '0' && text@[1] == 'x' && rest@ == text@.skip(2),
            None => !(text@.len() >= 2 && text@[0] == '0' && text@[1] == 'x'),
        },
{
    text.strip_prefix("0x")
}

/// Calls `String::from_utf8`, which accepts exactly the valid UTF-8 byte
/// sequences and keeps the characters they encode.
#[verifier::external_body]
fn string_from_utf8(bytes: Vec<u8>) -> (r: Option<String>)
    ensures
        r is Some <==> valid_utf8(bytes@),
        r matches Some(s) ==> s@ == decode_utf8(bytes@),
{
    String::from_utf8(bytes).ok()
}

/// Why a text could not be read back as a string.
#[derive(Debug, Clone, PartialEq, Eq)]
pub enum HexStringError {
    /// The text (after an optional `0x`) is not hexadecimal.
    Hex(HexError),
    /// The decoded bytes are not UTF-8.
    Utf8,
}

/// What `hex_to_string` gives for a text.
pub open spec fn hex_string_of(text: Seq<char>) -> Result<Seq<char>, HexStringError> {
    match hex_bytes(encode_utf8(without_0x(text))) {
        Err(e) => Err(HexStringError::Hex(e)),
        Ok(b) => if valid_utf8(b) {
            Ok(decode_utf8(b))
        } else {
            Err(HexStringError::Utf8)
        },
    }
}

/// Reads a hexadecimal text, with or without a leading `0x`, as the UTF-8
/// string whose bytes it spells.
pub fn hex_to_string(hex: &str) -> (r: Result<String, HexStringError>)
    ensures
        match hex_string_of(hex@) {
            Ok(s) => r matches Ok(v) && v@ == s,
            Err(e) => r == Err::<String, HexStringError>(e),
        },
{
    let hexstr = strip_0x(hex).unwrap_or(hex);
    match hex_decode(hexstr.as_bytes()) {
        Err(e) => Err(HexStringError::Hex(e)),
        Ok(bytes) => match string_from_utf8(bytes) {
            Some(s) => Ok(s),
            None => Err(HexStringError::Utf8),
        },
    }
}

/// The payload that a notice or report carries for a message: `0x`, then
/// the hexadecimal text of the message's UTF-8 bytes, one leading `0x` of
/// the message left out.
pub open spec fn payload_of(message: Seq<char>) -> Seq<char> {
    seq!['0', 'x'] + hex_text(encode_utf8(without_0x(message)))
}

/// Encodes a message as the hexadecimal payload of a notice or report.
pub fn hex_payload(message: &str) -> (r: String)
    ensures
        r@ == payload_of(message@),
{
    let body = strip_0x(message).unwrap_or(message);
    let digits = hex_encode(body.as_bytes());
    let mut out = String::from_str("0x");
    proof {
        reveal_strlit("0x");
    }
    out.append(digits.as_str());
    assert(out@ =~= payload_of(message@));
    out
}


/// A hexadecimal digit: `0`..`9` or `a`..`f`.
pub open spec fn is_lower_hex_digit(c: char) -> bool {
    ('0' <= c <= '9') || ('a' <= c <= 'f')
}

pub(crate) proof fn lemma_hex_digit(n: u8)
    requires
        n < 16,
    ensures
        '\0' <= hex_digit(n) <= '\u{7f}',
        is_lower_hex_digit(hex_digit(n)),
        forall|m: u8| m < 16 && hex_digit(m) == hex_digit(n) ==> m == n,
        hex_value(hex_digit(n) as u8) == Some(n),
{
}

pub(crate) proof fn lemma_hex_text_shape(b: Seq<u8>)
    ensures
        hex_text(b).len() == 2 * b.len(),
        forall|k: int|
            0 <= k < b.len() ==> hex_text(b)[2 * k] == hex_digit(b[k] / 16) && hex_text(b)[2 * k
                + 1] == hex_digit(b[k] % 16),
        is_ascii_chars(hex_text(b)),
        forall|i: int| 0 <= i < hex_text(b).len() ==> is_lower_hex_digit(#[trigger] hex_text(b)[i]),
    decreases b.len(),
{
    if b.len() > 0 {
        let rest = b.drop_first();
        lemma_hex_text_shape(rest);
        lemma_hex_digit(b[0] / 16);
        lemma_hex_digit(b[0] % 16);
        let t = hex_text(b);
        assert forall|k: int| 0 <= k < b.len() implies t[2 * k] == hex_digit(b[k] / 16) && t[2 * k
            + 1] == hex_digit(b[k] % 16) by {
            if k > 0 {
                assert(b[k] == rest[k - 1]);
                assert(t[2 * k] == hex_text(rest)[2 * (k - 1)]);
                assert(t[2 * k + 1] == hex_text(rest)[2 * (k - 1) + 1]);
            }
        }
        assert forall|i: int| 0 <= i < t.len() implies '\0' <= #[trigger] t[i] <= '\u{7f}' && is_lower_hex_digit(t[i]) by {
            if i >= 2 {
                assert(t[i] == hex_text(rest)[i - 2]);
            }
        }
    }
}

proof fn lemma_hex_pairs_from(b: Seq<u8>, a: Seq<u8>, k: int)
    requires
        0 <= k <= b.len(),
        a.len() == 2 * b.len(),
        forall|j: int|
            0 <= j < b.len() ==> a[2 * j] == hex_digit(b[j] / 16) as u8 && a[2 * j + 1]
                == hex_digit(b[j] % 16) as u8,
    ensures
        hex_pairs(a, 2 * k) == Ok::<Seq<u8>, HexError>(b.skip(k)),
    decreases b.len() - k,
{
    if k < b.len() {
        lemma_hex_pairs_from(b, a, k + 1);
        lemma_hex_digit(b[k] / 16);
        lemma_hex_digit(b[k] % 16);
        assert(a[2 * k] == hex_digit(b[k] / 16) as u8);
        assert(a[2 * k + 1] == hex_digit(b[k] % 16) as u8);
        assert(((b[k] / 16) * 16 + b[k] % 16) as u8 == b[k]);
        assert(seq![b[k]] + b.skip(k + 1) =~= b.skip(k));
    } else {
        assert(b.skip(k) =~= Seq::<u8>::empty());
    }
}

/// Decoding the hexadecimal text of a byte sequence gives the sequence back.
pub proof fn lemma_hex_round_trip(b: Seq<u8>)
    ensures
        hex_bytes(encode_utf8(hex_text(b))) == Ok::<Seq<u8>, HexError>(b),
{
    let t = hex_text(b);
    lemma_hex_text_shape(b);
    is_ascii_chars_encode_utf8(t);
    let a = encode_utf8(t);
    assert forall|j: int| 0 <= j < b.len() implies a[2 * j] == hex_digit(b[j] / 16) as u8 && a[2 * j
        + 1] == hex_digit(b[j] % 16) as u8 by {
        assert(t[2 * j] as u8 == a[2 * j]);
        assert(t[2 * j + 1] as u8 == a[2 * j + 1]);
    }
    assert(a.len() % 2 == 0);
    lemma_hex_pairs_from(b, a, 0);
    assert(b.skip(0) =~= b);
}

/// Reading back the payload of a message gives the message, without one
/// leading `0x` where it had one.
pub proof fn lemma_payload_round_trip(message: Seq<char>)
    ensures
        hex_string_of(payload_of(message)) == Ok::<Seq<char>, HexStringError>(without_0x(message)),
{
    let w = without_0x(message);
    let bytes = encode_utf8(w);
    let p = payload_of(message);
    assert(without_0x(p) =~= hex_text(bytes));
    lemma_hex_round_trip(bytes);
    encode_utf8_valid_utf8(w);
    encode_utf8_decode_utf8(w);
}

} // verus!

//! Hexadecimal text for byte strings: two digits to the byte, the high
//! half first, written in lower case and read in either case.

use vstd::prelude::*;
use vstd::utf8::{
    encode_utf8, encode_utf8_decode_utf8, encode_utf8_valid_utf8, is_ascii_chars,
    is_ascii_chars_encode_utf8,
};
use crate::text::string_from_utf8;

verus! {

/// The ASCII byte of the lower-case hexadecimal digit for `n`, `0 <= n < 16`.
pub open spec fn digit_byte(n: int) -> u8 {
    if n < 10 {
        (48 + n) as u8
    } else {
        (87 + n) as u8
    }
}

/// The value of an ASCII hexadecimal digit of either case, if it is one.
pub open spec fn digit_value(b: u8) -> Option<int> {
    if 48 <= b <= 57 {
        Some(b - 48)
    } else if 97 <= b <= 102 {
        Some(b - 87)
    } else if 65 <= b <= 70 {
        Some(b - 55)
    } else {
        None
    }
}

/// The half of `data[i / 2]` that position `i` of the encoding shows: the
/// high half at even positions, the low half at odd ones.
pub open spec fn nibble_at(data: Seq<u8>, i: int) -> int {
    if i % 2 == 0 {
        data[i / 2] as int / 16
    } else {
        data[i / 2] as int % 16
    }
}

/// The lower-case hexadecimal encoding of `data`, as ASCII bytes.
pub open spec fn hex_bytes(data: Seq<u8>) -> Seq<u8> {
    Seq::new(2 * data.len(), |i: int| digit_byte(nibble_at(data, i)))
}

/// The lower-case hexadecimal encoding of `data`, as text.
pub open spec fn hex_text(data: Seq<u8>) -> Seq<char> {
    Seq::new(2 * data.len(), |i: int| digit_byte(nibble_at(data, i)) as char)
}

/// `text` is an even number of hexadecimal digits.
pub open spec fn is_hex(text: Seq<u8>) -> bool {
    &&& text.len() % 2 == 0
    &&& forall|i: int| 0 <= i < text.len() ==> (#[trigger] digit_value(text[i])) is Some
}

/// The bytes that the digit pairs of `text` stand for.
pub open spec fn unhex(text: Seq<u8>) -> Seq<u8> {
    Seq::new(
        text.len() / 2,
        |i: int| (16 * digit_value(text[2 * i])->0 + digit_value(text[2 * i + 1])->0) as u8,
    )
}

/// Every byte of an encoding is a digit, so none of them is a colon.
pub proof fn lemma_hex_bytes_are_digits(data: Seq<u8>)
    ensures
        hex_bytes(data).len() == 2 * data.len(),
        is_hex(hex_bytes(data)),
        forall|i: int| 0 <= i < hex_bytes(data).len() ==> (#[trigger] hex_bytes(data)[i]) != 58,
{
    let h = hex_bytes(data);
    assert forall|i: int| 0 <= i < h.len() implies (#[trigger] digit_value(h[i])) is Some
        && h[i] != 58 by {
        let n = nibble_at(data, i);
        assert(0 <= i / 2 < data.len());
        assert(0 <= n < 16);
    }
    assert forall|i: int| 0 <= i < h.len() implies (#[trigger] h[i]) != 58 by {
        assert(digit_value(h[i]) is Some);
    }
}

/// Decoding an encoding gives the bytes back.
pub proof fn lemma_unhex_hex(data: Seq<u8>)
    ensures
        is_hex(hex_bytes(data)),
        unhex(hex_bytes(data)) == data,
{
    lemma_hex_bytes_are_digits(data);
    let h = hex_bytes(data);
    assert forall|k: int| 0 <= k < data.len() implies unhex(h)[k] == data[k] by {
        let hi = nibble_at(data, 2 * k);
        let lo = nibble_at(data, 2 * k + 1);
        assert((2 * k) / 2 == k);
        assert((2 * k + 1) / 2 == k);
        assert((2 * k) % 2 == 0);
        assert((2 * k + 1) % 2 == 1);
        assert(hi == data[k] as int / 16);
        assert(lo == data[k] as int % 16);
        assert(digit_value(digit_byte(hi)) == Some(hi));
        assert(digit_value(digit_byte(lo)) == Some(lo));
        assert(h[2 * k] == digit_byte(hi));
        assert(h[2 * k + 1] == digit_byte(lo));
        assert(16 * hi + lo == data[k] as int);
    }
    assert(unhex(h) =~= data);
}

/// The text of an encoding is ASCII, and its UTF-8 bytes are the encoding's
/// bytes.
pub proof fn lemma_text_bytes(data: Seq<u8>)
    ensures
        is_ascii_chars(hex_text(data)),
        encode_utf8(hex_text(data)) == hex_bytes(data),
{
    let t = hex_text(data);
    assert forall|i: int| 0 <= i < t.len() implies '\0' <= #[trigger] t[i] <= '\u{7f}' && t[i] as u8
        == hex_bytes(data)[i] by {
        let n = nibble_at(data, i);
        assert(0 <= i / 2 < data.len());
        assert(0 <= n < 16);
    }
    is_ascii_chars_encode_utf8(t);
    assert(encode_utf8(t) =~= hex_bytes(data));
}

/// Different byte strings have different encodings.
pub proof fn lemma_hex_injective(a: Seq<u8>, b: Seq<u8>)
    requires
        hex_text(a) == hex_text(b),
    ensures
        a == b,
{
    lemma_text_bytes(a);
    lemma_text_bytes(b);
    lemma_unhex_hex(a);
    lemma_unhex_hex(b);
}

/// The ASCII byte of the lower-case digit for `n`.
fn digit(n: u8) -> (byte: u8)
    requires
        n < 16,
    ensures
        byte == digit_byte(n as int),
{
    if n < 10 {
        48 + n
    } else {
        87 + n
    }
}

/// The value of an ASCII digit of either case, if it is one.
fn value(byte: u8) -> (found: Option<u8>)
    ensures
        match found {
            Some(v) => digit_value(byte) == Some(v as int),
            None => digit_value(byte) is None,
        },
{
    if 48 <= byte && byte <= 57 {
        Some(byte - 48)
    } else if 97 <= byte && byte <= 102 {
        Some(byte - 87)
    } else if 65 <= byte && byte <= 70 {
        Some(byte - 55)
    } else {
        None
    }
}

/// Writes `data` in hexadecimal: two lower-case digits for each byte, the
/// high half first.
pub fn hex_encode(data: &[u8]) -> (text: String)
    ensures
        text@ == hex_text(data@),
{
    let mut bytes: Vec<u8> = Vec::new();
    let mut i: usize = 0;
    while i < data.len()
        invariant
            i <= data@.len(),
            bytes@.len() == 2 * i,
            forall|k: int| 0 <= k < 2 * i ==> bytes@[k] == digit_byte(nibble_at(data@, k)),
        decreases data@.len() - i,
    {
        let byte = data[i];
        let ghost before = bytes@;
        bytes.push(digit(byte / 16));
        bytes.push(digit(byte % 16));
        proof {
            assert forall|k: int| 0 <= k < 2 * (i + 1) implies bytes@[k] == digit_byte(
                nibble_at(data@, k),
            ) by {
                if k < 2 * i {
                    assert(bytes@[k] == before[k]);
                } else if k == 2 * i {
                    assert(k / 2 == i as int && k % 2 == 0);
                } else {
                    assert(k / 2 == i as int && k % 2 == 1);
                }
            }
        }
        i = i + 1;
    }
    proof {
        assert(bytes@ =~= hex_bytes(data@));
        lemma_text_bytes(data@);
        encode_utf8_valid_utf8(hex_text(data@));
        encode_utf8_decode_utf8(hex_text(data@));
    }
    match string_from_utf8(bytes) {
        Some(text) => text,
        None => String::new(),
    }
}

/// Reads hexadecimal text: it is accepted exactly when it is an even number
/// of digits of either case, and then gives one byte for each pair.
pub fn hex_decode(text: &[u8]) -> (data: Option<Vec<u8>>)
    ensures
        data is Some <==> is_hex(text@),
        data matches Some(v) ==> v@ == unhex(text@),
{
    if text.len() % 2 != 0 {
        return None;
    }
    let mut out: Vec<u8> = Vec::new();
    let mut i: usize = 0;
    while i < text.len()
        invariant
            i <= text@.len(),
            i % 2 == 0,
            text@.len() % 2 == 0,
            out@.len() == i / 2,
            forall|k: int| 0 <= k < i ==> (#[trigger] digit_value(text@[k])) is Some,
            forall|k: int| 0 <= k < i / 2 ==> out@[k] == unhex(text@)[k],
        decreases text@.len() - i,
    {
        let high = match value(text[i]) {
            Some(v) => v,
            None => {
                assert(digit_value(text@[i as int]) is None);
                return None;
            },
        };
        let low = match value(text[i + 1]) {
            Some(v) => v,
            None => {
                assert(digit_value(text@[i + 1]) is None);
                return None;
            },
        };
        let ghost before = out@;
        out.push(high * 16 + low);
        proof {
            assert forall|k: int| 0 <= k < (i + 2) / 2 implies out@[k] == unhex(text@)[k] by {
                if k < i / 2 {
                    assert(out@[k] == before[k]);
                } else {
                    assert(2 * k == i);
                }
            }
        }
        i = i + 2;
    }
    assert(out@ =~= unhex(text@));
    Some(out)
}

} // verus!

//! Conversions between text, bytes and numbers.

use vstd::prelude::*;
use vstd::utf8::{
    decode_utf8, encode_utf8, encode_utf8_decode_utf8, encode_utf8_valid_utf8, is_ascii_chars,
    is_ascii_chars_encode_utf8, valid_utf8,
};

verus! {

/// The character of the decimal digit `d`, `0 <= d < 10`.
pub open spec fn digit_char(d: int) -> char {
    (48 + d) as u8 as char
}

/// The decimal digits of `n`, without leading zeros.
pub open spec fn digits(n: nat) -> Seq<char>
    decreases n,
{
    if n < 10 {
        seq![digit_char(n as int)]
    } else {
        digits(n / 10).push(digit_char((n % 10) as int))
    }
}

/// `n` in decimal, with a minus sign before a negative number.
pub open spec fn decimal_text(n: int) -> Seq<char> {
    if n < 0 {
        seq!['-'] + digits((-n) as nat)
    } else {
        digits(n as nat)
    }
}

/// The digits of a number are ASCII, and there are no more of them than the
/// number is large.
pub proof fn lemma_digits_are_short(n: nat)
    ensures
        is_ascii_chars(digits(n)),
        1 <= digits(n).len() <= n + 1,
    decreases n,
{
    if n >= 10 {
        lemma_digits_are_short(n / 10);
        let head = digits(n / 10);
        assert forall|i: int| 0 <= i < digits(n).len() implies '\0' <= #[trigger] digits(n)[i]
            <= '\u{7f}' by {
            if i < head.len() {
                assert(digits(n)[i] == head[i]);
            }
        }
    }
}

/// A number from 10000 to 99999 is written with five digits.
pub proof fn lemma_five_digits(n: nat)
    requires
        10000 <= n <= 99999,
    ensures
        digits(n).len() == 5,
        forall|i: int| 0 <= i < 5 ==> '0' <= #[trigger] digits(n)[i] <= '9',
{
    reveal_with_fuel(digits, 6);
    let d = digits(n);
    assert(d.len() == 5);
    assert(d[4] == digit_char((n % 10) as int));
    assert(d[3] == digit_char((n / 10 % 10) as int));
    assert(d[2] == digit_char((n / 100 % 10) as int));
    assert(d[1] == digit_char((n / 1000 % 10) as int));
    assert(d[0] == digit_char((n / 10000) as int));
}

/// A number in decimal is ASCII text, one byte to the character, and short.
pub proof fn lemma_decimal_is_short(n: int)
    ensures
        is_ascii_chars(decimal_text(n)),
        encode_utf8(decimal_text(n)).len() == decimal_text(n).len(),
        decimal_text(n).len() <= vstd::math::abs(n) + 2,
{
    if n < 0 {
        lemma_digits_are_short((-n) as nat);
        let tail = digits((-n) as nat);
        assert forall|i: int| 0 <= i < decimal_text(n).len() implies '\0'
            <= #[trigger] decimal_text(n)[i] <= '\u{7f}' by {
            if i > 0 {
                assert(decimal_text(n)[i] == tail[i - 1]);
            }
        }
    } else {
        lemma_digits_are_short(n as nat);
    }
    is_ascii_chars_encode_utf8(decimal_text(n));
}

/// The ASCII bytes of the decimal digits of `n`.
pub open spec fn digit_bytes(n: nat) -> Seq<u8>
    decreases n,
{
    if n < 10 {
        seq![(48 + n) as u8]
    } else {
        digit_bytes(n / 10).push((48 + n % 10) as u8)
    }
}

/// The ASCII bytes of `n` in decimal.
pub open spec fn decimal_bytes(n: int) -> Seq<u8> {
    if n < 0 {
        seq![45u8] + digit_bytes((-n) as nat)
    } else {
        digit_bytes(n as nat)
    }
}

/// The digits of a number, as bytes and as characters, are the same.
proof fn lemma_digit_bytes(n: nat)
    ensures
        digit_bytes(n).len() == digits(n).len(),
        forall|i: int|
            0 <= i < digits(n).len() ==> #[trigger] digits(n)[i] as u8 == digit_bytes(n)[i],
    decreases n,
{
    if n >= 10 {
        lemma_digit_bytes(n / 10);
        let head = digits(n / 10);
        assert forall|i: int| 0 <= i < digits(n).len() implies #[trigger] digits(n)[i] as u8
            == digit_bytes(n)[i] by {
            if i < head.len() {
                assert(digits(n)[i] == head[i]);
                assert(digit_bytes(n)[i] == digit_bytes(n / 10)[i]);
            }
        }
    }
}

/// The bytes of a number in decimal are the UTF-8 encoding of its text.
proof fn lemma_decimal_bytes(n: int)
    ensures
        decimal_bytes(n) == encode_utf8(decimal_text(n)),
{
    lemma_decimal_is_short(n);
    let text = decimal_text(n);
    if n < 0 {
        lemma_digit_bytes((-n) as nat);
        assert forall|i: int| 0 <= i < text.len() implies text[i] as u8 == decimal_bytes(n)[i] by {
            if i > 0 {
                assert(text[i] == digits((-n) as nat)[i - 1]);
                assert(decimal_bytes(n)[i] == digit_bytes((-n) as nat)[i - 1]);
            }
        }
    } else {
        lemma_digit_bytes(n as nat);
    }
    is_ascii_chars_encode_utf8(text);
    assert(decimal_bytes(n) =~= encode_utf8(text));
}

/// Appends the decimal digits of `n` to `out`.
fn push_digits(n: u64, out: &mut Vec<u8>)
    ensures
        final(out)@ == old(out)@ + digit_bytes(n as nat),
    decreases n,
{
    if n >= 10 {
        push_digits(n / 10, out);
    }
    let digit: u8 = 48 + (n % 10) as u8;
    out.push(digit);
    assert(final(out)@ =~= old(out)@ + digit_bytes(n as nat));
}

/// Writes `n` in decimal, with a minus sign before a negative number.
pub fn decimal(n: i64) -> (text: String)
    ensures
        text@ == decimal_text(n as int),
{
    let mut bytes: Vec<u8> = Vec::new();
    let magnitude: u64 = if n < 0 {
        bytes.push(45u8);
        (-(n + 1)) as u64 + 1
    } else {
        n as u64
    };
    push_digits(magnitude, &mut bytes);
    proof {
        assert(bytes@ =~= decimal_bytes(n as int));
        lemma_decimal_bytes(n as int);
        encode_utf8_valid_utf8(decimal_text(n as int));
        encode_utf8_decode_utf8(decimal_text(n as int));
    }
    match string_from_utf8(bytes) {
        Some(text) => text,
        None => String::new(),
    }
}

/// Calls `String::from_utf8`, which accepts exactly the byte strings that
/// are valid UTF-8 and gives the text that they encode.
#[verifier::external_body]
pub(crate) fn string_from_utf8(bytes: Vec<u8>) -> (text: Option<String>)
    ensures
        text is Some <==> valid_utf8(bytes@),
        text matches Some(s) ==> s@ == decode_utf8(bytes@),
{
    String::from_utf8(bytes).ok()
}

} // verus!

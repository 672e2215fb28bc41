//! Hexadecimal text as a mathematical object: which characters are digits,
//! what a digit is worth, and how bytes and text map onto each other.

use vstd::prelude::*;

verus! {

/// `c` is one of `0`-`9`, `a`-`f` or `A`-`F`.
pub open spec fn is_digit(c: char) -> bool {
    ||| 0x30 <= c as int <= 0x39
    ||| 0x61 <= c as int <= 0x66
    ||| 0x41 <= c as int <= 0x46
}

/// The number between 0 and 15 that the digit `c` stands for.
pub open spec fn digit_value(c: char) -> int {
    if 0x30 <= c as int <= 0x39 {
        c as int - 0x30
    } else if 0x61 <= c as int <= 0x66 {
        c as int - 0x61 + 10
    } else {
        c as int - 0x41 + 10
    }
}

/// The lower-case digit for a number between 0 and 15.
pub open spec fn digit(n: int) -> char {
    if n < 10 {
        (0x30 + n) as char
    } else {
        (0x61 + n - 10) as char
    }
}

/// Every character of `text` is a digit.
pub open spec fn all_digits(text: Seq<char>) -> bool {
    forall|i: int| 0 <= i < text.len() ==> is_digit(#[trigger] text[i])
}

/// The bytes written by `text`, two digits to a byte, high digit first.
pub open spec fn decode(text: Seq<char>) -> Seq<u8> {
    Seq::new(
        text.len() / 2,
        |i: int| (16 * digit_value(text[2 * i]) + digit_value(text[2 * i + 1])) as u8,
    )
}

/// The lower-case text that writes `bytes`, two digits to a byte, high digit
/// first.
pub open spec fn encode(bytes: Seq<u8>) -> Seq<char> {
    Seq::new(
        2 * bytes.len(),
        |i: int|
            digit(
                if i % 2 == 0 {
                    bytes[i / 2] as int / 16
                } else {
                    bytes[i / 2] as int % 16
                },
            ),
    )
}

/// A lower-case digit is a digit, and is worth the number it was made from.
pub proof fn lemma_digit_round_trip(n: int)
    requires
        0 <= n < 16,
    ensures
        is_digit(digit(n)),
        digit_value(digit(n)) == n,
{
}

/// Encoded bytes are digits throughout, two for each byte.
pub proof fn lemma_encode_all_digits(bytes: Seq<u8>)
    ensures
        encode(bytes).len() == 2 * bytes.len(),
        all_digits(encode(bytes)),
{
    assert forall|i: int| 0 <= i < encode(bytes).len() implies is_digit(
        #[trigger] encode(bytes)[i],
    ) by {
        let b = bytes[i / 2] as int;
        lemma_digit_round_trip(b / 16);
        lemma_digit_round_trip(b % 16);
    }
}

/// Decoding what was encoded gives the bytes back.
pub proof fn lemma_decode_encode(bytes: Seq<u8>)
    ensures
        decode(encode(bytes)) == bytes,
{
    let text = encode(bytes);
    assert forall|i: int| 0 <= i < bytes.len() implies decode(text)[i] == bytes[i] by {
        let b = bytes[i] as int;
        lemma_digit_round_trip(b / 16);
        lemma_digit_round_trip(b % 16);
        assert((2 * i) / 2 == i && (2 * i) % 2 == 0);
        assert((2 * i + 1) / 2 == i && (2 * i + 1) % 2 == 1);
        assert(text[2 * i] == digit(b / 16));
        assert(text[2 * i + 1] == digit(b % 16));
        assert(16 * (b / 16) + b % 16 == b);
    }
    assert(decode(text) =~= bytes);
}

/// Two byte strings with the same encoding are the same.
pub proof fn lemma_encode_injective(a: Seq<u8>, b: Seq<u8>)
    requires
        encode(a) == encode(b),
    ensures
        a == b,
{
    lemma_decode_encode(a);
    lemma_decode_encode(b);
}

} // verus!

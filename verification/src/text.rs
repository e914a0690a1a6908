//! Numbers written as text: what a string of decimal or hexadecimal digits
//! stands for, over the bytes of the string.

use vstd::prelude::*;

verus! {

/// `b` is one of the ASCII digits `0` to `9`.
pub open spec fn is_dec_digit(b: u8) -> bool {
    0x30 <= b <= 0x39
}

/// `b` is an ASCII digit, or a letter `a` to `f` in either case.
pub open spec fn is_hex_digit(b: u8) -> bool {
    is_dec_digit(b) || 0x41 <= b <= 0x46 || 0x61 <= b <= 0x66
}

/// The number that the digit `b` stands for (0 where it is no digit).
pub open spec fn digit_value(b: u8) -> nat {
    if is_dec_digit(b) {
        (b - 0x30) as nat
    } else if 0x41 <= b <= 0x46 {
        (b - 0x41 + 10) as nat
    } else if 0x61 <= b <= 0x66 {
        (b - 0x61 + 10) as nat
    } else {
        0
    }
}

/// Every byte of `text` is a decimal digit.
pub open spec fn all_dec(text: Seq<u8>) -> bool {
    forall|i: int| 0 <= i < text.len() ==> is_dec_digit(#[trigger] text[i])
}

/// Every byte of `text` is a hexadecimal digit.
pub open spec fn all_hex(text: Seq<u8>) -> bool {
    forall|i: int| 0 <= i < text.len() ==> is_hex_digit(#[trigger] text[i])
}

/// The number that the digits of `text` spell in the given base, most
/// significant digit first. The empty text spells 0.
pub open spec fn number(text: Seq<u8>, base: nat) -> nat
    decreases text.len(),
{
    if text.len() == 0 {
        0
    } else {
        number(text.drop_last(), base) * base + digit_value(text.last())
    }
}

/// `text` without a leading `0x`, if it has one.
pub open spec fn without_0x(text: Seq<u8>) -> Seq<u8> {
    if text.len() >= 2 && text[0] == 0x30 && text[1] == 0x78 {
        text.skip(2)
    } else {
        text
    }
}

/// The number below `limit` that `text` spells in decimal digits, if it
/// spells one.
pub open spec fn decimal(text: Seq<u8>, limit: nat) -> Option<nat> {
    if all_dec(text) && number(text, 10) < limit {
        Some(number(text, 10))
    } else {
        None
    }
}

/// The number that `text` spells in at most `width` hexadecimal digits,
/// with or without a leading `0x`, if it spells one.
pub open spec fn hexadecimal(text: Seq<u8>, width: nat) -> Option<nat> {
    let digits = without_0x(text);
    if digits.len() <= width && all_hex(digits) {
        Some(number(digits, 16))
    } else {
        None
    }
}

/// `text` without a leading `+`, if it has one.
pub open spec fn without_plus(text: Seq<u8>) -> Seq<u8> {
    if text.len() >= 1 && text[0] == 0x2b {
        text.skip(1)
    } else {
        text
    }
}

/// The number below `limit` that `text` spells in one or more decimal
/// digits, with or without a leading `+`, if it spells one.
pub open spec fn unsigned_decimal(text: Seq<u8>, limit: nat) -> Option<nat> {
    let digits = without_plus(text);
    if digits.len() > 0 && all_dec(digits) && number(digits, 10) < limit {
        Some(number(digits, 10))
    } else {
        None
    }
}

} // verus!

//! Decimal numbers rewritten in hexadecimal.
//!
//! Tag identifiers are written in hexadecimal. A number typed in decimal is
//! turned into that notation here, on the bytes of the text.

use vstd::prelude::*;
use vstd::string::StringSliceAdditionalSpecFns;

verus! {

/// Whether `byte` is one of the characters `0` to `9`.
pub open spec fn is_digit(byte: u8) -> bool {
    0x30 <= byte <= 0x39
}

/// The number that the digit `byte` stands for; no digit stands for zero.
pub open spec fn digit_value(byte: u8) -> nat {
    if is_digit(byte) {
        (byte - 0x30) as nat
    } else {
        0
    }
}

/// The number that `digits` spell in decimal.
pub open spec fn decimal_value(digits: Seq<u8>) -> nat
    decreases digits.len(),
{
    if digits.len() == 0 {
        0
    } else {
        decimal_value(digits.drop_last()) * 10 + digit_value(digits.last())
    }
}

/// The text without the plus sign that may stand in front of a number.
pub open spec fn unsigned_part(text: Seq<u8>) -> Seq<u8> {
    if text.len() > 0 && text[0] == 0x2B {
        text.subrange(1, text.len() as int)
    } else {
        text
    }
}

/// The number that `text` spells: an optional plus sign, then one or more
/// decimal digits whose value fits in 64 bits. Any other text spells none.
pub open spec fn parsed(text: Seq<u8>) -> Option<u64> {
    let digits = unsigned_part(text);
    if digits.len() > 0 && (forall|i: int| 0 <= i < digits.len() ==> is_digit(#[trigger] digits[i]))
        && decimal_value(digits) <= u64::MAX {
        Some(decimal_value(digits) as u64)
    } else {
        None
    }
}

/// The character for a hexadecimal digit of value `value`, in upper case.
pub open spec fn hex_digit(value: nat) -> u8 {
    if value < 10 {
        (0x30 + value) as u8
    } else {
        (0x41 + value - 10) as u8
    }
}

/// The hexadecimal digits of `number`, most significant first and without
/// leading zeros; zero is the single digit `0`.
pub open spec fn hex_digits(number: nat) -> Seq<u8>
    decreases number,
{
    if number < 16 {
        seq![hex_digit(number)]
    } else {
        hex_digits(number / 16).push(hex_digit(number % 16))
    }
}

/// A number is no smaller than what any of its leading digits spell.
pub proof fn lemma_leading_digits_spell_less(digits: Seq<u8>, count: int)
    requires
        0 <= count <= digits.len(),
    ensures
        decimal_value(digits.subrange(0, count)) <= decimal_value(digits),
    decreases digits.len() - count,
{
    if count == digits.len() {
        assert(digits.subrange(0, count) =~= digits);
    } else {
        lemma_leading_digits_spell_less(digits.drop_last(), count);
        assert(digits.drop_last().subrange(0, count) =~= digits.subrange(0, count));
    }
}

fn push_hex(number: u64, out: &mut Vec<u8>)
    ensures
        final(out)@ == old(out)@ + hex_digits(number as nat),
    decreases number,
{
    if number >= 16 {
        push_hex(number / 16, out);
    }
    let value: u8 = (number % 16) as u8;
    let digit: u8 = if value < 10 {
        0x30 + value
    } else {
        0x41 + (value - 10)
    };
    out.push(digit);
    assert(final(out)@ =~= old(out)@ + hex_digits(number as nat));
}

/// Reads `text` as a decimal number.
pub fn parse_decimal(text: &[u8]) -> (number: Option<u64>)
    ensures
        number == parsed(text@),
{
    let total: usize = text.len();
    let start: usize = if total > 0 && text[0] == 0x2B {
        1
    } else {
        0
    };
    let ghost digits = unsigned_part(text@);
    assert(digits =~= text@.subrange(start as int, total as int));
    if start == total {
        return None;
    }
    let mut value: u64 = 0;
    let mut i: usize = start;
    while i < total
        invariant
            start <= i <= total,
            total == text@.len(),
            digits == unsigned_part(text@),
            digits == text@.subrange(start as int, total as int),
            value == decimal_value(digits.subrange(0, i - start)),
            forall|k: int| 0 <= k < i - start ==> is_digit(#[trigger] digits[k]),
        decreases total - i,
    {
        let byte: u8 = text[i];
        if byte < 0x30 || byte > 0x39 {
            assert(!is_digit(digits[i - start]));
            return None;
        }
        let ghost longer = digits.subrange(0, i - start + 1);
        assert(longer.drop_last() =~= digits.subrange(0, i - start));
        assert(longer.last() == byte);
        assert(decimal_value(longer) == value * 10 + (byte - 0x30));
        proof {
            lemma_leading_digits_spell_less(digits, i - start + 1);
        }
        let scaled: u64 = match value.checked_mul(10) {
            Some(scaled) => scaled,
            None => {
                return None;
            },
        };
        value = match scaled.checked_add((byte - 0x30) as u64) {
            Some(sum) => sum,
            None => {
                return None;
            },
        };
        i = i + 1;
    }
    assert(digits.subrange(0, total - start) =~= digits);
    Some(value)
}

/// Rewrites a decimal number in hexadecimal.
///
/// The text may carry a plus sign and must otherwise be decimal digits
/// that spell a number of at most 64 bits; the result is that number's
/// hexadecimal digits in upper case. Any other text has no result.
pub fn numbers_to_hex(numbers_str: &str) -> (hex: Option<Vec<u8>>)
    ensures
        match parsed(numbers_str.spec_bytes()) {
            Some(number) => hex matches Some(digits) && digits@ == hex_digits(number as nat),
            None => hex is None,
        },
{
    match parse_decimal(numbers_str.as_bytes()) {
        Some(number) => {
            let mut digits: Vec<u8> = Vec::new();
            push_hex(number, &mut digits);
            Some(digits)
        },
        None => None,
    }
}

} // verus!

//! Sixteen-bit memory words and the bit fields packed into them.
//!
//! Tag memory is addressed in words of sixteen bits, sent most significant
//! byte first.

use vstd::prelude::*;

verus! {

/// The word whose most significant byte is `hi` and whose least significant
/// byte is `lo`.
pub open spec fn word_from_bytes(hi: u8, lo: u8) -> u16 {
    (hi as int * 256 + lo as int) as u16
}

/// The two's-complement reading of a sixteen-bit word.
pub open spec fn signed_value(word: u16) -> int {
    if word >= 0x8000 {
        word as int - 0x1_0000
    } else {
        word as int
    }
}

/// The signed trim held in the low five bits of `raw`: bit 4 is the sign,
/// so the field ranges over -16 ..= 15.
pub open spec fn trim_value(raw: u16) -> int {
    let field = raw as int % 32;
    if field >= 16 {
        field - 32
    } else {
        field
    }
}

/// Splits a word into its two bytes, most significant first.
pub fn encode_word(value: u16) -> (bytes: [u8; 2])
    ensures
        bytes[0] as int == value as int / 256,
        bytes[1] as int == value as int % 256,
        word_from_bytes(bytes[0], bytes[1]) == value,
{
    assert(value >> 8 == value / 256) by (bit_vector);
    assert(value & 0xFF == value % 256) by (bit_vector);
    let hi: u8 = (value >> 8) as u8;
    let lo: u8 = (value & 0xFF) as u8;
    [hi, lo]
}

/// Splits a signed value into the two bytes of its two's-complement word,
/// most significant first.
pub fn encode_signed(value: i16) -> (bytes: [u8; 2])
    ensures
        signed_value(word_from_bytes(bytes[0], bytes[1])) == value,
{
    let word: u16 = reinterpret_unsigned(value);
    encode_word(word)
}

/// Joins two bytes, most significant first, into a word.
pub fn decode_word(bytes: [u8; 2]) -> (value: u16)
    ensures
        value == word_from_bytes(bytes[0], bytes[1]),
{
    let hi: u16 = bytes[0] as u16;
    let lo: u16 = bytes[1] as u16;
    hi * 256 + lo
}

/// The word with the same sixteen bits as `value`.
pub fn reinterpret_unsigned(value: i16) -> (word: u16)
    ensures
        signed_value(word) == value,
{
    if value < 0 {
        (value as i32 + 0x1_0000) as u16
    } else {
        value as u16
    }
}

/// The signed number with the same sixteen bits as `word`.
pub fn reinterpret_signed(word: u16) -> (value: i16)
    ensures
        value == signed_value(word),
{
    if word >= 0x8000 {
        (word as i32 - 0x1_0000) as i16
    } else {
        word as i16
    }
}

/// Sign-extends the five-bit trim field in the low bits of `raw`.
///
/// Where bit 4 is set the upper eleven bits are filled with ones before the
/// word is read as a signed number; where it is clear they are dropped.
pub fn sign_extend5(raw: u16) -> (trim: i16)
    ensures
        trim == trim_value(raw),
        -16 <= trim <= 15,
{
    let extended: u16 = if raw & 0x0010 != 0 {
        raw | 0xFFE0
    } else {
        raw & 0x001F
    };
    assert(raw & 0x0010 != 0 ==> (raw | 0xFFE0) >= 0x8000 && (raw | 0xFFE0) - 0x1_0000 == raw % 32
        - 32 && raw % 32 >= 16) by (bit_vector);
    assert(raw & 0x0010 == 0 ==> (raw & 0x001F) == raw % 32 && raw % 32 < 16) by (bit_vector);
    reinterpret_signed(extended)
}

/// The trim field reads back from its own sign extension: extending twice
/// changes nothing, and a set bit 4 is exactly a negative trim.
pub proof fn lemma_trim_sign(raw: u16)
    ensures
        -16 <= trim_value(raw) <= 15,
        trim_value(raw) < 0 <==> raw & 0x0010 != 0,
        raw < 32 ==> (trim_value(raw) < 0 <==> raw >= 16),
{
    assert((raw & 0x0010 != 0) <==> raw % 32 >= 16) by (bit_vector);
}

} // verus!

//! The glyph database: one 25-bit picture for each ASCII digit and letter.

use vstd::prelude::*;
use crate::error::ErrorCode;

verus! {

/// Number of bits of a glyph, and of elements on the display.
pub const GLYPH_BITS: usize = 25;

/// Pictures of `0` to `9`, five rows of five bits each, top row first.
pub const DIGITS: [u32; 10] = [
    0b11111_10011_10101_11001_11111,
    0b00100_01100_00100_00100_01110,
    0b11110_00001_01110_10000_11111,
    0b11110_00001_11110_00001_11110,
    0b10000_10000_10100_11111_00100,
    0b11111_10000_11110_00001_11110,
    0b11111_10000_11111_10001_11111,
    0b11111_00001_00010_00100_00100,
    0b11111_10001_11111_10001_11111,
    0b11111_10001_11111_00001_11111,
];

/// Pictures of `A` to `Z`, five rows of five bits each, top row first.
pub const LETTERS: [u32; 26] = [
    0b01110_10001_11111_10001_10001,
    0b11111_10001_11110_10001_11111,
    0b11111_10000_10000_10000_11111,
    0b11110_10001_10001_10001_11110,
    0b11111_10000_11110_10000_11111,
    0b11111_10000_11110_10000_10000,
    0b11111_10000_10111_10001_11111,
    0b10001_10001_11111_10001_10001,
    0b11111_00100_00100_00100_11111,
    0b00011_00001_00001_10001_11111,
    0b10001_10010_11100_10010_10001,
    0b10000_10000_10000_10000_11111,
    0b10001_11011_10101_10001_10001,
    0b10001_11001_10101_10011_10001,
    0b01110_10001_10001_10001_01110,
    0b11110_10001_11110_10000_10000,
    0b01110_10001_10001_01110_00011,
    0b11110_10001_11110_10001_10001,
    0b11111_10000_11111_00001_11111,
    0b11111_00100_00100_00100_00100,
    0b10001_10001_10001_10001_11111,
    0b10001_10001_01010_01010_00100,
    0b10001_10001_10101_10101_01010,
    0b10001_01010_00100_01010_10001,
    0b10001_10001_01010_00100_00100,
    0b11111_00010_00100_01000_11111,
];

/// The code point of `c` with the lowercase ASCII letters folded to
/// uppercase.
pub open spec fn folded(c: char) -> int {
    if 'a' <= c <= 'z' {
        c as int - 32
    } else {
        c as int
    }
}

/// The picture of `c`, for the characters that have one: the ASCII digits
/// and, in either case, the ASCII letters.
pub open spec fn glyph_of(c: char) -> Option<u32> {
    let code = folded(c);
    if '0' as int <= code <= '9' as int {
        Some(DIGITS[code - '0' as int])
    } else if 'A' as int <= code <= 'Z' as int {
        Some(LETTERS[code - 'A' as int])
    } else {
        None
    }
}

/// Looks a character up in the database.
pub fn lookup(character: char) -> (r: Result<u32, ErrorCode>)
    ensures
        r == match glyph_of(character) {
            Some(glyph) => Ok::<u32, ErrorCode>(glyph),
            None => Err::<u32, ErrorCode>(ErrorCode::UnsupportedGlyph),
        },
{
    let raw: u32 = character as u32;
    let code: u32 = if 97 <= raw && raw <= 122 { raw - 32 } else { raw };
    if 48 <= code && code <= 57 {
        let index: usize = (code - 48) as usize;
        Ok(DIGITS[index])
    } else if 65 <= code && code <= 90 {
        let index: usize = (code - 65) as usize;
        Ok(LETTERS[index])
    } else {
        Err(ErrorCode::UnsupportedGlyph)
    }
}

} // verus!

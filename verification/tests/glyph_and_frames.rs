use led_matrix_text::error::ErrorCode;
use led_matrix_text::glyph::{lookup, DIGITS, GLYPH_BITS, LETTERS};
use led_matrix_text::render::{display, render, Picture};

fn rows(pattern: [&str; 5]) -> Vec<bool> {
    let mut frame = Vec::new();
    for row in pattern.iter() {
        for cell in row.chars() {
            frame.push(cell == '#');
        }
    }
    frame
}

#[test]
fn lookup_finds_every_digit() {
    for (index, digit) in "0123456789".chars().enumerate() {
        assert_eq!(lookup(digit), Ok(DIGITS[index]));
    }
    assert_eq!(lookup('0'), Ok(0b11111_10011_10101_11001_11111));
    assert_eq!(lookup('9'), Ok(0b11111_10001_11111_00001_11111));
}

#[test]
fn lookup_finds_every_letter_in_both_cases() {
    for (index, letter) in "ABCDEFGHIJKLMNOPQRSTUVWXYZ".chars().enumerate() {
        assert_eq!(lookup(letter), Ok(LETTERS[index]));
        assert_eq!(lookup(letter.to_ascii_lowercase()), Ok(LETTERS[index]));
    }
    assert_eq!(lookup('H'), Ok(0b10001_10001_11111_10001_10001));
    assert_eq!(lookup('h'), Ok(0b10001_10001_11111_10001_10001));
    assert_eq!(lookup('Z'), Ok(0b11111_00010_00100_01000_11111));
    assert_eq!(lookup('a'), Ok(0b01110_10001_11111_10001_10001));
}

#[test]
fn lookup_rejects_everything_else() {
    assert_eq!(lookup('$'), Err(ErrorCode::UnsupportedGlyph));
    for other in [' ', '/', ':', '@', '[', '`', '{', '\0', '\u{7f}', '\u{e9}', '\u{ff}', '\u{4e2d}'] {
        assert_eq!(lookup(other), Err(ErrorCode::UnsupportedGlyph));
    }
}

#[test]
fn lookup_accepts_exactly_the_digits_and_letters_among_the_bytes() {
    let mut accepted = 0;
    for byte in 0u8..=255 {
        let expected = byte.is_ascii_alphanumeric();
        assert_eq!(lookup(byte as char).is_ok(), expected);
        if expected {
            accepted += 1;
        }
    }
    assert_eq!(accepted, 62);
}

#[test]
fn glyphs_are_25_bit_masks() {
    assert_eq!(GLYPH_BITS, 25);
    for glyph in DIGITS.iter().chain(LETTERS.iter()) {
        assert!(*glyph < (1 << 25));
        assert_ne!(*glyph, 0);
    }
}

#[test]
fn render_unpacks_rows_from_the_most_significant_bit() {
    let frame = render(Picture::Glyph(0b10001_10001_11111_10001_10001));
    assert_eq!(frame, rows(["#...#", "#...#", "#####", "#...#", "#...#"]));
    let frame = render(Picture::Glyph(0b00011_00001_00001_10001_11111));
    assert_eq!(frame, rows(["...##", "....#", "....#", "#...#", "#####"]));
}

#[test]
fn render_single_bits() {
    let first = render(Picture::Glyph(1 << 24));
    let last = render(Picture::Glyph(1));
    for index in 0..25 {
        assert_eq!(first[index], index == 0);
        assert_eq!(last[index], index == 24);
    }
}

#[test]
fn render_ignores_bits_above_the_grid() {
    assert_eq!(render(Picture::Glyph(0xfe00_0000)), vec![false; 25]);
    assert_eq!(render(Picture::Glyph(u32::MAX)), vec![true; 25]);
}

#[test]
fn render_blank_switches_everything_off() {
    assert_eq!(render(Picture::Blank), vec![false; 25]);
    assert_eq!(render(Picture::Glyph(0)), vec![false; 25]);
}

#[test]
fn display_enabled_shows_the_glyph() {
    let (frame, result) = display('i', true);
    assert_eq!(result, Ok(()));
    assert_eq!(frame, rows(["#####", "..#..", "..#..", "..#..", "#####"]));
}

#[test]
fn display_disabled_is_blank_without_error() {
    assert_eq!(display('I', false), (vec![false; 25], Ok(())));
    assert_eq!(display('$', false), (vec![false; 25], Ok(())));
}

#[test]
fn display_of_unsupported_character_is_blank_with_error() {
    assert_eq!(display('$', true), (vec![false; 25], Err(ErrorCode::UnsupportedGlyph)));
}

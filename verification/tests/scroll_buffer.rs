use led_matrix_text::error::ErrorCode;
use led_matrix_text::glyph::lookup;
use led_matrix_text::render::{render, Picture};
use led_matrix_text::scroll::ScrollBuffer;

fn glyph_frame(character: char) -> Vec<bool> {
    render(Picture::Glyph(lookup(character).unwrap()))
}

#[test]
fn new_scroll_is_empty() {
    let scroll = ScrollBuffer::new(vec![0; 8]);
    assert_eq!(scroll.capacity(), 8);
    assert_eq!(scroll.len(), 0);
    assert_eq!(scroll.position(), 0);
}

#[test]
fn write_sets_length_to_the_maximum() {
    let mut scroll = ScrollBuffer::new(vec![0; 8]);
    assert_eq!(scroll.write(b"HELLO", 5), Ok(()));
    assert_eq!(scroll.len(), 5);
    assert_eq!(scroll.write(b"AB", 2), Ok(()));
    assert_eq!(scroll.len(), 5);
    assert_eq!(scroll.write(b"ABCDEFGH", 8), Ok(()));
    assert_eq!(scroll.len(), 8);
}

#[test]
fn write_rejects_a_count_beyond_the_capacity() {
    let mut scroll = ScrollBuffer::new(vec![0; 8]);
    assert_eq!(scroll.write(b"AB", 2), Ok(()));
    assert_eq!(scroll.write(b"TOOLONGTEXT", 11), Err(ErrorCode::OversizeWrite));
    assert_eq!(scroll.write(b"TOOLONGTEXT", 9), Err(ErrorCode::OversizeWrite));
    assert_eq!(scroll.len(), 2);
    assert_eq!(scroll.advance(true).frame, Some(glyph_frame('A')));
}

#[test]
fn write_rejects_a_count_beyond_the_bytes_given() {
    let mut scroll = ScrollBuffer::new(vec![0; 8]);
    assert_eq!(scroll.write(b"AB", 3), Err(ErrorCode::OversizeWrite));
    assert_eq!(scroll.len(), 0);
}

#[test]
fn write_copies_only_the_count() {
    let mut scroll = ScrollBuffer::new(vec![0; 8]);
    assert_eq!(scroll.write(b"XYZ", 3), Ok(()));
    assert_eq!(scroll.write(b"ABC", 1), Ok(()));
    assert_eq!(scroll.advance(true).frame, Some(glyph_frame('A')));
    assert_eq!(scroll.advance(true).frame, Some(glyph_frame('Y')));
    assert_eq!(scroll.advance(true).frame, Some(glyph_frame('Z')));
}

#[test]
fn write_keeps_the_position() {
    let mut scroll = ScrollBuffer::new(vec![0; 8]);
    assert_eq!(scroll.write(b"ABC", 3), Ok(()));
    scroll.advance(true);
    scroll.advance(true);
    assert_eq!(scroll.position(), 2);
    assert_eq!(scroll.write(b"XYZW", 4), Ok(()));
    assert_eq!(scroll.position(), 2);
    assert_eq!(scroll.advance(true).frame, Some(glyph_frame('Z')));
    assert_eq!(scroll.advance(true).frame, Some(glyph_frame('W')));
    assert_eq!(scroll.advance(true).frame, Some(glyph_frame('X')));
}

#[test]
fn advance_on_empty_renders_nothing() {
    let mut scroll = ScrollBuffer::new(vec![0; 8]);
    let step = scroll.advance(true);
    assert_eq!(step.frame, None);
    assert!(!step.more);
    assert_eq!(scroll.position(), 0);
}

#[test]
fn advance_wraps_at_the_length() {
    let mut scroll = ScrollBuffer::new(vec![0; 8]);
    assert_eq!(scroll.write(b"AB", 2), Ok(()));
    let expected = ['A', 'B', 'A', 'B', 'A'];
    let positions = [1, 2, 1, 2, 1];
    for turn in 0..5 {
        let step = scroll.advance(true);
        assert!(step.more);
        assert_eq!(step.frame, Some(glyph_frame(expected[turn])));
        assert_eq!(scroll.position(), positions[turn]);
    }
}

#[test]
fn advance_disabled_moves_and_renders_blank() {
    let mut scroll = ScrollBuffer::new(vec![0; 8]);
    assert_eq!(scroll.write(b"AB", 2), Ok(()));
    let step = scroll.advance(false);
    assert_eq!(step.frame, Some(vec![false; 25]));
    assert!(step.more);
    assert_eq!(scroll.position(), 1);
    assert_eq!(scroll.advance(true).frame, Some(glyph_frame('B')));
}

#[test]
fn advance_over_unsupported_byte_renders_blank() {
    let mut scroll = ScrollBuffer::new(vec![0; 8]);
    assert_eq!(scroll.write(b"A$", 2), Ok(()));
    scroll.advance(true);
    assert_eq!(scroll.advance(true).frame, Some(vec![false; 25]));
    assert_eq!(scroll.position(), 2);
}

#[test]
fn clear_resets_and_blanks() {
    let mut scroll = ScrollBuffer::new(vec![0; 8]);
    assert_eq!(scroll.write(b"AB", 2), Ok(()));
    scroll.advance(true);
    assert_eq!(scroll.clear(), vec![false; 25]);
    assert_eq!(scroll.len(), 0);
    assert_eq!(scroll.position(), 0);
    assert_eq!(scroll.capacity(), 8);
    assert!(!scroll.advance(true).more);
}

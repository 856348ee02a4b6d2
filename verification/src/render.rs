//! The renderer: unpacks a picture into one on/off command per element.

use vstd::prelude::*;
use crate::error::ErrorCode;
use crate::glyph::{glyph_of, lookup, GLYPH_BITS};

verus! {

/// What a frame shows: the picture of a character, or nothing.
#[derive(Clone, Copy, Debug, PartialEq, Eq, Structural)]
pub enum Picture {
    /// A 25-bit mask; bit `24 - i` controls element `i`.
    Glyph(u32),
    /// Every element off.
    Blank,
}

/// Whether `glyph` switches element `index` on. Elements are counted row by
/// row, and the first one is the mask's most significant bit.
pub open spec fn lit(glyph: u32, index: int) -> bool
    recommends
        0 <= index < GLYPH_BITS,
{
    (glyph >> ((24 - index) as u32)) & 1 != 0
}

/// The frame of a picture: for each of the 25 elements, in index order,
/// whether it is on.
pub open spec fn frame_of(picture: Picture) -> Seq<bool> {
    Seq::new(
        GLYPH_BITS as nat,
        |index: int|
            match picture {
                Picture::Glyph(glyph) => lit(glyph, index),
                Picture::Blank => false,
            },
    )
}

/// The frame with every element off.
pub open spec fn blank_frame() -> Seq<bool> {
    frame_of(Picture::Blank)
}

/// What is shown for `character`: its glyph while the display is enabled
/// and the character has one, nothing otherwise.
pub open spec fn picture_of(character: char, enabled: bool) -> Picture {
    if enabled {
        match glyph_of(character) {
            Some(glyph) => Picture::Glyph(glyph),
            None => Picture::Blank,
        }
    } else {
        Picture::Blank
    }
}

/// The frame shown for a byte of text.
pub open spec fn frame_for(byte: u8, enabled: bool) -> Seq<bool> {
    frame_of(picture_of(byte as char, enabled))
}

/// Unpacks a picture into its frame.
pub fn render(picture: Picture) -> (frame: Vec<bool>)
    ensures
        frame@ == frame_of(picture),
{
    let mut frame: Vec<bool> = Vec::with_capacity(GLYPH_BITS);
    let mut index: usize = 0;
    while index < GLYPH_BITS
        invariant
            index <= GLYPH_BITS,
            frame@.len() == index,
            forall|i: int| 0 <= i < index ==> frame@[i] == frame_of(picture)[i],
        decreases GLYPH_BITS - index,
    {
        let on: bool = match picture {
            Picture::Glyph(glyph) => {
                let shift: u32 = 24 - index as u32;
                (glyph >> shift) & 1 != 0
            },
            Picture::Blank => false,
        };
        frame.push(on);
        index += 1;
    }
    assert(frame@ =~= frame_of(picture));
    frame
}

/// Renders one character. With the display disabled the frame is blank and
/// nothing is amiss. With it enabled, a character without a glyph gives a
/// blank frame too, together with the error.
pub fn display(character: char, enabled: bool) -> (shown: (Vec<bool>, Result<(), ErrorCode>))
    ensures
        shown.0@ == frame_of(picture_of(character, enabled)),
        shown.1 == if enabled && glyph_of(character) is None {
            Err::<(), ErrorCode>(ErrorCode::UnsupportedGlyph)
        } else {
            Ok::<(), ErrorCode>(())
        },
{
    if enabled {
        match lookup(character) {
            Ok(glyph) => (render(Picture::Glyph(glyph)), Ok(())),
            Err(error) => (render(Picture::Blank), Err(error)),
        }
    } else {
        (render(Picture::Blank), Ok(()))
    }
}

} // verus!

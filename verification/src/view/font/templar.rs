//! Templar: a font of three-line glyphs made of box-drawing strokes.

use vstd::prelude::*;
use std::ops::Range;
use super::CompositeChar;
use super::Font;
use super::is_clock_char;

verus! {

/// The height of a glyph of this font.
pub const HEIGHT: usize = 3;

/// The lines of the glyph for `0`.
pub const ZERO: [&'static str; 3] = [
    "┏┓",
    "┃┫",
    "┗┛",
];

/// The lines of the glyph for `1`.
pub const ONE: [&'static str; 3] = [
    "┓ ",
    "┃ ",
    "┻ ",
];

/// The lines of the glyph for `2`.
pub const TWO: [&'static str; 3] = [
    "┏┓",
    "┏┛",
    "┗━",
];

/// The lines of the glyph for `3`.
pub const THREE: [&'static str; 3] = [
    "┏┓",
    " ┫",
    "┗┛",
];

/// The lines of the glyph for `4`.
pub const FOUR: [&'static str; 3] = [
    "┏┓",
    "┃┃",
    "┗╋",
];

/// The lines of the glyph for `5`.
pub const FIVE: [&'static str; 3] = [
    "┏━",
    "┗┓",
    "┗┛",
];

/// The lines of the glyph for `6`.
pub const SIX: [&'static str; 3] = [
    "┏┓",
    "┣┓",
    "┗┛",
];

/// The lines of the glyph for `7`.
pub const SEVEN: [&'static str; 3] = [
    "━┓",
    " ┃",
    " ╹",
];

/// The lines of the glyph for `8`.
pub const EIGHT: [&'static str; 3] = [
    "┏┓",
    "┣┫",
    "┗┛",
];

/// The lines of the glyph for `9`.
pub const NINE: [&'static str; 3] = [
    "┏┓",
    "┗┫",
    "┗┛",
];

/// The lines of the glyph for `:`.
pub const COLON: [&'static str; 3] = [
    " ",
    "•",
    "•",
];

/// The Templar font: glyphs for the ten digits and the colon.
pub struct Templar;

/// The glyph of this font for a character: one for each character of a
/// clock face, labelled with the character it draws, and no other.
pub open spec fn glyph_for(index: char) -> Option<CompositeChar<'static, 3>> {
    match index {
        '0' => Some(CompositeChar('0', ZERO)),
        '1' => Some(CompositeChar('1', ONE)),
        '2' => Some(CompositeChar('2', TWO)),
        '3' => Some(CompositeChar('3', THREE)),
        '4' => Some(CompositeChar('4', FOUR)),
        '5' => Some(CompositeChar('5', FIVE)),
        '6' => Some(CompositeChar('6', SIX)),
        '7' => Some(CompositeChar('7', SEVEN)),
        '8' => Some(CompositeChar('8', EIGHT)),
        '9' => Some(CompositeChar('9', NINE)),
        ':' => Some(CompositeChar(':', COLON)),
        _ => None,
    }
}

/// The font has a glyph for exactly the characters of a clock face, and
/// each glyph carries the character it was asked for.
pub proof fn lemma_glyphs_cover_clock(index: char)
    ensures
        glyph_for(index) is Some <==> is_clock_char(index),
        glyph_for(index) is Some ==> glyph_for(index).unwrap().0 == index,
{
}

impl Font for Templar {
    type CHAR = CompositeChar<'static, 3>;

    open spec fn glyph_height(&self) -> nat {
        HEIGHT as nat
    }

    open spec fn glyph(&self, index: char) -> Option<CompositeChar<'static, 3>> {
        glyph_for(index)
    }

    fn height_range(&self) -> (r: Range<usize>) {
        0..HEIGHT
    }

    fn get(&self, index: char) -> (glyph: Option<CompositeChar<'static, 3>>) {
        match index {
            '0' => Some(CompositeChar('0', ZERO)),
            '1' => Some(CompositeChar('1', ONE)),
            '2' => Some(CompositeChar('2', TWO)),
            '3' => Some(CompositeChar('3', THREE)),
            '4' => Some(CompositeChar('4', FOUR)),
            '5' => Some(CompositeChar('5', FIVE)),
            '6' => Some(CompositeChar('6', SIX)),
            '7' => Some(CompositeChar('7', SEVEN)),
            '8' => Some(CompositeChar('8', EIGHT)),
            '9' => Some(CompositeChar('9', NINE)),
            ':' => Some(CompositeChar(':', COLON)),
            _ => None,
        }
    }
}

} // verus!

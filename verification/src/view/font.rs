//! Fonts: a font maps a character to a glyph, and a glyph draws itself line
//! by line.

use vstd::prelude::*;
use vstd::string::StringExecFns;
use vstd::string::StrSliceExecFns;
use crate::text::push_char;
use std::ops::Range;

use self::ansi_shadow::AnsiShadow;
use self::templar::Templar;

pub mod ansi_shadow;
pub mod templar;

verus! {

/// The font that draws every character as itself.
pub const NONE: NoopFont = NoopFont;

/// The ANSI Shadow font.
pub const ANSI_SHADOW: AnsiShadow = AnsiShadow;

/// The Templar font.
pub const TEMPLAR: Templar = Templar;

/// A glyph: something that draws one character, line by line.
pub trait Character: std::fmt::Debug + Eq + PartialEq {
    /// The lines of the glyph, top to bottom.
    spec fn rows(&self) -> Seq<Seq<char>>;

    /// How many characters wide the glyph is: the length of its first line.
    fn width(&self) -> (w: usize)
        ensures
            w == glyph_width(self.rows()),
    ;

    /// How many lines the glyph has.
    fn height(&self) -> (h: usize)
        ensures
            h == self.rows().len(),
    ;

    /// Writes one line of the glyph, and a line break after every line but
    /// the last.
    fn draw_line(&self, writer: &mut String, line: usize)
        requires
            line < self.rows().len(),
        ensures
            final(writer)@ == old(writer)@ + drawn_line(self.rows(), line as int),
    ;
}

/// A font: a set of glyphs of one height.
pub trait Font {
    type CHAR: Character;

    /// The height of the font's glyphs.
    spec fn glyph_height(&self) -> nat;

    /// The glyph that the font has for a character, if any.
    spec fn glyph(&self, index: char) -> Option<Self::CHAR>;

    /// The line numbers of a glyph of the font, top to bottom.
    fn height_range(&self) -> (r: Range<usize>)
        ensures
            r.start == 0,
            r.end == self.glyph_height(),
    ;

    /// The glyph for a character, where the font has one.
    fn get(&self, index: char) -> (glyph: Option<Self::CHAR>)
        ensures
            glyph == self.glyph(index),
            glyph is Some ==> glyph.unwrap().rows().len() == self.glyph_height(),
    ;
}

/// The width of a glyph with these lines.
pub open spec fn glyph_width(rows: Seq<Seq<char>>) -> nat {
    if rows.len() == 0 {
        0
    } else {
        rows[0].len()
    }
}

/// What drawing line `line` of a glyph writes: the line, and a line break
/// unless it is the last line.
pub open spec fn drawn_line(rows: Seq<Seq<char>>, line: int) -> Seq<char>
    recommends
        0 <= line < rows.len(),
{
    if line < rows.len() - 1 {
        rows[line].push('\n')
    } else {
        rows[line]
    }
}

/// The characters of a clock face: the ten digits and the colon.
pub open spec fn is_clock_char(c: char) -> bool {
    ('0' <= c && c <= '9') || c == ':'
}

/// What drawing the first `upto` lines of a glyph writes.
pub open spec fn drawn_lines(rows: Seq<Seq<char>>, upto: int) -> Seq<char>
    recommends
        0 <= upto <= rows.len(),
    decreases upto,
{
    if upto <= 0 {
        Seq::empty()
    } else {
        drawn_lines(rows, upto - 1) + drawn_line(rows, upto - 1)
    }
}

/// The font that draws every character as itself.
pub struct NoopFont;

/// A glyph of `HEIGHT` lines for one character.
#[derive(Debug, Eq, PartialEq, Clone, Copy)]
pub struct CompositeChar<'a, const HEIGHT: usize>(pub char, pub [&'a str; HEIGHT]);

impl Font for NoopFont {
    type CHAR = char;

    open spec fn glyph_height(&self) -> nat {
        1
    }

    open spec fn glyph(&self, index: char) -> Option<char> {
        Some(index)
    }

    fn height_range(&self) -> (r: Range<usize>) {
        0..1
    }

    fn get(&self, index: char) -> (glyph: Option<char>) {
        Some(index)
    }
}

impl<'a, const HEIGHT: usize> Character for CompositeChar<'a, HEIGHT> {
    open spec fn rows(&self) -> Seq<Seq<char>> {
        Seq::new(HEIGHT as nat, |i: int| self.1@[i]@)
    }

    fn width(&self) -> (w: usize) {
        if HEIGHT == 0 {
            0
        } else {
            self.1[0].unicode_len()
        }
    }

    fn height(&self) -> (h: usize) {
        HEIGHT
    }

    fn draw_line(&self, writer: &mut String, line: usize) {
        writer.append(self.1[line]);
        if line < HEIGHT - 1 {
            proof {
                reveal_strlit("\n");
                assert("\n"@ =~= seq!['\n']);
            }
            writer.append("\n");
        }
    }
}

impl Character for char {
    open spec fn rows(&self) -> Seq<Seq<char>> {
        seq![seq![*self]]
    }

    fn width(&self) -> (w: usize) {
        1
    }

    fn height(&self) -> (h: usize) {
        1
    }

    fn draw_line(&self, writer: &mut String, line: usize) {
        push_char(writer, *self);
    }
}

} // verus!

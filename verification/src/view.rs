//! Drawing a remaining time with a font.
//!
//! A time is first written as a clock text, minutes and seconds, and the
//! text is then drawn glyph after glyph.

use vstd::prelude::*;
use vstd::view::View as _;
use self::font::Character;
use self::font::Font;
use self::font::drawn_lines;
use crate::text::push_two_digits;
use crate::text::string_of;
use crate::text::two_digits;

pub mod font;

verus! {

/// A time in seconds as a clock text: minutes, a colon, seconds.
pub open spec fn clock_text(seconds: nat) -> Seq<char> {
    two_digits(seconds / 60).push(':') + two_digits(seconds % 60)
}

/// What a font draws for a text: each character's glyph in turn, all its
/// lines, top to bottom. A character that the font has no glyph for draws
/// nothing.
pub open spec fn drawn_text<F: Font>(font: &F, text: Seq<char>) -> Seq<char>
    decreases text.len(),
{
    if text.len() == 0 {
        Seq::empty()
    } else {
        drawn_text(font, text.drop_last()) + drawn_glyph(font, text.last())
    }
}

/// What a font draws for one character.
pub open spec fn drawn_glyph<F: Font>(font: &F, c: char) -> Seq<char> {
    match font.glyph(c) {
        Some(glyph) => drawn_lines(glyph.rows(), glyph.rows().len() as int),
        None => Seq::empty(),
    }
}

/// Writes a time in seconds as a clock text: minutes, a colon, seconds,
/// each in two digits at least.
pub fn clock_face(seconds: u64) -> (text: Vec<char>)
    ensures
        text@ == clock_text(seconds as nat),
{
    let mut text: Vec<char> = Vec::new();
    push_two_digits(&mut text, seconds / 60);
    text.push(':');
    push_two_digits(&mut text, seconds % 60);
    assert(text@ =~= clock_text(seconds as nat));
    text
}

/// A time in seconds as the string of its clock text.
pub fn clock_string(seconds: u64) -> (s: String)
    ensures
        s@ == clock_text(seconds as nat),
{
    let text = clock_face(seconds);
    string_of(&text)
}

/// A view of the countdown in one font.
pub struct View<'a, F: Font> {
    font: &'a F,
}

impl<'a, F: Font> View<'a, F> {
    /// The font of the view.
    pub closed spec fn font(&self) -> &'a F {
        self.font
    }

    /// A view that draws with `font`.
    pub fn new(font: &'a F) -> (view: Self)
        ensures
            view.font() == font,
    {
        View { font }
    }

    /// Draws a time, given in seconds, as its clock text in the view's
    /// font.
    pub fn render(&self, time: u32) -> (drawing: String)
        ensures
            drawing@ == drawn_text(self.font(), clock_text(time as nat)),
    {
        let text = clock_face(time as u64);
        let mut drawing = String::new();
        let mut i: usize = 0;
        while i < text.len()
            invariant
                i <= text.len(),
                drawing@ == drawn_text(self.font, text@.take(i as int)),
            decreases text.len() - i,
        {
            proof {
                assert(text@.take(i + 1).drop_last() =~= text@.take(i as int));
            }
            let ghost before = drawing@;
            match self.font.get(text[i]) {
                Some(glyph) => {
                    let lines = self.font.height_range();
                    let mut line: usize = lines.start;
                    while line < lines.end
                        invariant
                            lines.end == glyph.rows().len(),
                            line <= lines.end,
                            drawing@ == before + drawn_lines(glyph.rows(), line as int),
                        decreases lines.end - line,
                    {
                        glyph.draw_line(&mut drawing, line);
                        line += 1;
                        assert(drawing@ =~= before + drawn_lines(glyph.rows(), line as int));
                    }
                },
                None => {},
            }
            i += 1;
            assert(drawing@ =~= drawn_text(self.font, text@.take(i as int)));
        }
        proof {
            assert(text@.take(text@.len() as int) =~= text@);
        }
        drawing
    }
}

} // verus!

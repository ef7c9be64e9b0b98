//! The closed set of cell categories and their fixed UTF-8 glyphs.
//!
//! Every category maps to exactly one character; the mapping is total,
//! so glyph lookup has no error path.

use vstd::prelude::*;

verus! {

/// A cell category of the staff grid: box-drawing pieces, the note
/// marker, and the blank filler.
#[derive(Clone, Copy, Debug, PartialEq, Eq, Structural)]
pub enum BoxDrawing {
    Vertical,
    Horizontal,
    Topleft,
    TopRight,
    BottomLeft,
    BottomRight,
    JunctionRight,
    JunctionLeft,
    JunctionDown,
    JunctionUp,
    JunctionCross,
    MusicalNote,
    Void,
}

/// The arrow cues used by playback.
#[derive(Clone, Copy, Debug, PartialEq, Eq, Structural)]
pub enum Arrow {
    UpArrow,
    UpArrowDouble,
    UpArrowFilled,
}

/// The character a box-drawing category renders as.
pub open spec fn box_drawing_char(d: BoxDrawing) -> char {
    match d {
        BoxDrawing::Vertical => '\u{2502}',
        BoxDrawing::Horizontal => '\u{2500}',
        BoxDrawing::Topleft => '\u{250c}',
        BoxDrawing::TopRight => '\u{2514}',
        BoxDrawing::BottomLeft => '\u{2510}',
        BoxDrawing::BottomRight => '\u{2518}',
        BoxDrawing::JunctionRight => '\u{251c}',
        BoxDrawing::JunctionLeft => '\u{2524}',
        BoxDrawing::JunctionDown => '\u{252c}',
        BoxDrawing::JunctionUp => '\u{2534}',
        BoxDrawing::JunctionCross => '\u{253c}',
        BoxDrawing::MusicalNote => '\u{25c9}',
        BoxDrawing::Void => ' ',
    }
}

/// The character an arrow cue renders as.
pub open spec fn arrow_char(a: Arrow) -> char {
    match a {
        Arrow::UpArrow => '\u{2191}',
        Arrow::UpArrowDouble => '\u{21d1}',
        Arrow::UpArrowFilled => '\u{2b06}',
    }
}

impl BoxDrawing {
    /// The glyph of this category, as a one-character string.
    pub fn get_utf8(&self) -> (r: String)
        ensures
            r@ == seq![box_drawing_char(*self)],
    {
        let s: &str = match self {
            BoxDrawing::Vertical => "\u{2502}",
            BoxDrawing::Horizontal => "\u{2500}",
            BoxDrawing::Topleft => "\u{250c}",
            BoxDrawing::TopRight => "\u{2514}",
            BoxDrawing::BottomLeft => "\u{2510}",
            BoxDrawing::BottomRight => "\u{2518}",
            BoxDrawing::JunctionRight => "\u{251c}",
            BoxDrawing::JunctionLeft => "\u{2524}",
            BoxDrawing::JunctionDown => "\u{252c}",
            BoxDrawing::JunctionUp => "\u{2534}",
            BoxDrawing::JunctionCross => "\u{253c}",
            BoxDrawing::MusicalNote => "\u{25c9}",
            BoxDrawing::Void => " ",
        };
        proof {
            reveal_strlit("\u{2502}");
            reveal_strlit("\u{2500}");
            reveal_strlit("\u{250c}");
            reveal_strlit("\u{2514}");
            reveal_strlit("\u{2510}");
            reveal_strlit("\u{2518}");
            reveal_strlit("\u{251c}");
            reveal_strlit("\u{2524}");
            reveal_strlit("\u{252c}");
            reveal_strlit("\u{2534}");
            reveal_strlit("\u{253c}");
            reveal_strlit("\u{25c9}");
            reveal_strlit(" ");
            assert(s@ =~= seq![box_drawing_char(*self)]);
        }
        String::from_str(s)
    }
}

impl Arrow {
    /// The glyph of this cue, as a one-character string.
    pub fn get_utf8(&self) -> (r: String)
        ensures
            r@ == seq![arrow_char(*self)],
    {
        let s: &str = match self {
            Arrow::UpArrow => "\u{2191}",
            Arrow::UpArrowDouble => "\u{21d1}",
            Arrow::UpArrowFilled => "\u{2b06}",
        };
        proof {
            reveal_strlit("\u{2191}");
            reveal_strlit("\u{21d1}");
            reveal_strlit("\u{2b06}");
            assert(s@ =~= seq![arrow_char(*self)]);
        }
        String::from_str(s)
    }
}

/// Every category has a glyph, and every glyph is a single character,
/// hence non-empty.
pub proof fn lemma_box_drawing_glyph_nonempty(d: BoxDrawing)
    ensures
        seq![box_drawing_char(d)].len() == 1,
{
}

/// Every arrow cue has a glyph, and every glyph is a single character,
/// hence non-empty.
pub proof fn lemma_arrow_glyph_nonempty(a: Arrow)
    ensures
        seq![arrow_char(a)].len() == 1,
{
}

} // verus!

//! The glyph table: block-letter art for the characters of a clock face.
//!
//! Every glyph is a square of `GLYPH_HEIGHT` rows by `GLYPH_WIDTH` columns.
//! A cell is either inked (`INK`) or empty (`GAP`). Each row of each glyph is
//! one of seven strokes, so a glyph is fully described by naming its strokes
//! from top to bottom.

use vstd::prelude::*;

verus! {

/// Number of rows in every glyph.
pub const GLYPH_HEIGHT: usize = 7;

/// Number of columns in every glyph row.
pub const GLYPH_WIDTH: usize = 7;

/// The character of an inked cell.
pub const INK: char = '█';

/// The character of an empty cell.
pub const GAP: char = ' ';

/// The seven shapes a glyph row can take.
#[derive(Clone, Copy, Debug, PartialEq, Eq, Structural)]
pub enum Stroke {
    /// Every column inked.
    Full,
    /// The two leftmost and the two rightmost columns inked.
    Sides,
    /// The two rightmost columns inked.
    Right,
    /// The two leftmost columns inked.
    Left,
    /// Two columns inked, just right of the middle.
    Stem,
    /// The stem with one more column inked to its left.
    Flag,
    /// Nothing inked.
    Blank,
}

/// Whether the table holds a drawing for `c`: the ten digits and the colon.
pub open spec fn is_clock_char(c: char) -> bool {
    ('0' <= c && c <= '9') || c == ':'
}

/// Whether stroke `s` inks column `col`.
pub open spec fn inked(s: Stroke, col: int) -> bool {
    match s {
        Stroke::Full => 0 <= col < GLYPH_WIDTH,
        Stroke::Sides => col == 0 || col == 1 || col == 5 || col == 6,
        Stroke::Right => col == 5 || col == 6,
        Stroke::Left => col == 0 || col == 1,
        Stroke::Stem => col == 3 || col == 4,
        Stroke::Flag => col == 2 || col == 3 || col == 4,
        Stroke::Blank => false,
    }
}

/// The characters of stroke `s`, left to right.
pub open spec fn stroke_row(s: Stroke) -> Seq<char> {
    Seq::new(
        GLYPH_WIDTH as nat,
        |col: int|
            if inked(s, col) {
                INK
            } else {
                GAP
            },
    )
}

/// A glyph row with nothing drawn in it.
pub open spec fn blank_row() -> Seq<char> {
    Seq::new(GLYPH_WIDTH as nat, |col: int| GAP)
}

/// The strokes of the drawing of `c`, top row first. A character without a
/// drawing has seven blank strokes.
pub open spec fn strokes(c: char) -> Seq<Stroke> {
    match c {
        '0' => seq![
            Stroke::Full,
            Stroke::Sides,
            Stroke::Sides,
            Stroke::Sides,
            Stroke::Sides,
            Stroke::Sides,
            Stroke::Full,
        ],
        '1' => seq![
            Stroke::Stem,
            Stroke::Flag,
            Stroke::Stem,
            Stroke::Stem,
            Stroke::Stem,
            Stroke::Stem,
            Stroke::Full,
        ],
        '2' => seq![
            Stroke::Full,
            Stroke::Right,
            Stroke::Right,
            Stroke::Full,
            Stroke::Left,
            Stroke::Left,
            Stroke::Full,
        ],
        '3' => seq![
            Stroke::Full,
            Stroke::Right,
            Stroke::Right,
            Stroke::Full,
            Stroke::Right,
            Stroke::Right,
            Stroke::Full,
        ],
        '4' => seq![
            Stroke::Sides,
            Stroke::Sides,
            Stroke::Sides,
            Stroke::Full,
            Stroke::Right,
            Stroke::Right,
            Stroke::Right,
        ],
        '5' => seq![
            Stroke::Full,
            Stroke::Left,
            Stroke::Left,
            Stroke::Full,
            Stroke::Right,
            Stroke::Right,
            Stroke::Full,
        ],
        '6' => seq![
            Stroke::Full,
            Stroke::Left,
            Stroke::Left,
            Stroke::Full,
            Stroke::Sides,
            Stroke::Sides,
            Stroke::Full,
        ],
        '7' => seq![
            Stroke::Full,
            Stroke::Right,
            Stroke::Right,
            Stroke::Right,
            Stroke::Right,
            Stroke::Right,
            Stroke::Right,
        ],
        '8' => seq![
            Stroke::Full,
            Stroke::Sides,
            Stroke::Sides,
            Stroke::Full,
            Stroke::Sides,
            Stroke::Sides,
            Stroke::Full,
        ],
        '9' => seq![
            Stroke::Full,
            Stroke::Sides,
            Stroke::Sides,
            Stroke::Full,
            Stroke::Right,
            Stroke::Right,
            Stroke::Full,
        ],
        ':' => seq![
            Stroke::Blank,
            Stroke::Stem,
            Stroke::Stem,
            Stroke::Blank,
            Stroke::Stem,
            Stroke::Stem,
            Stroke::Blank,
        ],
        _ => seq![
            Stroke::Blank,
            Stroke::Blank,
            Stroke::Blank,
            Stroke::Blank,
            Stroke::Blank,
            Stroke::Blank,
            Stroke::Blank,
        ],
    }
}

/// The drawing of `c`: `GLYPH_HEIGHT` rows of `GLYPH_WIDTH` characters each.
pub open spec fn glyph(c: char) -> Seq<Seq<char>> {
    Seq::new(GLYPH_HEIGHT as nat, |row: int| stroke_row(strokes(c)[row]))
}

/// Every glyph, drawn or not, is a full square: seven rows of seven cells,
/// each cell inked or empty. A character outside the digits and the colon
/// gets seven blank rows of that same width.
pub proof fn lemma_glyph_shape(c: char)
    ensures
        glyph(c).len() == GLYPH_HEIGHT,
        forall|row: int| 0 <= row < GLYPH_HEIGHT ==> (#[trigger] glyph(c)[row]).len() == GLYPH_WIDTH,
        forall|row: int, col: int|
            0 <= row < GLYPH_HEIGHT && 0 <= col < GLYPH_WIDTH ==> {
                let cell = #[trigger] glyph(c)[row][col];
                cell == INK || cell == GAP
            },
        !is_clock_char(c) ==> forall|row: int|
            0 <= row < GLYPH_HEIGHT ==> #[trigger] glyph(c)[row] == blank_row(),
{
    assert(strokes(c).len() == GLYPH_HEIGHT);
    if !is_clock_char(c) {
        assert forall|row: int| 0 <= row < GLYPH_HEIGHT implies #[trigger] glyph(c)[row]
            == blank_row() by {
            assert(strokes(c)[row] == Stroke::Blank);
            assert(stroke_row(Stroke::Blank) =~= blank_row());
        }
    }
}

/// The seven strokes as they are written out in the table below.
proof fn lemma_pictures()
    ensures
        "███████"@ == stroke_row(Stroke::Full),
        "██   ██"@ == stroke_row(Stroke::Sides),
        "     ██"@ == stroke_row(Stroke::Right),
        "██     "@ == stroke_row(Stroke::Left),
        "   ██  "@ == stroke_row(Stroke::Stem),
        "  ███  "@ == stroke_row(Stroke::Flag),
        "       "@ == stroke_row(Stroke::Blank),
{
    reveal_strlit("███████");
    reveal_strlit("██   ██");
    reveal_strlit("     ██");
    reveal_strlit("██     ");
    reveal_strlit("   ██  ");
    reveal_strlit("  ███  ");
    reveal_strlit("       ");
    assert("███████"@ =~= stroke_row(Stroke::Full));
    assert("██   ██"@ =~= stroke_row(Stroke::Sides));
    assert("     ██"@ =~= stroke_row(Stroke::Right));
    assert("██     "@ =~= stroke_row(Stroke::Left));
    assert("   ██  "@ =~= stroke_row(Stroke::Stem));
    assert("  ███  "@ =~= stroke_row(Stroke::Flag));
    assert("       "@ =~= stroke_row(Stroke::Blank));
}

/// Looks up the drawing of `digit`.
///
/// The result always has `GLYPH_HEIGHT` rows of `GLYPH_WIDTH` characters.
/// The ten digits and the colon have drawings; any other character yields
/// blank rows, so the lookup never fails.
pub fn get_ascii_digit(digit: char) -> (rows: Vec<&'static str>)
    ensures
        rows@.len() == GLYPH_HEIGHT,
        forall|row: int| 0 <= row < GLYPH_HEIGHT ==> (#[trigger] rows@[row])@ == glyph(digit)[row],
        forall|row: int| 0 <= row < GLYPH_HEIGHT ==> (#[trigger] rows@[row])@.len() == GLYPH_WIDTH,
        !is_clock_char(digit) ==> forall|row: int|
            0 <= row < GLYPH_HEIGHT ==> (#[trigger] rows@[row])@ == blank_row(),
{
    proof {
        lemma_pictures();
        lemma_glyph_shape(digit);
    }
    match digit {
        '0' => vec![
            "███████",
            "██   ██",
            "██   ██",
            "██   ██",
            "██   ██",
            "██   ██",
            "███████",
        ],
        '1' => vec![
            "   ██  ",
            "  ███  ",
            "   ██  ",
            "   ██  ",
            "   ██  ",
            "   ██  ",
            "███████",
        ],
        '2' => vec![
            "███████",
            "     ██",
            "     ██",
            "███████",
            "██     ",
            "██     ",
            "███████",
        ],
        '3' => vec![
            "███████",
            "     ██",
            "     ██",
            "███████",
            "     ██",
            "     ██",
            "███████",
        ],
        '4' => vec![
            "██   ██",
            "██   ██",
            "██   ██",
            "███████",
            "     ██",
            "     ██",
            "     ██",
        ],
        '5' => vec![
            "███████",
            "██     ",
            "██     ",
            "███████",
            "     ██",
            "     ██",
            "███████",
        ],
        '6' => vec![
            "███████",
            "██     ",
            "██     ",
            "███████",
            "██   ██",
            "██   ██",
            "███████",
        ],
        '7' => vec![
            "███████",
            "     ██",
            "     ██",
            "     ██",
            "     ██",
            "     ██",
            "     ██",
        ],
        '8' => vec![
            "███████",
            "██   ██",
            "██   ██",
            "███████",
            "██   ██",
            "██   ██",
            "███████",
        ],
        '9' => vec![
            "███████",
            "██   ██",
            "██   ██",
            "███████",
            "     ██",
            "     ██",
            "███████",
        ],
        ':' => vec![
            "       ",
            "   ██  ",
            "   ██  ",
            "       ",
            "   ██  ",
            "   ██  ",
            "       ",
        ],
        _ => vec![
            "       ",
            "       ",
            "       ",
            "       ",
            "       ",
            "       ",
            "       ",
        ],
    }
}

} // verus!

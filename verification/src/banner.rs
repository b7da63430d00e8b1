//! The time renderer: a line of clock characters drawn as a block-letter
//! banner, glyph beside glyph with one empty column after each.

use vstd::prelude::*;
use vstd::string::StringExecFns;
use crate::glyph::{get_ascii_digit, glyph, lemma_glyph_shape, GAP, GLYPH_HEIGHT, GLYPH_WIDTH};

verus! {

/// Columns taken by one character of the banner: its glyph and the gap after it.
pub const CELL_WIDTH: usize = 8;

/// Row `row` of the banner for `text`.
///
/// Column `i` belongs to character `i / CELL_WIDTH` of the text. The first
/// `GLYPH_WIDTH` columns of a cell show that character's glyph row and the
/// last column is the gap.
pub open spec fn banner_row(text: Seq<char>, row: int) -> Seq<char> {
    Seq::new(
        text.len() * CELL_WIDTH as nat,
        |i: int|
            if i % (CELL_WIDTH as int) == GLYPH_WIDTH as int {
                GAP
            } else {
                glyph(text[i / (CELL_WIDTH as int)])[row][i % (CELL_WIDTH as int)]
            },
    )
}

/// Appending one character to the text appends its glyph row and a gap to
/// every banner row.
pub proof fn lemma_banner_row_push(text: Seq<char>, c: char, row: int)
    requires
        0 <= row < GLYPH_HEIGHT,
    ensures
        banner_row(text.push(c), row) == banner_row(text, row) + glyph(c)[row] + seq![GAP],
{
    lemma_glyph_shape(c);
    let grown = banner_row(text.push(c), row);
    let joined = banner_row(text, row) + glyph(c)[row] + seq![GAP];
    assert(grown.len() == joined.len());
    assert forall|i: int| 0 <= i < grown.len() implies grown[i] == joined[i] by {
        if i < text.len() * 8 {
            assert(i / 8 < text.len());
        } else {
            assert(i / 8 == text.len());
            assert(i % 8 == i - text.len() * 8);
        }
    }
    assert(grown =~= joined);
}

/// Draws `time_str` as a banner of `GLYPH_HEIGHT` lines.
///
/// Every line is `CELL_WIDTH` columns per character of the input, whatever
/// the input holds: characters without a glyph leave a blank cell.
pub fn format_time_ascii(time_str: &str) -> (lines: Vec<String>)
    ensures
        lines@.len() == GLYPH_HEIGHT,
        forall|row: int|
            0 <= row < GLYPH_HEIGHT ==> (#[trigger] lines@[row])@ == banner_row(time_str@, row),
        forall|row: int|
            0 <= row < GLYPH_HEIGHT ==> (#[trigger] lines@[row])@.len() == time_str@.len()
                * CELL_WIDTH,
{
    let count = time_str.unicode_len();
    let mut lines: Vec<String> = Vec::new();
    let mut row: usize = 0;
    while row < GLYPH_HEIGHT
        invariant
            row <= GLYPH_HEIGHT,
            count == time_str@.len(),
            lines@.len() == row,
            forall|r: int| 0 <= r < row ==> (#[trigger] lines@[r])@ == banner_row(time_str@, r),
        decreases GLYPH_HEIGHT - row,
    {
        let mut line = String::new();
        let mut k: usize = 0;
        while k < count
            invariant
                row < GLYPH_HEIGHT,
                k <= count,
                count == time_str@.len(),
                line@ == banner_row(time_str@.take(k as int), row as int),
            decreases count - k,
        {
            let ch = time_str.get_char(k);
            let rows = get_ascii_digit(ch);
            line.append(rows[row]);
            line.push(' ');
            proof {
                lemma_banner_row_push(time_str@.take(k as int), ch, row as int);
                assert(time_str@.take(k as int).push(ch) =~= time_str@.take(k + 1));
            }
            k += 1;
        }
        assert(time_str@.take(count as int) =~= time_str@);
        lines.push(line);
        row += 1;
    }
    lines
}

} // verus!

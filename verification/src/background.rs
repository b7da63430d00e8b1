//! The background animator: a night street with a lamp and drifting rain,
//! one character per terminal cell, recomputed from scratch for every frame.
//!
//! The scene depends on the frame counter in two ways: through whole-number
//! arithmetic, which is done here, and through two slow sine waves, which
//! the caller evaluates and hands over as a `Sky`.

use vstd::prelude::*;

verus! {

/// An empty cell.
pub const BLANK: char = ' ';

/// The lamp pole.
pub const POLE: char = '│';

/// The lamp itself while it glows.
pub const LAMP_BRIGHT: char = '●';

/// The lamp itself while it is dim.
pub const LAMP_DIM: char = '○';

/// The glow beside a bright lamp, and also a falling raindrop.
pub const SPECK: char = '·';

/// A raindrop blown sideways.
pub const STREAK: char = '`';

/// The column the lamp stands in.
pub const LAMP_COLUMN: u16 = 5;

/// How far the glow reaches to either side of the lamp.
pub const GLOW_REACH: u16 = 2;

/// The state of the two sine waves that drive the scene.
#[derive(Clone, Copy, Debug, PartialEq, Eq, Structural)]
pub struct Sky {
    /// Whether the lamp is in the bright part of its pulse.
    pub lamp_bright: bool,
    /// How many columns the wind pushes the rain sideways.
    pub wind_offset: i32,
}

/// The row the lamp pole is drawn in: the third from the bottom.
pub open spec fn pole_row(height: int) -> int {
    height - 3
}

/// The row the lamp and its glow are drawn in: right above the pole.
pub open spec fn glow_row(height: int) -> int {
    height - 4
}

/// Rain falls in the rows above this one; the row itself stays empty.
pub open spec fn rain_floor(height: int) -> int {
    height - 5
}

/// The position of cell `(x, y)` within the repeating rain pattern.
///
/// The pattern slides down and sideways by one cell every three frames and
/// shifts with the wind. The result has the sign of the sum it is taken
/// from, so a strong wind against the drift yields a negative slot.
pub open spec fn rain_slot(frame: u32, x: int, y: int, wind: int) -> int {
    let drift = x + y + wind + frame / 3;
    if drift >= 0 {
        drift % 7
    } else {
        -((-drift) % 7)
    }
}

/// The character of a cell in the rain field.
pub open spec fn rain_cell(frame: u32, x: int, y: int, wind: int) -> char {
    let slot = rain_slot(frame, x, y, wind);
    if slot == 0 && (frame + x) % 13 == 0 {
        SPECK
    } else if slot == 1 && (frame + x) % 17 == 0 {
        STREAK
    } else {
        BLANK
    }
}

/// The character of a cell in the row of the lamp.
pub open spec fn glow_cell(x: int, lamp_bright: bool) -> char {
    if x == LAMP_COLUMN {
        if lamp_bright {
            LAMP_BRIGHT
        } else {
            LAMP_DIM
        }
    } else if lamp_bright {
        SPECK
    } else {
        BLANK
    }
}

/// The character shown at column `x` of row `y` on a screen `height` rows tall.
pub open spec fn background_cell(frame: u32, x: int, y: int, height: int, sky: Sky) -> char {
    if y == pole_row(height) {
        if x == LAMP_COLUMN {
            POLE
        } else {
            BLANK
        }
    } else if y == glow_row(height) && LAMP_COLUMN - GLOW_REACH <= x <= LAMP_COLUMN + GLOW_REACH {
        glow_cell(x, sky.lamp_bright)
    } else if y < rain_floor(height) {
        rain_cell(frame, x, y, sky.wind_offset as int)
    } else {
        BLANK
    }
}

/// Row `y` of the scene on a screen of `width` by `height` cells.
pub open spec fn background_row(frame: u32, width: int, height: int, sky: Sky, y: int) -> Seq<
    char,
> {
    Seq::new(width as nat, |x: int| background_cell(frame, x, y, height, sky))
}

/// Decides the character of one cell.
pub fn background_char(frame: u32, x: u16, y: u16, height: u16, sky: Sky) -> (c: char)
    ensures
        c == background_cell(frame, x as int, y as int, height as int, sky),
{
    let row = y as i64;
    let rows = height as i64;
    if row == rows - 3 {
        if x == LAMP_COLUMN {
            POLE
        } else {
            BLANK
        }
    } else if row == rows - 4 && LAMP_COLUMN - GLOW_REACH <= x && x <= LAMP_COLUMN + GLOW_REACH {
        if x == LAMP_COLUMN {
            if sky.lamp_bright {
                LAMP_BRIGHT
            } else {
                LAMP_DIM
            }
        } else if sky.lamp_bright {
            SPECK
        } else {
            BLANK
        }
    } else if row < rows - 5 {
        let drift: i64 = x as i64 + row + sky.wind_offset as i64 + (frame / 3) as i64;
        let column_phase: u64 = frame as u64 + x as u64;
        if drift >= 0 {
            let slot: i64 = drift % 7;
            if slot == 0 && column_phase % 13 == 0 {
                SPECK
            } else if slot == 1 && column_phase % 17 == 0 {
                STREAK
            } else {
                BLANK
            }
        } else {
            let back: i64 = -drift;
            if back % 7 == 0 && column_phase % 13 == 0 {
                SPECK
            } else {
                BLANK
            }
        }
    } else {
        BLANK
    }
}

/// Whether `lines` are the scene of frame `frame` on a screen of `width` by
/// `height` cells under `sky`: one line for each row, each holding that
/// row's characters.
pub open spec fn is_background(lines: Seq<String>, frame: u32, width: u16, height: u16, sky: Sky) -> bool {
    &&& lines.len() == height
    &&& forall|y: int|
        0 <= y < height ==> (#[trigger] lines[y])@ == background_row(
            frame,
            width as int,
            height as int,
            sky,
            y,
        )
}

/// Draws the whole scene for one frame: `height` lines of `width` characters.
///
/// The result is a function of the arguments alone, so the same frame on the
/// same screen under the same sky is always drawn the same way. Screens too
/// small to hold the lamp or the rain simply show less of the scene.
pub fn generate_animated_background(frame: u32, width: u16, height: u16, sky: Sky) -> (lines: Vec<
    String,
>)
    ensures
        is_background(lines@, frame, width, height, sky),
{
    let mut lines: Vec<String> = Vec::new();
    let mut y: u16 = 0;
    while y < height
        invariant
            y <= height,
            lines@.len() == y,
            forall|r: int|
                0 <= r < y ==> (#[trigger] lines@[r])@ == background_row(
                    frame,
                    width as int,
                    height as int,
                    sky,
                    r,
                ),
        decreases height - y,
    {
        let mut line = String::new();
        let mut x: u16 = 0;
        while x < width
            invariant
                x <= width,
                y < height,
                line@ == background_row(frame, x as int, height as int, sky, y as int),
            decreases width - x,
        {
            let c = background_char(frame, x, y, height, sky);
            line.push(c);
            assert(line@ =~= background_row(frame, x + 1, height as int, sky, y as int));
            x += 1;
        }
        lines.push(line);
        y += 1;
    }
    lines
}

/// The scene is a function of the frame, the screen size and the sky: two
/// drawings made from the same four values agree in every character.
pub proof fn lemma_background_is_determined(
    first: Seq<String>,
    second: Seq<String>,
    frame: u32,
    width: u16,
    height: u16,
    sky: Sky,
)
    requires
        is_background(first, frame, width, height, sky),
        is_background(second, frame, width, height, sky),
    ensures
        first.len() == second.len(),
        forall|y: int| 0 <= y < first.len() ==> (#[trigger] first[y])@ == second[y]@,
{
}

/// Every line of the scene is as wide as the screen, and every cell holds
/// one of the six characters of the scene.
pub proof fn lemma_background_shape(frame: u32, width: u16, height: u16, sky: Sky, x: int, y: int)
    requires
        0 <= x < width,
        0 <= y < height,
    ensures
        background_row(frame, width as int, height as int, sky, y).len() == width,
        ({
            let c = background_row(frame, width as int, height as int, sky, y)[x];
            c == BLANK || c == POLE || c == LAMP_BRIGHT || c == LAMP_DIM || c == SPECK || c
                == STREAK
        }),
{
}

} // verus!

//! Screen areas and how the screen is divided among the parts of a frame.
//!
//! The division itself is done by the layout solver of the `ratatui` crate.
//! Its answer is taken as it comes, and every area is then cut down to the
//! area it was split from, so that whatever the solver answers, nothing is
//! ever placed outside the screen.

use ratatui::layout as tui;
use vstd::prelude::*;

verus! {

/// A rectangle of terminal cells.
#[derive(Clone, Copy, Debug, PartialEq, Eq, Structural)]
pub struct Rect {
    /// Column of the left edge.
    pub x: u16,
    /// Row of the top edge.
    pub y: u16,
    /// Number of columns.
    pub width: u16,
    /// Number of rows.
    pub height: u16,
}

/// The direction in which an area is split.
#[derive(Clone, Copy, Debug, PartialEq, Eq, Structural)]
pub enum Direction {
    /// Into parts side by side.
    Horizontal,
    /// Into parts one below the other.
    Vertical,
}

/// What is asked of one part of a split.
#[derive(Clone, Copy, Debug, PartialEq, Eq, Structural)]
pub enum Constraint {
    /// Exactly this many cells.
    Length(u16),
    /// At least this many cells.
    Min(u16),
    /// This many hundredths of the area that is split.
    Percentage(u16),
}

impl Rect {
    /// The column just right of the rectangle.
    pub open spec fn right(self) -> int {
        self.x + self.width
    }

    /// The row just below the rectangle.
    pub open spec fn bottom(self) -> int {
        self.y + self.height
    }

    /// Whether `inner` lies within this rectangle.
    pub open spec fn contains(self, inner: Rect) -> bool {
        &&& self.x <= inner.x
        &&& inner.right() <= self.right()
        &&& self.y <= inner.y
        &&& inner.bottom() <= self.bottom()
    }

    /// This rectangle cut down to what lies within `area`. A rectangle that
    /// misses `area` altogether shrinks to nothing on the nearest edge.
    pub open spec fn clipped_to(self, area: Rect) -> Rect {
        let left = clamp(self.x as int, area.x as int, area.right());
        let right = clamp(self.right(), left, area.right());
        let top = clamp(self.y as int, area.y as int, area.bottom());
        let bottom = clamp(self.bottom(), top, area.bottom());
        Rect {
            x: left as u16,
            y: top as u16,
            width: (right - left) as u16,
            height: (bottom - top) as u16,
        }
    }

    /// Cuts this rectangle down to what lies within `area`.
    pub fn clip(self, area: Rect) -> (clipped: Rect)
        ensures
            clipped == self.clipped_to(area),
            area.contains(clipped),
            area.contains(self) ==> clipped == self,
    {
        let left = clamp_to(self.x as u32, area.x as u32, area.x as u32 + area.width as u32);
        let right = clamp_to(
            self.x as u32 + self.width as u32,
            left,
            area.x as u32 + area.width as u32,
        );
        let top = clamp_to(self.y as u32, area.y as u32, area.y as u32 + area.height as u32);
        let bottom = clamp_to(
            self.y as u32 + self.height as u32,
            top,
            area.y as u32 + area.height as u32,
        );
        Rect {
            x: left as u16,
            y: top as u16,
            width: (right - left) as u16,
            height: (bottom - top) as u16,
        }
    }
}

/// `value` moved into the range from `low` to `high`. Where the range is
/// empty the result is `high`.
pub open spec fn clamp(value: int, low: int, high: int) -> int {
    if value > high || low > high {
        high
    } else if value < low {
        low
    } else {
        value
    }
}

fn clamp_to(value: u32, low: u32, high: u32) -> (moved: u32)
    ensures
        moved == clamp(value as int, low as int, high as int),
{
    if value > high || low > high {
        high
    } else if value < low {
        low
    } else {
        value
    }
}

/// Whether `part` takes up the whole of `area` across the direction of the
/// split: a part of a vertical split is as wide as the area, a part of a
/// horizontal split as tall.
pub open spec fn spans_across(part: Rect, area: Rect, direction: Direction) -> bool {
    match direction {
        Direction::Vertical => part.x == area.x && part.width == area.width,
        Direction::Horizontal => part.y == area.y && part.height == area.height,
    }
}

/// Whether `parts` is an answer of the layout solver of `ratatui` to the
/// request to split `area` in `direction` by `constraints`.
pub uninterp spec fn solver_gives(
    direction: Direction,
    constraints: Seq<Constraint>,
    area: Rect,
    parts: Seq<Rect>,
) -> bool;

/// Splits `area` with `ratatui::layout::Layout::split`, with the layout's
/// default margin, spacing and flex.
///
/// The solver's answer can depend on the order in which it walks its own
/// hash maps, so the answer has no name of its own and nothing is claimed
/// about where along the direction of the split a part begins or ends.
/// `solver_gives` only records that `parts` is what the solver answered to
/// this request. What is claimed beyond that is what the code around the
/// solver fixes: there is one part for each constraint, in the same order,
/// and across the direction of the split every part has the position and
/// extent of `area`.
#[verifier::external_body]
fn split_area(direction: Direction, constraints: &Vec<Constraint>, area: Rect) -> (parts: Vec<Rect>)
    ensures
        solver_gives(direction, constraints@, area, parts@),
        parts@.len() == constraints@.len(),
        forall|i: int| 0 <= i < parts@.len() ==> spans_across(#[trigger] parts@[i], area, direction),
{
    let way = match direction {
        Direction::Horizontal => tui::Direction::Horizontal,
        Direction::Vertical => tui::Direction::Vertical,
    };
    let wishes = constraints.iter().map(|c| match *c {
        Constraint::Length(n) => tui::Constraint::Length(n),
        Constraint::Min(n) => tui::Constraint::Min(n),
        Constraint::Percentage(n) => tui::Constraint::Percentage(n),
    });
    let whole = tui::Rect { x: area.x, y: area.y, width: area.width, height: area.height };
    let parts = tui::Layout::default().direction(way).constraints(wishes).split(whole);
    parts.iter().map(|p| Rect { x: p.x, y: p.y, width: p.width, height: p.height }).collect()
}

/// Every one of `parts` cut down to `area`.
pub open spec fn clipped_parts(parts: Seq<Rect>, area: Rect) -> Seq<Rect> {
    Seq::new(parts.len(), |i: int| parts[i].clipped_to(area))
}

/// Whether `parts` is a split of `area` in `direction` by `constraints`:
/// an answer of the solver to that request, one part for each constraint
/// and each spanning `area` across the split, with every part cut down to
/// `area`.
pub open spec fn is_split(
    direction: Direction,
    constraints: Seq<Constraint>,
    area: Rect,
    parts: Seq<Rect>,
) -> bool {
    exists|raw: Seq<Rect>|
        {
            &&& #[trigger] solver_gives(direction, constraints, area, raw)
            &&& raw.len() == constraints.len()
            &&& forall|i: int| 0 <= i < raw.len() ==> spans_across(#[trigger] raw[i], area, direction)
            &&& parts == clipped_parts(raw, area)
        }
}

/// Whatever the solver answers, a split has one part for each constraint,
/// and every part lies within the area and spans it across the split.
pub proof fn lemma_split_shape(
    direction: Direction,
    constraints: Seq<Constraint>,
    area: Rect,
    parts: Seq<Rect>,
)
    requires
        is_split(direction, constraints, area, parts),
    ensures
        parts.len() == constraints.len(),
        forall|i: int| 0 <= i < parts.len() ==> area.contains(#[trigger] parts[i]),
        forall|i: int| 0 <= i < parts.len() ==> spans_across(#[trigger] parts[i], area, direction),
{
    let raw = choose|raw: Seq<Rect>|
        {
            &&& #[trigger] solver_gives(direction, constraints, area, raw)
            &&& raw.len() == constraints.len()
            &&& forall|i: int| 0 <= i < raw.len() ==> spans_across(#[trigger] raw[i], area, direction)
            &&& parts == clipped_parts(raw, area)
        };
    assert forall|i: int| 0 <= i < parts.len() implies area.contains(#[trigger] parts[i])
        && spans_across(parts[i], area, direction) by {
        assert(parts[i] == raw[i].clipped_to(area));
        assert(spans_across(raw[i], area, direction));
    }
}

/// Splits `area` in `direction` by `constraints`: asks the solver and cuts
/// every part of its answer down to `area`.
///
/// There is one part for each constraint, and every part lies within
/// `area` and spans it across the direction of the split.
pub fn split(direction: Direction, constraints: &Vec<Constraint>, area: Rect) -> (parts: Vec<Rect>)
    ensures
        is_split(direction, constraints@, area, parts@),
        parts@.len() == constraints@.len(),
        forall|i: int| 0 <= i < parts@.len() ==> area.contains(#[trigger] parts@[i]),
        forall|i: int| 0 <= i < parts@.len() ==> spans_across(#[trigger] parts@[i], area, direction),
{
    let raw = split_area(direction, constraints, area);
    let parts = clip_all(&raw, area);
    proof {
        assert(parts@ =~= clipped_parts(raw@, area));
        assert(is_split(direction, constraints@, area, parts@));
        lemma_split_shape(direction, constraints@, area, parts@);
    }
    parts
}

/// Cuts every one of `parts` down to `area`.
pub fn clip_all(parts: &Vec<Rect>, area: Rect) -> (clipped: Vec<Rect>)
    ensures
        clipped@ == clipped_parts(parts@, area),
        forall|i: int| 0 <= i < parts@.len() ==> area.contains(#[trigger] clipped@[i]),
{
    let mut clipped: Vec<Rect> = Vec::new();
    let mut i: usize = 0;
    while i < parts.len()
        invariant
            i <= parts@.len(),
            clipped@.len() == i,
            forall|k: int| 0 <= k < i ==> #[trigger] clipped@[k] == parts@[k].clipped_to(area),
            forall|k: int| 0 <= k < i ==> area.contains(#[trigger] clipped@[k]),
        decreases parts@.len() - i,
    {
        clipped.push(parts[i].clip(area));
        i += 1;
    }
    assert(clipped@ =~= clipped_parts(parts@, area));
    clipped
}

/// The constraints that centre a part of `percent` hundredths: equal
/// margins before and after it, each half of what the part leaves over.
pub open spec fn centering(percent: u16) -> Seq<Constraint> {
    seq![
        Constraint::Percentage(((100 - percent) / 2) as u16),
        Constraint::Percentage(percent),
        Constraint::Percentage(((100 - percent) / 2) as u16),
    ]
}

/// Makes the constraints that centre a part of `percent` hundredths.
pub fn centering_constraints(percent: u16) -> (constraints: Vec<Constraint>)
    requires
        percent <= 100,
    ensures
        constraints@ == centering(percent),
{
    let margin = (100 - percent) / 2;
    let constraints = vec![
        Constraint::Percentage(margin),
        Constraint::Percentage(percent),
        Constraint::Percentage(margin),
    ];
    assert(constraints@ =~= centering(percent));
    constraints
}

/// Whether `popup` is a box in the middle of `r` that takes `percent_x`
/// hundredths of its width and `percent_y` hundredths of its height, as
/// the solver finds it: `r` is split from top to bottom into a margin, a
/// band of `percent_y` hundredths and a margin, the band is split from
/// left to right in the same way by `percent_x`, and `popup` is the middle
/// part of the band.
pub open spec fn is_centered(percent_x: u16, percent_y: u16, r: Rect, popup: Rect) -> bool {
    exists|rows: Seq<Rect>, columns: Seq<Rect>|
        {
            &&& #[trigger] is_split(Direction::Vertical, centering(percent_y), r, rows)
            &&& #[trigger] is_split(Direction::Horizontal, centering(percent_x), rows[1], columns)
            &&& popup == columns[1]
        }
}

/// Whatever the solver answers, a centred box lies within the rectangle it
/// is centred in.
pub proof fn lemma_centered_is_inside(percent_x: u16, percent_y: u16, r: Rect, popup: Rect)
    requires
        is_centered(percent_x, percent_y, r, popup),
    ensures
        r.contains(popup),
{
    let (rows, columns) = choose|rows: Seq<Rect>, columns: Seq<Rect>|
        {
            &&& #[trigger] is_split(Direction::Vertical, centering(percent_y), r, rows)
            &&& #[trigger] is_split(Direction::Horizontal, centering(percent_x), rows[1], columns)
            &&& popup == columns[1]
        };
    lemma_split_shape(Direction::Vertical, centering(percent_y), r, rows);
    lemma_split_shape(Direction::Horizontal, centering(percent_x), rows[1], columns);
    assert(r.contains(rows[1]));
    assert(rows[1].contains(columns[1]));
}

/// Finds the area of a box in the middle of `r` that takes `percent_x`
/// hundredths of its width and `percent_y` hundredths of its height: the
/// middle part of a vertical split of `r`, split again horizontally.
///
/// The box lies within `r`.
pub fn centered_rect(percent_x: u16, percent_y: u16, r: Rect) -> (popup: Rect)
    requires
        percent_x <= 100,
        percent_y <= 100,
    ensures
        is_centered(percent_x, percent_y, r, popup),
        r.contains(popup),
{
    let rows = split(Direction::Vertical, &centering_constraints(percent_y), r);
    let band = rows[1];
    let columns = split(Direction::Horizontal, &centering_constraints(percent_x), band);
    let popup = columns[1];
    proof {
        assert(is_split(Direction::Vertical, centering(percent_y), r, rows@));
        assert(is_split(Direction::Horizontal, centering(percent_x), rows@[1], columns@));
        assert(is_centered(percent_x, percent_y, r, popup));
        lemma_centered_is_inside(percent_x, percent_y, r, popup);
    }
    popup
}

} // verus!

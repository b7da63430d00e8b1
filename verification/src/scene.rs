//! The frame composer: everything that one frame shows, as plain values for
//! a terminal front end to draw.
//!
//! A frame has four layers, drawn in this order: the animated background
//! over the whole screen; a header line, the clock panel and a status line,
//! one below the other; and, while the alarm dialog is open, a box in the
//! middle of the screen that covers what is beneath it.

use vstd::prelude::*;
use vstd::string::StringExecFns;
use crate::background::{generate_animated_background, is_background, Sky};
use crate::banner::{banner_row, format_time_ascii, CELL_WIDTH};
use crate::calendar::{date_line, format_date};
use crate::glyph::GLYPH_HEIGHT;
use crate::layout::{
    centered_rect, is_centered, is_split, lemma_split_shape, split, Constraint, Direction, Rect,
};
use crate::state::{App, AppState};
use crate::time::{format_time, hhmm, lemma_hhmm_round_trip, Moment, TimeOfDay};

verus! {

/// The hint shown in the header line.
pub const HEADER_HINT: &'static str = "'a' alarm | 'q' quit";

/// The status line while no alarm is armed.
pub const NO_ALARM: &'static str = "No alarm set";

/// What the status line starts with while an alarm is armed.
pub const ALARM_PREFIX: &'static str = "Alarm: ";

/// The title of the alarm dialog.
pub const DIALOG_TITLE: &'static str = "Set Alarm (HH:MM)";

/// Rows of the header line.
pub const HEADER_ROWS: u16 = 1;

/// Rows of the status line's region.
pub const STATUS_ROWS: u16 = 3;

/// Hundredths of the screen width that the alarm dialog takes.
pub const DIALOG_PERCENT_X: u16 = 40;

/// Hundredths of the screen height that the alarm dialog takes.
pub const DIALOG_PERCENT_Y: u16 = 20;

/// Lines in the clock panel: the banner, an empty line and the date.
pub const CLOCK_LINES: usize = 9;

/// The alarm dialog as it is shown.
#[derive(Clone, Debug)]
pub struct Popup {
    /// The cells the dialog covers.
    pub area: Rect,
    /// The title on the dialog's border.
    pub title: String,
    /// The text typed so far.
    pub input: String,
}

/// Everything one frame shows.
#[derive(Clone, Debug)]
pub struct Scene {
    /// The background, one line per screen row.
    pub background: Vec<String>,
    /// Where the header line goes.
    pub header_area: Rect,
    /// The header line.
    pub header: String,
    /// Where the clock panel goes.
    pub clock_area: Rect,
    /// The lines of the clock panel.
    pub clock_lines: Vec<String>,
    /// Where the status line goes.
    pub status_area: Rect,
    /// The status line.
    pub status: String,
    /// The alarm dialog, while it is open.
    pub popup: Option<Popup>,
}

/// The status line for an alarm that is armed for `alarm`, or for no alarm.
pub open spec fn alarm_status(alarm: Option<Moment>) -> Seq<char> {
    match alarm {
        Some(due) => ALARM_PREFIX@ + hhmm(due.time_of_day()),
        None => NO_ALARM@,
    }
}

/// Line `i` of the clock panel at `now`: the time as a banner, an empty
/// line, then the date.
pub open spec fn clock_line(now: Moment, i: int) -> Seq<char> {
    if i < GLYPH_HEIGHT {
        banner_row(hhmm(now.time_of_day()), i)
    } else if i == GLYPH_HEIGHT {
        Seq::empty()
    } else {
        date_line(now.day)
    }
}

/// Writes the status line.
pub fn alarm_status_text(alarm: Option<Moment>) -> (text: String)
    ensures
        text@ == alarm_status(alarm),
{
    match alarm {
        Some(due) => {
            let mut text = ALARM_PREFIX.to_owned();
            let time = format_time(TimeOfDay { hour: due.hour, minute: due.minute });
            text.append(time.as_str());
            text
        },
        None => NO_ALARM.to_owned(),
    }
}

/// Whether `lines` are the lines of the clock panel at `now`.
pub open spec fn is_clock_panel(lines: Seq<String>, now: Moment) -> bool {
    &&& lines.len() == CLOCK_LINES
    &&& forall|i: int| 0 <= i < CLOCK_LINES ==> (#[trigger] lines[i])@ == clock_line(now, i)
}

/// Whether `popup` shows the alarm dialog of a state `s` on a screen
/// `size`: there is a dialog exactly while the state has it open, with the
/// fixed title and the text typed so far, in the box that is centred on the
/// screen with the dialog's share of its width and height.
pub open spec fn is_dialog_of(popup: Option<Popup>, s: AppState, size: Rect) -> bool {
    match popup {
        Some(dialog) => {
            &&& s.show_alarm_dialog
            &&& dialog.title@ == DIALOG_TITLE@
            &&& dialog.input@ == s.alarm_input
            &&& is_centered(DIALOG_PERCENT_X, DIALOG_PERCENT_Y, size, dialog.area)
            &&& size.contains(dialog.area)
        },
        None => !s.show_alarm_dialog,
    }
}

/// What is asked of the three regions of the screen, top to bottom: a
/// header of `HEADER_ROWS` rows, a clock panel of at least one row, and a
/// status region of `STATUS_ROWS` rows.
pub open spec fn region_constraints() -> Seq<Constraint> {
    seq![Constraint::Length(HEADER_ROWS), Constraint::Min(1), Constraint::Length(STATUS_ROWS)]
}

/// What is asked of the status line within its region: all of its width.
pub open spec fn status_constraints() -> Seq<Constraint> {
    seq![Constraint::Percentage(100)]
}

/// Whether `header`, `clock` and `status` are the areas of the three
/// regions on a screen `size`: the screen is split from top to bottom by
/// `region_constraints`, the header and the clock panel are the first two
/// parts, and the status line is the one part of a split of the third
/// from left to right by `status_constraints`.
pub open spec fn is_screen_layout(size: Rect, header: Rect, clock: Rect, status: Rect) -> bool {
    exists|regions: Seq<Rect>, footer: Seq<Rect>|
        {
            &&& #[trigger] is_split(Direction::Vertical, region_constraints(), size, regions)
            &&& #[trigger] is_split(Direction::Horizontal, status_constraints(), regions[2], footer)
            &&& header == regions[0]
            &&& clock == regions[1]
            &&& status == footer[0]
        }
}

/// Whatever the solver answers, the three regions lie within the screen,
/// and the header and the clock panel span its width.
pub proof fn lemma_screen_layout_is_inside(size: Rect, header: Rect, clock: Rect, status: Rect)
    requires
        is_screen_layout(size, header, clock, status),
    ensures
        size.contains(header),
        size.contains(clock),
        size.contains(status),
        header.x == size.x && header.width == size.width,
        clock.x == size.x && clock.width == size.width,
{
    let (regions, footer) = choose|regions: Seq<Rect>, footer: Seq<Rect>|
        {
            &&& #[trigger] is_split(Direction::Vertical, region_constraints(), size, regions)
            &&& #[trigger] is_split(Direction::Horizontal, status_constraints(), regions[2], footer)
            &&& header == regions[0]
            &&& clock == regions[1]
            &&& status == footer[0]
        };
    lemma_split_shape(Direction::Vertical, region_constraints(), size, regions);
    lemma_split_shape(Direction::Horizontal, status_constraints(), regions[2], footer);
    assert(size.contains(regions[2]));
    assert(regions[2].contains(footer[0]));
}

/// Writes the lines of the clock panel.
pub fn clock_panel(now: Moment) -> (lines: Vec<String>)
    ensures
        is_clock_panel(lines@, now),
{
    let time = format_time(TimeOfDay { hour: now.hour, minute: now.minute });
    let mut lines = format_time_ascii(time.as_str());
    lines.push(String::new());
    lines.push(format_date(now.day));
    lines
}

/// Composes the frame for the state `app` on a screen `size` at `now`.
///
/// The content of every layer is fixed by the arguments. The areas are
/// what the solver answers to the fixed requests for the three regions and
/// for the dialog; whatever it answers, the header and the clock panel span
/// the width of the screen and every area, the dialog's too, lies within
/// the screen, however small that is.
pub fn ui(app: &App, size: Rect, now: Moment, sky: Sky) -> (scene: Scene)
    ensures
        is_background(scene.background@, app@.animation_frame, size.width, size.height, sky),
        scene.header@ == HEADER_HINT@,
        is_clock_panel(scene.clock_lines@, now),
        scene.status@ == alarm_status(app@.alarm_time),
        is_dialog_of(scene.popup, app@, size),
        is_screen_layout(size, scene.header_area, scene.clock_area, scene.status_area),
        size.contains(scene.header_area),
        size.contains(scene.clock_area),
        size.contains(scene.status_area),
        scene.header_area.x == size.x && scene.header_area.width == size.width,
        scene.clock_area.x == size.x && scene.clock_area.width == size.width,
{
    let background = generate_animated_background(
        app.animation_frame(),
        size.width,
        size.height,
        sky,
    );
    let region_wishes = vec![
        Constraint::Length(HEADER_ROWS),
        Constraint::Min(1),
        Constraint::Length(STATUS_ROWS),
    ];
    let status_wishes = vec![Constraint::Percentage(100)];
    proof {
        assert(region_wishes@ =~= region_constraints());
        assert(status_wishes@ =~= status_constraints());
    }
    let regions = split(Direction::Vertical, &region_wishes, size);
    let footer = regions[2];
    let footer_parts = split(Direction::Horizontal, &status_wishes, footer);
    proof {
        assert(is_split(Direction::Vertical, region_constraints(), size, regions@));
        assert(is_split(Direction::Horizontal, status_constraints(), regions@[2], footer_parts@));
        assert(is_screen_layout(size, regions@[0], regions@[1], footer_parts@[0]));
    }
    let popup = if app.show_alarm_dialog() {
        Some(
            Popup {
                area: centered_rect(DIALOG_PERCENT_X, DIALOG_PERCENT_Y, size),
                title: DIALOG_TITLE.to_owned(),
                input: app.alarm_input().to_owned(),
            },
        )
    } else {
        None
    };
    Scene {
        background,
        header_area: regions[0],
        header: HEADER_HINT.to_owned(),
        clock_area: regions[1],
        clock_lines: clock_panel(now),
        status_area: footer_parts[0],
        status: alarm_status_text(app.alarm_time()),
        popup,
    }
}

/// When an alarm that is due goes off, the status line reads as it does
/// with no alarm armed; while an alarm is armed, the status line names the
/// minute it is due at.
pub proof fn lemma_status_follows_alarm(s: AppState, now: Moment)
    ensures
        s.alarm_time is None ==> alarm_status(s.alarm_time) == NO_ALARM@,
        s.alarm_time matches Some(due) ==> alarm_status(s.alarm_time) == ALARM_PREFIX@ + hhmm(
            due.time_of_day(),
        ),
        s.alarm_time matches Some(due) && now.reached(due) ==> alarm_status(
            s.expire_alarm(now).alarm_time,
        ) == NO_ALARM@,
        !s.should_quit ==> (s.alarm_time matches Some(due) && now.reached(due) ==> alarm_status(
            s.tick(None, now).alarm_time,
        ) == NO_ALARM@),
{
}

/// At a moment that exists on the clock, every banner line of the clock
/// panel is five cells wide, one for each character of `HH:MM`.
pub proof fn lemma_clock_panel_width(now: Moment, i: int)
    requires
        now.wf(),
        0 <= i < GLYPH_HEIGHT,
    ensures
        clock_line(now, i).len() == 5 * CELL_WIDTH,
{
    lemma_hhmm_round_trip(now.time_of_day());
}

} // verus!

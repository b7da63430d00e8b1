use clockradio::background::{generate_animated_background, Sky};
use clockradio::banner::format_time_ascii;
use clockradio::calendar::format_date;
use clockradio::layout::Rect;
use clockradio::scene::{
    alarm_status_text, clock_panel, ui, ALARM_PREFIX, CLOCK_LINES, DIALOG_PERCENT_X,
    DIALOG_PERCENT_Y, DIALOG_TITLE, HEADER_HINT, HEADER_ROWS, NO_ALARM, STATUS_ROWS,
};
use clockradio::state::{App, Input, Key};
use clockradio::time::Moment;

/// Day number of January 1, 1970.
const EPOCH: i32 = 719_163;

const SKY: Sky = Sky { lamp_bright: true, wind_offset: 1 };

fn at(day: i32, hour: u8, minute: u8) -> Moment {
    Moment::new(day, hour, minute, 0).unwrap()
}

fn screen(width: u16, height: u16) -> Rect {
    Rect { x: 0, y: 0, width, height }
}

fn inside(outer: Rect, inner: Rect) -> bool {
    outer.x <= inner.x
        && outer.y <= inner.y
        && inner.x as u32 + inner.width as u32 <= outer.x as u32 + outer.width as u32
        && inner.y as u32 + inner.height as u32 <= outer.y as u32 + outer.height as u32
}

#[test]
fn fixed_texts_and_sizes() {
    assert_eq!(HEADER_HINT, "'a' alarm | 'q' quit");
    assert_eq!(NO_ALARM, "No alarm set");
    assert_eq!(ALARM_PREFIX, "Alarm: ");
    assert_eq!(DIALOG_TITLE, "Set Alarm (HH:MM)");
    assert_eq!((HEADER_ROWS, STATUS_ROWS), (1, 3));
    assert_eq!((DIALOG_PERCENT_X, DIALOG_PERCENT_Y), (40, 20));
    assert_eq!(CLOCK_LINES, 9);
}

#[test]
fn dates_are_written_in_words() {
    assert_eq!(format_date(EPOCH), "Thursday, January 01, 1970");
    assert_eq!(format_date(730_000), "Friday, September 03, 1999");
    assert_eq!(format_date(EPOCH + 31 + 28), "Sunday, March 01, 1970");
    assert_eq!(format_date(1), "Monday, January 01, 0001");
    assert_eq!(format_date(738_945), "Thursday, February 29, 2024");
}

#[test]
fn days_without_a_date_give_an_empty_line() {
    assert_eq!(format_date(i32::MAX), "");
    assert_eq!(format_date(i32::MIN), "");
    assert_eq!(format_date(100_000_000), "");
    assert_eq!(format_date(-100_000_000), "");
}

#[test]
fn status_line_names_the_alarm() {
    assert_eq!(alarm_status_text(None), "No alarm set");
    assert_eq!(alarm_status_text(Some(at(EPOCH, 9, 0))), "Alarm: 09:00");
    assert_eq!(alarm_status_text(Some(at(EPOCH + 1, 23, 59))), "Alarm: 23:59");
    assert_eq!(alarm_status_text(Some(at(EPOCH, 0, 5))), "Alarm: 00:05");
}

#[test]
fn clock_panel_is_banner_gap_and_date() {
    let lines = clock_panel(at(EPOCH, 14, 5));
    assert_eq!(lines.len(), 9);
    assert_eq!(lines[..7], format_time_ascii("14:05")[..]);
    assert_eq!(lines[7], "");
    assert_eq!(lines[8], "Thursday, January 01, 1970");
    for line in &lines[..7] {
        assert_eq!(line.chars().count(), 40);
    }
    let midnight = clock_panel(Moment::new(EPOCH + 1, 0, 0, 59).unwrap());
    assert_eq!(midnight[..7], format_time_ascii("00:00")[..]);
    assert_eq!(midnight[8], "Friday, January 02, 1970");
}

#[test]
fn idle_frame_has_every_layer_but_the_dialog() {
    let app = App::new();
    let size = screen(80, 24);
    let scene = ui(&app, size, at(EPOCH, 14, 5), SKY);
    assert_eq!(scene.background, generate_animated_background(0, 80, 24, SKY));
    assert_eq!(scene.header, "'a' alarm | 'q' quit");
    assert_eq!(scene.clock_lines, clock_panel(at(EPOCH, 14, 5)));
    assert_eq!(scene.status, "No alarm set");
    assert!(scene.popup.is_none());
    assert_eq!(scene.header_area, Rect { x: 0, y: 0, width: 80, height: 1 });
    assert_eq!(scene.clock_area, Rect { x: 0, y: 1, width: 80, height: 20 });
    assert_eq!(scene.status_area, Rect { x: 0, y: 21, width: 80, height: 3 });
}

#[test]
fn frame_follows_the_frame_counter() {
    let mut app = App::new();
    let now = at(EPOCH, 14, 5);
    for _ in 0..39 {
        app.tick(Input::Quiet, now);
    }
    let scene = ui(&app, screen(60, 20), now, SKY);
    assert_eq!(scene.background, generate_animated_background(39, 60, 20, SKY));
    let dim = Sky { lamp_bright: false, wind_offset: -2 };
    let scene = ui(&app, screen(60, 20), now, dim);
    assert_eq!(scene.background, generate_animated_background(39, 60, 20, dim));
}

#[test]
fn open_dialog_shows_what_was_typed() {
    let now = at(EPOCH, 8, 0);
    let mut app = App::new();
    app.handle_key_event(Key::Char('a'), now);
    for c in "09:3".chars() {
        app.handle_key_event(Key::Char(c), now);
    }
    let scene = ui(&app, screen(100, 50), now, SKY);
    let popup = scene.popup.unwrap();
    assert_eq!(popup.title, "Set Alarm (HH:MM)");
    assert_eq!(popup.input, "09:3");
    assert_eq!(popup.area, Rect { x: 30, y: 20, width: 40, height: 10 });
    assert_eq!(scene.status, "No alarm set");
    app.handle_key_event(Key::Esc, now);
    assert!(ui(&app, screen(100, 50), now, SKY).popup.is_none());
}

#[test]
fn status_line_reads_no_alarm_once_the_alarm_has_gone_off() {
    let mut app = App::new();
    app.handle_key_event(Key::Char('a'), at(EPOCH, 8, 0));
    for c in "09:00".chars() {
        app.handle_key_event(Key::Char(c), at(EPOCH, 8, 0));
    }
    app.handle_key_event(Key::Enter, at(EPOCH, 8, 0));
    assert_eq!(ui(&app, screen(80, 24), at(EPOCH, 8, 0), SKY).status, "Alarm: 09:00");
    app.tick(Input::Quiet, at(EPOCH, 8, 59));
    assert_eq!(ui(&app, screen(80, 24), at(EPOCH, 8, 59), SKY).status, "Alarm: 09:00");
    app.tick(Input::Quiet, at(EPOCH, 9, 0));
    assert_eq!(ui(&app, screen(80, 24), at(EPOCH, 9, 0), SKY).status, "No alarm set");
    app.tick(Input::Quiet, at(EPOCH, 9, 1));
    assert_eq!(ui(&app, screen(80, 24), at(EPOCH, 9, 1), SKY).status, "No alarm set");
}

#[test]
fn tiny_screens_are_composed_without_failing() {
    let now = at(EPOCH, 23, 59);
    let mut app = App::new();
    app.handle_key_event(Key::Char('a'), now);
    for (width, height) in [(0u16, 0u16), (1, 1), (2, 2), (3, 1), (1, 4), (10, 5), (40, 3)] {
        let size = screen(width, height);
        let scene = ui(&app, size, now, SKY);
        assert_eq!(scene.background.len(), height as usize);
        assert_eq!(scene.clock_lines.len(), 9);
        assert!(inside(size, scene.header_area));
        assert!(inside(size, scene.clock_area));
        assert!(inside(size, scene.status_area));
        assert!(inside(size, scene.popup.unwrap().area));
    }
}

#[test]
fn frame_on_a_screen_away_from_the_origin() {
    let app = App::new();
    let size = Rect { x: 5, y: 7, width: 80, height: 24 };
    let scene = ui(&app, size, at(EPOCH, 12, 0), SKY);
    assert_eq!(scene.header_area, Rect { x: 5, y: 7, width: 80, height: 1 });
    assert_eq!(scene.clock_area, Rect { x: 5, y: 8, width: 80, height: 20 });
    assert_eq!(scene.status_area, Rect { x: 5, y: 28, width: 80, height: 3 });
}

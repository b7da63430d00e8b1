//! Wall-clock values: times of day, moments, the `HH:MM` grammar that alarm
//! times are entered in, and the rule that turns an entered time into the
//! next moment at which the clock will show it.

use vstd::prelude::*;

verus! {

/// Seconds in one day.
pub const SECONDS_PER_DAY: i64 = 86_400;

/// A time of day, to the minute, on the 24-hour clock.
#[derive(Clone, Copy, Debug, PartialEq, Eq, Structural)]
pub struct TimeOfDay {
    pub hour: u8,
    pub minute: u8,
}

/// A moment of local wall-clock time, to the second.
#[derive(Clone, Copy, Debug, PartialEq, Eq, Structural)]
pub struct Moment {
    /// The day's number in the proleptic Gregorian calendar, with
    /// January 1 of the year 1 as day 1.
    pub day: i32,
    pub hour: u8,
    pub minute: u8,
    pub second: u8,
}

impl TimeOfDay {
    /// The hour and minute name a minute that exists on the clock.
    pub open spec fn wf(self) -> bool {
        self.hour < 24 && self.minute < 60
    }

    /// Seconds from midnight to the start of this minute.
    pub open spec fn second_of_day(self) -> int {
        self.hour * 3600 + self.minute * 60
    }

    /// Makes a time of day, if `hour` and `minute` exist on the clock.
    pub fn new(hour: u8, minute: u8) -> (time: Option<TimeOfDay>)
        ensures
            time == if hour < 24 && minute < 60 {
                Some(TimeOfDay { hour, minute })
            } else {
                None
            },
    {
        if hour < 24 && minute < 60 {
            Some(TimeOfDay { hour, minute })
        } else {
            None
        }
    }
}

impl Moment {
    /// The fields name a second that exists on the clock.
    pub open spec fn wf(self) -> bool {
        self.hour < 24 && self.minute < 60 && self.second < 60
    }

    /// Seconds from midnight to this moment.
    pub open spec fn second_of_day(self) -> int {
        self.hour * 3600 + self.minute * 60 + self.second
    }

    /// The moment as a single number: seconds from the midnight that starts
    /// day 0. Moments are ordered by this number.
    pub open spec fn instant(self) -> int {
        self.day * SECONDS_PER_DAY + self.second_of_day()
    }

    /// Whether this moment is at or past `deadline`.
    pub open spec fn reached(self, deadline: Moment) -> bool {
        self.instant() >= deadline.instant()
    }

    /// The time of day this moment falls in, to the minute.
    pub open spec fn time_of_day(self) -> TimeOfDay {
        TimeOfDay { hour: self.hour, minute: self.minute }
    }

    /// Makes a moment, if the hour, minute and second exist on the clock.
    pub fn new(day: i32, hour: u8, minute: u8, second: u8) -> (moment: Option<Moment>)
        ensures
            moment == if hour < 24 && minute < 60 && second < 60 {
                Some(Moment { day, hour, minute, second })
            } else {
                None
            },
    {
        if hour < 24 && minute < 60 && second < 60 {
            Some(Moment { day, hour, minute, second })
        } else {
            None
        }
    }

    /// Tells whether this moment is at or past `deadline`.
    pub fn has_reached(&self, deadline: &Moment) -> (yes: bool)
        ensures
            yes == self.reached(*deadline),
    {
        let here: i64 = self.day as i64 * SECONDS_PER_DAY + self.hour as i64 * 3600
            + self.minute as i64 * 60 + self.second as i64;
        let there: i64 = deadline.day as i64 * SECONDS_PER_DAY + deadline.hour as i64 * 3600
            + deadline.minute as i64 * 60 + deadline.second as i64;
        here >= there
    }
}

/// Whether `c` is one of the ten decimal digits.
pub open spec fn is_digit(c: char) -> bool {
    '0' <= c && c <= '9'
}

/// The number a decimal digit stands for.
pub open spec fn digit_value(c: char) -> int {
    c as int - '0' as int
}

/// The decimal digit that stands for `d`, for `d` from 0 to 9.
pub open spec fn digit_char(d: int) -> char {
    ('0' as int + d) as char
}

/// The number written by the two digits `tens` and `ones`.
pub open spec fn two_digit_value(tens: char, ones: char) -> int {
    10 * digit_value(tens) + digit_value(ones)
}

/// Whether `text` is a time of day written as `HH:MM`: exactly two digits,
/// a colon, two digits, and nothing else, with the hour below 24 and the
/// minute below 60.
pub open spec fn is_hhmm(text: Seq<char>) -> bool {
    &&& text.len() == 5
    &&& is_digit(text[0])
    &&& is_digit(text[1])
    &&& text[2] == ':'
    &&& is_digit(text[3])
    &&& is_digit(text[4])
    &&& two_digit_value(text[0], text[1]) < 24
    &&& two_digit_value(text[3], text[4]) < 60
}

/// The time of day that `text` names, if it is written as `HH:MM`.
pub open spec fn parse_hhmm(text: Seq<char>) -> Option<TimeOfDay> {
    if is_hhmm(text) {
        Some(
            TimeOfDay {
                hour: two_digit_value(text[0], text[1]) as u8,
                minute: two_digit_value(text[3], text[4]) as u8,
            },
        )
    } else {
        None
    }
}

/// `n` in decimal, padded with a zero to at least two digits.
pub open spec fn two_digits(n: int) -> Seq<char> {
    if n < 100 {
        seq![digit_char(n / 10), digit_char(n % 10)]
    } else {
        seq![digit_char(n / 100), digit_char((n / 10) % 10), digit_char(n % 10)]
    }
}

/// A time of day written as `HH:MM`.
pub open spec fn hhmm(time: TimeOfDay) -> Seq<char> {
    two_digits(time.hour as int) + seq![':'] + two_digits(time.minute as int)
}

/// The first moment after `now` at which the clock shows `alarm`: later
/// today if that minute is still to come, otherwise tomorrow. On the last
/// day that can be numbered there is no tomorrow, and the day stays.
pub open spec fn next_occurrence(alarm: TimeOfDay, now: Moment) -> Moment {
    let later_today = alarm.second_of_day() > now.second_of_day();
    Moment {
        day: if later_today || now.day == i32::MAX {
            now.day
        } else {
            (now.day + 1) as i32
        },
        hour: alarm.hour,
        minute: alarm.minute,
        second: 0,
    }
}

/// Reads a decimal digit.
fn read_digit(c: char) -> (d: Option<u8>)
    ensures
        d.is_some() == is_digit(c),
        d matches Some(v) ==> v == digit_value(c),
{
    if '0' <= c && c <= '9' {
        Some((c as u32 - '0' as u32) as u8)
    } else {
        None
    }
}

/// Writes `n` in decimal at the end of `out`, padded to two digits.
fn push_two_digits(out: &mut String, n: u8)
    ensures
        final(out)@ == old(out)@ + two_digits(n as int),
{
    if n >= 100 {
        out.push(('0' as u8 + n / 100) as char);
    }
    out.push(('0' as u8 + (n / 10) % 10) as char);
    out.push(('0' as u8 + n % 10) as char);
    assert(out@ =~= old(out)@ + two_digits(n as int));
}

/// Reads a time of day written as `HH:MM`.
///
/// Returns the time exactly when the whole input has that form, and `None`
/// for anything else: a missing leading zero, surrounding blanks, other
/// separators or an hour or minute that does not exist.
pub fn parse_alarm_time(input: &str) -> (time: Option<TimeOfDay>)
    ensures
        time == parse_hhmm(input@),
        time matches Some(t) ==> t.wf(),
{
    if input.unicode_len() != 5 {
        return None;
    }
    let h1 = read_digit(input.get_char(0));
    let h2 = read_digit(input.get_char(1));
    let m1 = read_digit(input.get_char(3));
    let m2 = read_digit(input.get_char(4));
    if input.get_char(2) != ':' {
        return None;
    }
    match (h1, h2, m1, m2) {
        (Some(h1), Some(h2), Some(m1), Some(m2)) => {
            let hour = 10 * h1 + h2;
            let minute = 10 * m1 + m2;
            if hour < 24 && minute < 60 {
                Some(TimeOfDay { hour, minute })
            } else {
                None
            }
        },
        _ => None,
    }
}

/// Writes a time of day as `HH:MM`.
pub fn format_time(time: TimeOfDay) -> (text: String)
    ensures
        text@ == hhmm(time),
{
    let mut text = String::new();
    push_two_digits(&mut text, time.hour);
    text.push(':');
    push_two_digits(&mut text, time.minute);
    assert(text@ =~= hhmm(time));
    text
}

/// Finds the moment at which an alarm entered as `alarm` is due, seen from `now`.
pub fn schedule_alarm(alarm: TimeOfDay, now: Moment) -> (due: Moment)
    ensures
        due == next_occurrence(alarm, now),
{
    let alarm_second: u32 = alarm.hour as u32 * 3600 + alarm.minute as u32 * 60;
    let now_second: u32 = now.hour as u32 * 3600 + now.minute as u32 * 60 + now.second as u32;
    let day = if alarm_second > now_second || now.day == i32::MAX {
        now.day
    } else {
        now.day + 1
    };
    Moment { day, hour: alarm.hour, minute: alarm.minute, second: 0 }
}

/// A time written as `HH:MM` has five characters and reads back as itself.
pub proof fn lemma_hhmm_round_trip(time: TimeOfDay)
    requires
        time.wf(),
    ensures
        hhmm(time).len() == 5,
        parse_hhmm(hhmm(time)) == Some(time),
{
    let text = hhmm(time);
    assert(text =~= seq![
        digit_char(time.hour as int / 10),
        digit_char(time.hour as int % 10),
        ':',
        digit_char(time.minute as int / 10),
        digit_char(time.minute as int % 10),
    ]);
}

/// An alarm is always due strictly after the moment it was set at, as long
/// as the calendar has a tomorrow, and it is due within a day.
pub proof fn lemma_alarm_is_in_the_future(alarm: TimeOfDay, now: Moment)
    requires
        alarm.wf(),
        now.wf(),
        now.day < i32::MAX,
    ensures
        next_occurrence(alarm, now).wf(),
        next_occurrence(alarm, now).time_of_day() == alarm,
        next_occurrence(alarm, now).instant() > now.instant(),
        next_occurrence(alarm, now).instant() <= now.instant() + SECONDS_PER_DAY,
        !now.reached(next_occurrence(alarm, now)),
{
}

} // verus!

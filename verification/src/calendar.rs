//! The date of a numbered day, written out in words.

use vstd::prelude::*;

verus! {

/// The date of day number `day` in words, as `date_text` below gets it from
/// the `chrono` crate, or nothing for a day number that has no date there.
pub uninterp spec fn date_in_words(day: int) -> Option<Seq<char>>;

/// Writes out the date of day number `day` with the `chrono` crate:
/// `NaiveDate::from_num_days_from_ce_opt` finds the date and
/// `NaiveDate::format` writes it as weekday, month, day of the month and
/// year, for example `Thursday, January 01, 1970`.
///
/// Both depend on the day number alone; `chrono` writes the names in
/// English whatever the machine is set to. `date_in_words` stands for what
/// they give: the text, or nothing for a day number outside the range of
/// dates that `chrono` knows.
#[verifier::external_body]
fn date_text(day: i32) -> (text: Option<String>)
    ensures
        match text {
            Some(words) => date_in_words(day as int) == Some(words@),
            None => date_in_words(day as int).is_none(),
        },
{
    match chrono::NaiveDate::from_num_days_from_ce_opt(day) {
        Some(date) => Some(date.format("%A, %B %d, %Y").to_string()),
        None => None,
    }
}

/// The line that shows the date of day number `day`: the date in words, or
/// an empty line for a day that has no date.
pub open spec fn date_line(day: i32) -> Seq<char> {
    match date_in_words(day as int) {
        Some(words) => words,
        None => Seq::empty(),
    }
}

/// Writes the line that shows the date of day number `day`.
pub fn format_date(day: i32) -> (line: String)
    ensures
        line@ == date_line(day),
{
    match date_text(day) {
        Some(words) => words,
        None => String::new(),
    }
}

} // verus!

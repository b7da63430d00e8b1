//! A terminal clock radio: a block-letter clock, a one-shot alarm and an
//! animated street scene, as a verified core that a thin terminal front end
//! drives.
//!
//! - `glyph` and `banner` draw a time as block letters.
//! - `background` draws the animated scene behind the clock.
//! - `time` holds wall-clock values, the `HH:MM` grammar and the rule for
//!   when an alarm is due; `calendar` writes out dates.
//! - `state` holds the application state, the input handler and what one
//!   turn of the main loop does.
//! - `layout` divides the screen and `scene` composes a whole frame.
//! - `text` states what the standard library's string editing does.
//!
//! The library reads no clock and no keyboard and draws nothing itself: the
//! front end hands it key presses and clock readings and draws the frames
//! it composes.

pub mod background;
pub mod banner;
pub mod calendar;
pub mod glyph;
pub mod layout;
pub mod scene;
pub mod state;
pub mod text;
pub mod time;

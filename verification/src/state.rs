//! The application state and the input handler.
//!
//! The state is a small record owned by the main loop. Everything that can
//! happen to it is described by pure functions on its model, `AppState`:
//! what a key does (`on_key`), what the passing of time does
//! (`expire_alarm`, `advance_frame`) and how one turn of the loop combines
//! them (`tick`). The executable `App` follows those functions step by step.

use vstd::prelude::*;
use crate::time::{
    lemma_alarm_is_in_the_future, next_occurrence, parse_alarm_time, parse_hhmm, schedule_alarm,
    Moment,
};

verus! {

/// The key that ends the program.
pub const QUIT_KEY: char = 'q';

/// The key that opens the alarm dialog.
pub const ALARM_KEY: char = 'a';

/// Longest wait for a key press in one turn of the loop, in milliseconds.
pub const POLL_INTERVAL_MS: u64 = 100;

/// Pause at the end of every turn of the loop, in milliseconds.
pub const FRAME_PAUSE_MS: u64 = 50;

/// A key press, reduced to what the input handler tells apart.
#[derive(Clone, Copy, Debug, PartialEq, Eq, Structural)]
pub enum Key {
    /// A key that produces a character.
    Char(char),
    /// The confirm key.
    Enter,
    /// The cancel key.
    Esc,
    /// The delete key.
    Backspace,
    /// Any other key.
    Other,
}

/// How a key event came about.
#[derive(Clone, Copy, Debug, PartialEq, Eq, Structural)]
pub enum KeyKind {
    /// The key went down.
    Press,
    /// The key is being held down.
    Repeat,
    /// The key came up.
    Release,
}

/// What the input source reported during one turn of the loop.
#[derive(Clone, Copy, Debug, PartialEq, Eq, Structural)]
pub enum Input {
    /// Nothing happened within the poll interval.
    Quiet,
    /// Something happened to a key.
    Key(Key, KeyKind),
    /// Something else happened, such as a mouse click or a resize.
    Other,
}

impl Input {
    /// The key press in this input, if it is one. Only a key going down
    /// counts; holding or releasing a key is not a press.
    pub open spec fn pressed(self) -> Option<Key> {
        match self {
            Input::Key(key, KeyKind::Press) => Some(key),
            _ => None,
        }
    }

    /// Picks the key press out of this input.
    pub fn pressed_key(self) -> (key: Option<Key>)
        ensures
            key == self.pressed(),
    {
        match self {
            Input::Key(key, KeyKind::Press) => Some(key),
            _ => None,
        }
    }
}

/// What the main loop does after a turn.
#[derive(Clone, Copy, Debug, PartialEq, Eq, Structural)]
pub enum Flow {
    /// Pause, then draw the next frame.
    Continue,
    /// Leave the loop without drawing again.
    Quit,
}

/// The application state as a mathematical value.
pub struct AppState {
    /// Set by the quit key and never reset.
    pub should_quit: bool,
    /// The moment the alarm is due, while one is armed.
    pub alarm_time: Option<Moment>,
    /// Whether the alarm dialog is open.
    pub show_alarm_dialog: bool,
    /// What has been typed into the alarm dialog so far.
    pub alarm_input: Seq<char>,
    /// Counts the turns of the loop, starting over after the largest value.
    pub animation_frame: u32,
}

impl AppState {
    /// The state a program starts in: idle, no alarm, frame zero.
    pub open spec fn initial() -> AppState {
        AppState {
            should_quit: false,
            alarm_time: None,
            show_alarm_dialog: false,
            alarm_input: Seq::empty(),
            animation_frame: 0,
        }
    }

    /// What holds of every state the program can reach: text is only ever
    /// pending while the dialog is open, and an armed alarm is due at the
    /// start of a minute that exists on the clock.
    pub open spec fn wf(self) -> bool {
        &&& self.alarm_input.len() > 0 ==> self.show_alarm_dialog
        &&& self.alarm_time matches Some(due) ==> due.wf() && due.second == 0
    }

    /// The state with the dialog closed and its text discarded.
    pub open spec fn close_dialog(self) -> AppState {
        AppState { show_alarm_dialog: false, alarm_input: Seq::empty(), ..self }
    }

    /// The state after the dialog is confirmed at `now`. Text of the form
    /// `HH:MM` arms the alarm for the next time the clock shows it; any
    /// other text is dropped and leaves the alarm as it was.
    pub open spec fn confirm(self, now: Moment) -> AppState {
        AppState {
            alarm_time: match parse_hhmm(self.alarm_input) {
                Some(time) => Some(next_occurrence(time, now)),
                None => self.alarm_time,
            },
            ..self.close_dialog()
        }
    }

    /// The state after `key` is pressed at `now`.
    ///
    /// The quit key and the alarm key act whether or not the dialog is
    /// open and are never taken as text. Confirm, delete and other
    /// characters act only on an open dialog.
    pub open spec fn on_key(self, key: Key, now: Moment) -> AppState {
        match key {
            Key::Char(c) => if c == QUIT_KEY {
                AppState { should_quit: true, ..self }
            } else if c == ALARM_KEY {
                AppState { show_alarm_dialog: true, ..self }
            } else if self.show_alarm_dialog {
                AppState { alarm_input: self.alarm_input.push(c), ..self }
            } else {
                self
            },
            Key::Esc => self.close_dialog(),
            Key::Enter => if self.show_alarm_dialog {
                self.confirm(now)
            } else {
                self
            },
            Key::Backspace => if self.show_alarm_dialog && self.alarm_input.len() > 0 {
                AppState { alarm_input: self.alarm_input.drop_last(), ..self }
            } else {
                self
            },
            Key::Other => self,
        }
    }

    /// The state after the alarm is checked at `now`: an alarm that is due
    /// goes off, which disarms it.
    pub open spec fn expire_alarm(self, now: Moment) -> AppState {
        match self.alarm_time {
            Some(due) if now.reached(due) => AppState { alarm_time: None, ..self },
            _ => self,
        }
    }

    /// The state with the frame counter moved on by one.
    pub open spec fn advance_frame(self) -> AppState {
        AppState {
            animation_frame: if self.animation_frame == u32::MAX {
                0
            } else {
                (self.animation_frame + 1) as u32
            },
            ..self
        }
    }

    /// The state after one turn of the loop in which `key` was pressed, if
    /// any, and the clock read `now`. Input comes first. If it asked to
    /// quit, nothing else happens; otherwise the alarm is checked and the
    /// frame counter moves on.
    pub open spec fn tick(self, key: Option<Key>, now: Moment) -> AppState {
        let after_input = match key {
            Some(k) => self.on_key(k, now),
            None => self,
        };
        if after_input.should_quit {
            after_input
        } else {
            after_input.expire_alarm(now).advance_frame()
        }
    }

    /// What the loop does after a turn that ended in this state.
    pub open spec fn flow(self) -> Flow {
        if self.should_quit {
            Flow::Quit
        } else {
            Flow::Continue
        }
    }
}

/// The application state.
#[derive(Debug)]
pub struct App {
    should_quit: bool,
    alarm_time: Option<Moment>,
    show_alarm_dialog: bool,
    alarm_input: String,
    animation_frame: u32,
}

impl View for App {
    type V = AppState;

    closed spec fn view(&self) -> AppState {
        AppState {
            should_quit: self.should_quit,
            alarm_time: self.alarm_time,
            show_alarm_dialog: self.show_alarm_dialog,
            alarm_input: self.alarm_input@,
            animation_frame: self.animation_frame,
        }
    }
}

impl App {
    /// Makes the state a program starts in.
    pub fn new() -> (app: App)
        ensures
            app@ == AppState::initial(),
    {
        App {
            should_quit: false,
            alarm_time: None,
            show_alarm_dialog: false,
            alarm_input: String::new(),
            animation_frame: 0,
        }
    }

    /// Whether the quit key has been pressed.
    pub fn should_quit(&self) -> (yes: bool)
        ensures
            yes == self@.should_quit,
    {
        self.should_quit
    }

    /// The moment the alarm is due, if one is armed.
    pub fn alarm_time(&self) -> (due: Option<Moment>)
        ensures
            due == self@.alarm_time,
    {
        self.alarm_time
    }

    /// Whether the alarm dialog is open.
    pub fn show_alarm_dialog(&self) -> (yes: bool)
        ensures
            yes == self@.show_alarm_dialog,
    {
        self.show_alarm_dialog
    }

    /// What has been typed into the alarm dialog so far.
    pub fn alarm_input(&self) -> (text: &str)
        ensures
            text@ == self@.alarm_input,
    {
        self.alarm_input.as_str()
    }

    /// The number of the frame to draw.
    pub fn animation_frame(&self) -> (frame: u32)
        ensures
            frame == self@.animation_frame,
    {
        self.animation_frame
    }

    /// Applies a key press. `now` is the clock reading at the time of the
    /// press; only confirming the dialog looks at it.
    pub fn handle_key_event(&mut self, key: Key, now: Moment)
        ensures
            final(self)@ == old(self)@.on_key(key, now),
    {
        match key {
            Key::Char(c) => {
                if c == QUIT_KEY {
                    self.should_quit = true;
                } else if c == ALARM_KEY {
                    self.show_alarm_dialog = true;
                } else if self.show_alarm_dialog {
                    self.alarm_input.push(c);
                }
            },
            Key::Esc => {
                self.show_alarm_dialog = false;
                self.alarm_input.clear();
            },
            Key::Enter => {
                if self.show_alarm_dialog {
                    if let Some(time) = parse_alarm_time(self.alarm_input.as_str()) {
                        self.alarm_time = Some(schedule_alarm(time, now));
                    }
                    self.show_alarm_dialog = false;
                    self.alarm_input.clear();
                }
            },
            Key::Backspace => {
                if self.show_alarm_dialog {
                    self.alarm_input.pop();
                }
            },
            Key::Other => {},
        }
    }

    /// Disarms the alarm if it is due at `now`.
    pub fn expire_alarm(&mut self, now: Moment)
        ensures
            final(self)@ == old(self)@.expire_alarm(now),
    {
        if let Some(due) = self.alarm_time {
            if now.has_reached(&due) {
                self.alarm_time = None;
            }
        }
    }

    /// Moves the frame counter on by one, starting over after the largest value.
    pub fn advance_frame(&mut self)
        ensures
            final(self)@ == old(self)@.advance_frame(),
    {
        self.animation_frame = if self.animation_frame == u32::MAX {
            0
        } else {
            self.animation_frame + 1
        };
    }

    /// Runs the state through one turn of the main loop and says how the
    /// loop goes on. `input` is what the input source reported while the
    /// loop was waiting, and `now` is the clock reading of this turn.
    pub fn tick(&mut self, input: Input, now: Moment) -> (flow: Flow)
        ensures
            final(self)@ == old(self)@.tick(input.pressed(), now),
            flow == final(self)@.flow(),
    {
        if let Some(key) = input.pressed_key() {
            self.handle_key_event(key, now);
        }
        if self.should_quit {
            return Flow::Quit;
        }
        self.expire_alarm(now);
        self.advance_frame();
        Flow::Continue
    }
}

/// A program starts in a well-formed state, and neither a key press nor a
/// turn of the loop can lead out of the well-formed states.
pub proof fn lemma_wf_is_invariant(s: AppState, key: Option<Key>, now: Moment)
    ensures
        AppState::initial().wf(),
        s.wf() ==> s.tick(key, now).wf(),
        s.wf() && key is Some ==> s.on_key(key->0, now).wf(),
        s.wf() ==> s.expire_alarm(now).wf() && s.advance_frame().wf(),
{
}

/// Input counts as a key press only when a key went down; a turn of the
/// loop with any other input goes like a turn with none.
pub proof fn lemma_only_presses_count(s: AppState, input: Input, now: Moment)
    ensures
        input.pressed() is Some <==> input matches Input::Key(_, KeyKind::Press),
        input.pressed() matches Some(key) ==> input == Input::Key(key, KeyKind::Press),
        !(input matches Input::Key(_, KeyKind::Press)) ==> s.tick(input.pressed(), now) == s.tick(
            None,
            now,
        ),
{
}

/// The quit key asks to quit whether or not the dialog is open and touches
/// nothing else. The turn of the loop in which it is pressed ends at once,
/// without an alarm check or a new frame, and tells the loop to leave.
pub proof fn lemma_quit_key_quits(s: AppState, now: Moment)
    ensures
        s.on_key(Key::Char(QUIT_KEY), now) == (AppState { should_quit: true, ..s }),
        s.tick(Some(Key::Char(QUIT_KEY)), now) == (AppState { should_quit: true, ..s }),
        s.tick(Some(Key::Char(QUIT_KEY)), now).flow() == Flow::Quit,
{
}

/// Once quitting has been asked for, no key and no turn of the loop takes
/// it back, and every further turn tells the loop to leave.
pub proof fn lemma_quit_is_final(s: AppState, key: Option<Key>, now: Moment)
    requires
        s.should_quit,
    ensures
        key is Some ==> s.on_key(key->0, now).should_quit,
        s.tick(key, now).should_quit,
        s.tick(key, now).flow() == Flow::Quit,
{
}

/// The loop leaves exactly when the state asks to quit, and a state only
/// comes to ask for it through the quit key.
pub proof fn lemma_only_quit_key_quits(s: AppState, key: Option<Key>, now: Moment)
    requires
        !s.should_quit,
    ensures
        s.tick(key, now).flow() == Flow::Quit <==> key == Some(Key::Char(QUIT_KEY)),
{
}

/// Cancelling closes the dialog and discards what was typed, whatever that
/// was, and leaves the alarm and everything else as it was.
pub proof fn lemma_cancel_returns_to_idle(s: AppState, now: Moment)
    ensures
        !s.on_key(Key::Esc, now).show_alarm_dialog,
        s.on_key(Key::Esc, now).alarm_input == Seq::<char>::empty(),
        s.on_key(Key::Esc, now).alarm_time == s.alarm_time,
        s.on_key(Key::Esc, now).should_quit == s.should_quit,
        s.on_key(Key::Esc, now).animation_frame == s.animation_frame,
{
}

/// Confirming an open dialog always closes it and discards the text. The
/// alarm changes exactly when the text has the form `HH:MM`: then it is due
/// the next time the clock shows that minute; otherwise it stays as it was.
pub proof fn lemma_confirm_closes_dialog(s: AppState, now: Moment)
    requires
        s.show_alarm_dialog,
    ensures
        !s.on_key(Key::Enter, now).show_alarm_dialog,
        s.on_key(Key::Enter, now).alarm_input == Seq::<char>::empty(),
        s.on_key(Key::Enter, now).should_quit == s.should_quit,
        s.on_key(Key::Enter, now).animation_frame == s.animation_frame,
        parse_hhmm(s.alarm_input) is None ==> s.on_key(Key::Enter, now).alarm_time == s.alarm_time,
        parse_hhmm(s.alarm_input) matches Some(time) ==> s.on_key(Key::Enter, now).alarm_time
            == Some(next_occurrence(time, now)),
{
}

/// While the dialog is closed, only the quit key and the alarm key do
/// anything at all.
pub proof fn lemma_idle_ignores_other_keys(s: AppState, key: Key, now: Moment)
    requires
        !s.show_alarm_dialog,
        s.wf(),
        key != Key::Char(QUIT_KEY),
        key != Key::Char(ALARM_KEY),
    ensures
        s.on_key(key, now) == s,
{
    assert(s.alarm_input =~= Seq::<char>::empty());
}

/// In an open dialog a character key other than the quit and alarm keys
/// adds its character at the end of the text, and the delete key takes the
/// last character away again.
pub proof fn lemma_typing_and_deleting(s: AppState, c: char, now: Moment)
    requires
        s.show_alarm_dialog,
        c != QUIT_KEY,
        c != ALARM_KEY,
    ensures
        s.on_key(Key::Char(c), now).alarm_input == s.alarm_input.push(c),
        s.on_key(Key::Char(c), now).on_key(Key::Backspace, now) == s,
        s.alarm_input.len() == 0 ==> s.on_key(Key::Backspace, now) == s,
{
    assert(s.alarm_input.push(c).drop_last() =~= s.alarm_input);
}

/// An alarm that is due when the loop checks it goes off: the state after
/// the check has no alarm. In particular a turn without a key press that
/// reads the clock at or past the alarm ends with the alarm disarmed.
pub proof fn lemma_due_alarm_goes_off(s: AppState, now: Moment)
    requires
        s.alarm_time matches Some(due) && now.reached(due),
    ensures
        s.expire_alarm(now).alarm_time is None,
        !s.should_quit ==> s.tick(None, now).alarm_time is None,
{
}

/// An alarm that is not yet due is left alone by the check.
pub proof fn lemma_early_alarm_stays(s: AppState, now: Moment)
    requires
        s.alarm_time matches Some(due) && !now.reached(due),
    ensures
        s.expire_alarm(now) == s,
{
}

/// After a turn that lets the loop go on, no alarm is armed that was due at
/// that turn's clock reading. That covers an alarm armed in the same turn:
/// because input is applied before the alarm is checked, and a new alarm
/// is due strictly after the moment it is set, the check in the same turn
/// cannot set it off. The calendar must have a tomorrow for this.
pub proof fn lemma_no_due_alarm_after_tick(s: AppState, key: Option<Key>, now: Moment)
    requires
        now.wf(),
        now.day < i32::MAX,
    ensures
        s.tick(key, now).flow() == Flow::Continue ==> (s.tick(key, now).alarm_time matches Some(
            due,
        ) ==> !now.reached(due)),
        s.show_alarm_dialog ==> (parse_hhmm(s.alarm_input) matches Some(time) ==> s.tick(
            Some(Key::Enter),
            now,
        ).alarm_time == Some(next_occurrence(time, now))),
{
    if s.show_alarm_dialog {
        if let Some(time) = parse_hhmm(s.alarm_input) {
            lemma_alarm_is_in_the_future(time, now);
        }
    }
}

/// Every turn that lets the loop go on moves the frame counter on by one,
/// and after the largest value the count starts over at zero.
pub proof fn lemma_frame_counter_wraps(s: AppState, key: Option<Key>, now: Moment)
    requires
        s.tick(key, now).flow() == Flow::Continue,
    ensures
        s.tick(key, now).animation_frame as int == (s.animation_frame + 1) % 0x1_0000_0000,
{
}

} // verus!

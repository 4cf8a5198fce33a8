//! The three kinds of interval, what each looks like on screen, and the
//! rule that picks the interval that follows.

use vstd::prelude::*;
use vstd::string::*;

verus! {

/// Which kind of interval the timer is in.
#[derive(Clone, Copy, Debug, PartialEq, Eq, Structural)]
pub enum PomodoroMode {
    LongBreak,
    ShortBreak,
    Work,
}

/// A colour as red, green and blue, each from 0 to 255.
#[derive(Clone, Copy, Debug, PartialEq, Eq, Structural)]
pub struct Rgb {
    pub r: u8,
    pub g: u8,
    pub b: u8,
}

impl PomodoroMode {
    /// The words that name the mode to the user.
    pub open spec fn label_text(self) -> Seq<char> {
        match self {
            PomodoroMode::LongBreak => "Long break"@,
            PomodoroMode::ShortBreak => "Short break"@,
            PomodoroMode::Work => "Work"@,
        }
    }

    /// The colour the countdown is drawn in.
    pub open spec fn rgb(self) -> Rgb {
        match self {
            PomodoroMode::LongBreak => Rgb { r: 240, g: 140, b: 58 },
            PomodoroMode::ShortBreak => Rgb { r: 240, g: 231, b: 58 },
            PomodoroMode::Work => Rgb { r: 58, g: 191, b: 240 },
        }
    }

    /// The mode's name as shown beside the countdown.
    pub fn label(self) -> (text: String)
        ensures
            text@ == self.label_text(),
    {
        match self {
            PomodoroMode::LongBreak => String::from_str("Long break"),
            PomodoroMode::ShortBreak => String::from_str("Short break"),
            PomodoroMode::Work => String::from_str("Work"),
        }
    }

    /// The colour of the countdown while the mode is active.
    pub fn color(self) -> (c: Rgb)
        ensures
            c == self.rgb(),
    {
        match self {
            PomodoroMode::LongBreak => Rgb { r: 240, g: 140, b: 58 },
            PomodoroMode::ShortBreak => Rgb { r: 240, g: 231, b: 58 },
            PomodoroMode::Work => Rgb { r: 58, g: 191, b: 240 },
        }
    }
}

/// The mode that follows `cur` once its interval has run out, where
/// `session_count` already counts the work interval that has just ended.
///
/// Work is followed by a break, a long one after every fourth session and a
/// short one otherwise; a break of either length is followed by work.
pub open spec fn next_mode(cur: PomodoroMode, session_count: nat) -> PomodoroMode {
    match cur {
        PomodoroMode::Work => if session_count % 4 == 0 {
            PomodoroMode::LongBreak
        } else {
            PomodoroMode::ShortBreak
        },
        PomodoroMode::LongBreak | PomodoroMode::ShortBreak => PomodoroMode::Work,
    }
}

/// Picks the mode that follows `cur_mode`; see [`next_mode`].
pub fn get_mode(cur_mode: PomodoroMode, session_count: u64) -> (next: PomodoroMode)
    ensures
        next == next_mode(cur_mode, session_count as nat),
{
    match cur_mode {
        PomodoroMode::Work => {
            if session_count % 4 == 0 {
                PomodoroMode::LongBreak
            } else {
                PomodoroMode::ShortBreak
            }
        },
        _ => PomodoroMode::Work,
    }
}

/// Counting up from any multiple of four, the first three work intervals to
/// end are each followed by a short break and the fourth by a long one.
pub proof fn lemma_every_fourth_break_is_long(base: nat)
    requires
        base % 4 == 0,
    ensures
        next_mode(PomodoroMode::Work, base + 1) == PomodoroMode::ShortBreak,
        next_mode(PomodoroMode::Work, base + 2) == PomodoroMode::ShortBreak,
        next_mode(PomodoroMode::Work, base + 3) == PomodoroMode::ShortBreak,
        next_mode(PomodoroMode::Work, base + 4) == PomodoroMode::LongBreak,
{
}

/// Whatever the count, a break of either length is followed by work, and
/// work is never followed by work.
pub proof fn lemma_breaks_return_to_work(session_count: nat)
    ensures
        next_mode(PomodoroMode::LongBreak, session_count) == PomodoroMode::Work,
        next_mode(PomodoroMode::ShortBreak, session_count) == PomodoroMode::Work,
        next_mode(PomodoroMode::Work, session_count) != PomodoroMode::Work,
        next_mode(PomodoroMode::Work, session_count) == PomodoroMode::LongBreak
            <==> session_count % 4 == 0,
{
}

} // verus!

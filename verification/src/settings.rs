//! The part of the timer that outlives the process: three interval lengths
//! and the count of completed work sessions.

use vstd::prelude::*;
use crate::mode::PomodoroMode;

verus! {

/// The shortest interval of any kind, in minutes.
pub const MIN_MINUTES: i64 = 1;

/// The longest work interval, in minutes.
pub const MAX_WORK_MINUTES: i64 = 120;

/// The longest short break, in minutes.
pub const MAX_SHORT_BREAK_MINUTES: i64 = 30;

/// The longest long break, in minutes.
pub const MAX_LONG_BREAK_MINUTES: i64 = 120;

/// The longest interval of the kind `field`, in minutes.
pub open spec fn max_minutes_of(field: PomodoroMode) -> int {
    match field {
        PomodoroMode::Work => MAX_WORK_MINUTES as int,
        PomodoroMode::ShortBreak => MAX_SHORT_BREAK_MINUTES as int,
        PomodoroMode::LongBreak => MAX_LONG_BREAK_MINUTES as int,
    }
}

/// Whether an interval of the kind `field` may last `minutes` minutes.
pub open spec fn minutes_allowed(field: PomodoroMode, minutes: int) -> bool {
    MIN_MINUTES <= minutes <= max_minutes_of(field)
}

/// The longest interval of the kind `field`, in minutes.
pub fn max_minutes(field: PomodoroMode) -> (max: i64)
    ensures
        max == max_minutes_of(field),
{
    match field {
        PomodoroMode::Work => MAX_WORK_MINUTES,
        PomodoroMode::ShortBreak => MAX_SHORT_BREAK_MINUTES,
        PomodoroMode::LongBreak => MAX_LONG_BREAK_MINUTES,
    }
}

/// The record that is kept between runs. Neither the mode nor a running
/// countdown is part of it.
#[derive(Clone, Copy, Debug, PartialEq, Eq, Structural)]
pub struct Settings {
    /// Length of a work interval, in minutes.
    pub work_minutes: i64,
    /// Length of a short break, in minutes.
    pub short_break_minutes: i64,
    /// Length of a long break, in minutes.
    pub long_break_minutes: i64,
    /// Work intervals completed since the timer was last stopped.
    pub session_count: u64,
}

impl Settings {
    /// The record of a timer that has never run: 25 minutes of work, breaks
    /// of 5 and 15 minutes, no session completed.
    pub open spec fn initial() -> Settings {
        Settings {
            work_minutes: 25,
            short_break_minutes: 5,
            long_break_minutes: 15,
            session_count: 0,
        }
    }

    /// The record with the fields that are given, and with those of the
    /// initial record where none is given.
    pub open spec fn filled(
        work_minutes: Option<i64>,
        short_break_minutes: Option<i64>,
        long_break_minutes: Option<i64>,
        session_count: Option<u64>,
    ) -> Settings {
        Settings {
            work_minutes: match work_minutes {
                Some(minutes) => minutes,
                None => Settings::initial().work_minutes,
            },
            short_break_minutes: match short_break_minutes {
                Some(minutes) => minutes,
                None => Settings::initial().short_break_minutes,
            },
            long_break_minutes: match long_break_minutes {
                Some(minutes) => minutes,
                None => Settings::initial().long_break_minutes,
            },
            session_count: match session_count {
                Some(count) => count,
                None => Settings::initial().session_count,
            },
        }
    }

    /// Whether each interval length lies in the range allowed for its kind.
    pub open spec fn valid(self) -> bool {
        &&& minutes_allowed(PomodoroMode::Work, self.work_minutes as int)
        &&& minutes_allowed(PomodoroMode::ShortBreak, self.short_break_minutes as int)
        &&& minutes_allowed(PomodoroMode::LongBreak, self.long_break_minutes as int)
    }

    /// Makes a record of the fields that were found in storage. A field
    /// that was not found takes its initial value.
    pub fn from_fields(
        work_minutes: Option<i64>,
        short_break_minutes: Option<i64>,
        long_break_minutes: Option<i64>,
        session_count: Option<u64>,
    ) -> (record: Settings)
        ensures
            record == Settings::filled(
                work_minutes,
                short_break_minutes,
                long_break_minutes,
                session_count,
            ),
    {
        let initial = Settings::default();
        Settings {
            work_minutes: match work_minutes {
                Some(minutes) => minutes,
                None => initial.work_minutes,
            },
            short_break_minutes: match short_break_minutes {
                Some(minutes) => minutes,
                None => initial.short_break_minutes,
            },
            long_break_minutes: match long_break_minutes {
                Some(minutes) => minutes,
                None => initial.long_break_minutes,
            },
            session_count: match session_count {
                Some(count) => count,
                None => initial.session_count,
            },
        }
    }

    /// Whether each interval length lies in the range allowed for its kind.
    pub fn is_valid(&self) -> (ok: bool)
        ensures
            ok == self.valid(),
    {
        MIN_MINUTES <= self.work_minutes && self.work_minutes <= MAX_WORK_MINUTES
            && MIN_MINUTES <= self.short_break_minutes && self.short_break_minutes
            <= MAX_SHORT_BREAK_MINUTES && MIN_MINUTES <= self.long_break_minutes
            && self.long_break_minutes <= MAX_LONG_BREAK_MINUTES
    }
}

impl Default for Settings {
    fn default() -> (s: Settings)
        ensures
            s == Settings::initial(),
    {
        Settings {
            work_minutes: 25,
            short_break_minutes: 5,
            long_break_minutes: 15,
            session_count: 0,
        }
    }
}

/// A record of which every field was found is that record; one of which
/// none was found is the initial record.
pub proof fn lemma_filled_record(record: Settings)
    ensures
        Settings::filled(
            Some(record.work_minutes),
            Some(record.short_break_minutes),
            Some(record.long_break_minutes),
            Some(record.session_count),
        ) == record,
        Settings::filled(None, None, None, None) == Settings::initial(),
        Settings::initial().valid(),
{
}

} // verus!

//! The timer as a mathematical state machine: what a state is, and what
//! each operation makes of it.

use vstd::prelude::*;
use crate::instant::MILLIS_PER_MINUTE;
use crate::mode::{next_mode, PomodoroMode};
use crate::settings::{minutes_allowed, Settings};

verus! {

/// A state of the timer. The timer is running exactly when `deadline` is
/// set; `mode` is kept while the timer is idle but has no effect then.
pub struct TimerState {
    /// Length of a work interval, in minutes.
    pub work_minutes: int,
    /// Length of a short break, in minutes.
    pub short_break_minutes: int,
    /// Length of a long break, in minutes.
    pub long_break_minutes: int,
    /// Work intervals completed since the timer was last stopped.
    pub session_count: nat,
    /// The kind of the current interval.
    pub mode: PomodoroMode,
    /// When the current interval ends, in milliseconds from the Unix epoch.
    pub deadline: Option<int>,
}

impl TimerState {
    /// Whether each interval length lies in the range allowed for its kind.
    pub open spec fn wf(self) -> bool {
        &&& minutes_allowed(PomodoroMode::Work, self.work_minutes)
        &&& minutes_allowed(PomodoroMode::ShortBreak, self.short_break_minutes)
        &&& minutes_allowed(PomodoroMode::LongBreak, self.long_break_minutes)
    }

    /// Whether a countdown is in progress.
    pub open spec fn running(self) -> bool {
        self.deadline is Some
    }

    /// The configured length of an interval of the kind `mode`, in minutes.
    pub open spec fn minutes_for(self, mode: PomodoroMode) -> int {
        match mode {
            PomodoroMode::Work => self.work_minutes,
            PomodoroMode::ShortBreak => self.short_break_minutes,
            PomodoroMode::LongBreak => self.long_break_minutes,
        }
    }

    /// The deadline of an interval of the kind `mode` that begins at `now`.
    pub open spec fn deadline_from(self, now: int, mode: PomodoroMode) -> int {
        now + self.minutes_for(mode) * MILLIS_PER_MINUTE
    }

    /// The idle timer that a stored record gives rise to: the record's four
    /// values, work mode, no countdown.
    pub open spec fn restored(record: Settings) -> TimerState {
        TimerState {
            work_minutes: record.work_minutes as int,
            short_break_minutes: record.short_break_minutes as int,
            long_break_minutes: record.long_break_minutes as int,
            session_count: record.session_count as nat,
            mode: PomodoroMode::Work,
            deadline: None,
        }
    }

    /// The timer as it is when nothing usable was stored.
    pub open spec fn initial() -> TimerState {
        Self::restored(Settings::initial())
    }

    /// The timer at startup. A stored record is taken over if it is valid;
    /// a missing or invalid one is replaced by the initial settings.
    pub open spec fn startup(stored: Option<Settings>) -> TimerState {
        match stored {
            Some(record) if record.valid() => Self::restored(record),
            _ => Self::initial(),
        }
    }

    /// Whether `record` holds this state's four persistent values.
    pub open spec fn saved_as(self, record: Settings) -> bool {
        &&& record.work_minutes == self.work_minutes
        &&& record.short_break_minutes == self.short_break_minutes
        &&& record.long_break_minutes == self.long_break_minutes
        &&& record.session_count == self.session_count
    }

    /// Starting an idle timer at `now` begins a countdown of the current
    /// mode's length; starting a running timer changes nothing.
    pub open spec fn start(self, now: int) -> TimerState {
        if self.running() {
            self
        } else {
            TimerState { deadline: Some(self.deadline_from(now, self.mode)), ..self }
        }
    }

    /// Stopping clears the countdown and forgets the completed sessions.
    pub open spec fn stop(self) -> TimerState {
        TimerState { deadline: None, session_count: 0, ..self }
    }

    /// Time left at `now` until the deadline, in milliseconds; negative
    /// once the deadline has passed.
    pub open spec fn remaining(self, now: int) -> int
        recommends
            self.running(),
    {
        self.deadline.unwrap() - now
    }

    /// Whether the current interval has run out at `now`. An interval with
    /// exactly no time left has not run out yet.
    pub open spec fn elapsed(self, now: int) -> bool {
        self.running() && self.remaining(now) < 0
    }

    /// The session count after the current interval has run out: one more
    /// if it was a work interval, unchanged if it was a break.
    pub open spec fn count_after_interval(self) -> nat {
        if self.mode == PomodoroMode::Work {
            self.session_count + 1
        } else {
            self.session_count
        }
    }

    /// Polling at `now`. Nothing changes while the timer is idle or its
    /// interval has not run out. Once it has, a finished work interval is
    /// counted, the mode moves on, and the next interval begins at `now`.
    pub open spec fn tick(self, now: int) -> TimerState {
        if self.elapsed(now) {
            let session_count = self.count_after_interval();
            let mode = next_mode(self.mode, session_count);
            TimerState {
                session_count,
                mode,
                deadline: Some(self.deadline_from(now, mode)),
                ..self
            }
        } else {
            self
        }
    }

    /// Whether the length of `field` intervals may be changed. The length
    /// of the interval that is counting down is locked, and the work length
    /// is locked whenever any countdown is in progress.
    pub open spec fn editable(self, field: PomodoroMode) -> bool {
        match field {
            PomodoroMode::Work => !self.running(),
            _ => !(self.running() && self.mode == field),
        }
    }

    /// This state with the length of `field` intervals set to `minutes`.
    pub open spec fn with_minutes(self, field: PomodoroMode, minutes: int) -> TimerState {
        match field {
            PomodoroMode::Work => TimerState { work_minutes: minutes, ..self },
            PomodoroMode::ShortBreak => TimerState { short_break_minutes: minutes, ..self },
            PomodoroMode::LongBreak => TimerState { long_break_minutes: minutes, ..self },
        }
    }

    /// Whether an edit of `field` to `minutes` is taken: the field must be
    /// editable and the value allowed for it.
    pub open spec fn accepts(self, field: PomodoroMode, minutes: int) -> bool {
        self.editable(field) && minutes_allowed(field, minutes)
    }

    /// Editing one interval length. An edit that is not accepted changes
    /// nothing.
    pub open spec fn edit_setting(self, field: PomodoroMode, minutes: int) -> TimerState {
        if self.accepts(field, minutes) {
            self.with_minutes(field, minutes)
        } else {
            self
        }
    }
}

/// Every operation keeps the interval lengths within their ranges.
pub proof fn lemma_operations_keep_wf(
    state: TimerState,
    now: int,
    field: PomodoroMode,
    minutes: int,
)
    requires
        state.wf(),
    ensures
        state.start(now).wf(),
        state.stop().wf(),
        state.tick(now).wf(),
        state.edit_setting(field, minutes).wf(),
{
}

/// A stored record of any content yields a well-formed, idle timer in work
/// mode.
pub proof fn lemma_startup_is_idle_work(stored: Option<Settings>)
    ensures
        TimerState::startup(stored).wf(),
        !TimerState::startup(stored).running(),
        TimerState::startup(stored).mode == PomodoroMode::Work,
{
}

/// Saving and loading again gives back the three interval lengths and the
/// session count exactly. The mode and the countdown are not kept: whatever
/// they were, the reloaded timer is idle and in work mode.
pub proof fn lemma_saved_record_restores(state: TimerState, record: Settings)
    requires
        state.wf(),
        state.saved_as(record),
    ensures
        record.valid(),
        TimerState::startup(Some(record)).work_minutes == state.work_minutes,
        TimerState::startup(Some(record)).short_break_minutes == state.short_break_minutes,
        TimerState::startup(Some(record)).long_break_minutes == state.long_break_minutes,
        TimerState::startup(Some(record)).session_count == state.session_count,
        TimerState::startup(Some(record)).saved_as(record),
        TimerState::startup(Some(record)).mode == PomodoroMode::Work,
        TimerState::startup(Some(record)).deadline is None,
{
}

/// Stopping leaves no session counted and no countdown, whatever the state
/// was, and keeps the mode and the interval lengths.
pub proof fn lemma_stop_resets(state: TimerState)
    ensures
        state.stop().session_count == 0,
        !state.stop().running(),
        state.stop().mode == state.mode,
        state.stop().work_minutes == state.work_minutes,
        state.stop().short_break_minutes == state.short_break_minutes,
        state.stop().long_break_minutes == state.long_break_minutes,
{
}

/// While the timer is idle or its interval has time left, be it exactly
/// none, polling changes nothing, however often it is repeated.
pub proof fn lemma_tick_before_deadline_is_noop(state: TimerState, first: int, second: int)
    requires
        state.running() ==> state.remaining(first) >= 0 && state.remaining(second) >= 0,
    ensures
        state.tick(first) == state,
        state.tick(first).tick(second) == state,
{
}

/// Polling twice at one instant is the same as polling once: an interval
/// that has just begun has not run out.
pub proof fn lemma_tick_is_idempotent(state: TimerState, now: int)
    requires
        state.wf(),
    ensures
        state.tick(now).tick(now) == state.tick(now),
{
}

/// A poll that finds the interval run out moves from work to a break, long
/// if the sessions then counted are a multiple of four and short if not,
/// and from a break of either length back to work; the new interval has the
/// new mode's length and begins at the poll.
pub proof fn lemma_tick_after_deadline(state: TimerState, now: int)
    requires
        state.elapsed(now),
    ensures
        state.mode == PomodoroMode::Work ==> state.tick(now).session_count == state.session_count
            + 1,
        state.mode == PomodoroMode::Work && (state.session_count + 1) % 4 == 0 ==> state.tick(
            now,
        ).mode == PomodoroMode::LongBreak,
        state.mode == PomodoroMode::Work && (state.session_count + 1) % 4 != 0 ==> state.tick(
            now,
        ).mode == PomodoroMode::ShortBreak,
        state.mode != PomodoroMode::Work ==> state.tick(now).mode == PomodoroMode::Work
            && state.tick(now).session_count == state.session_count,
        state.tick(now).deadline == Some(
            now + state.minutes_for(state.tick(now).mode) * MILLIS_PER_MINUTE,
        ),
        state.tick(now).work_minutes == state.work_minutes,
        state.tick(now).short_break_minutes == state.short_break_minutes,
        state.tick(now).long_break_minutes == state.long_break_minutes,
{
}

/// The session count grows only when a work interval runs out, and then by
/// one. Starting and editing never touch it.
pub proof fn lemma_only_finished_work_counts(
    state: TimerState,
    now: int,
    field: PomodoroMode,
    minutes: int,
)
    ensures
        state.tick(now).session_count == if state.elapsed(now) && state.mode
            == PomodoroMode::Work {
            state.session_count + 1
        } else {
            state.session_count
        },
        state.start(now).session_count == state.session_count,
        state.edit_setting(field, minutes).session_count == state.session_count,
{
}

/// The timer is running after a start and keeps running through every
/// poll; only a stop makes it idle.
pub proof fn lemma_running_until_stopped(state: TimerState, now: int, later: int)
    ensures
        state.start(now).running(),
        state.running() ==> state.tick(later).running(),
        !state.running() ==> state.tick(later) == state,
{
}

/// An edit is taken exactly when the field is unlocked and the value is in
/// the field's range. One that is taken sets that field and nothing else;
/// the length of the interval that is counting down can never be changed,
/// nor the work length while any countdown is in progress.
pub proof fn lemma_edit_setting(state: TimerState, field: PomodoroMode, minutes: int)
    ensures
        state.accepts(field, minutes) ==> state.edit_setting(field, minutes).minutes_for(field)
            == minutes,
        !state.accepts(field, minutes) ==> state.edit_setting(field, minutes) == state,
        forall|other: PomodoroMode|
            other != field ==> #[trigger] state.edit_setting(field, minutes).minutes_for(other)
                == state.minutes_for(other),
        state.edit_setting(field, minutes).mode == state.mode,
        state.edit_setting(field, minutes).deadline == state.deadline,
        state.running() ==> state.edit_setting(field, minutes).minutes_for(state.mode)
            == state.minutes_for(state.mode),
        state.running() ==> state.edit_setting(field, minutes).work_minutes
            == state.work_minutes,
        !state.running() ==> state.editable(field),
{
}

} // verus!

//! The timer itself: the state the host owns, and the operations it calls.

use vstd::prelude::*;
use crate::instant::{Timestamp, MAX_MILLIS, MILLIS_PER_MINUTE};
use crate::mode::{get_mode, PomodoroMode};
use crate::model::TimerState;
use crate::settings::{
    max_minutes, minutes_allowed, Settings, MAX_WORK_MINUTES, MIN_MINUTES,
};

verus! {

/// The longest the host may wait after a poll, in milliseconds, before it
/// polls the timer and repaints the countdown again.
pub const REPAINT_INTERVAL_MILLIS: u64 = 1_000;

/// What a poll of the timer found.
#[derive(Clone, Copy, Debug, PartialEq, Eq, Structural)]
pub enum Tick {
    /// No countdown is in progress.
    Idle,
    /// The interval goes on with `remaining` milliseconds left.
    Counting { remaining: i64 },
    /// The interval had run out `-remaining` milliseconds before the poll
    /// and the next one has begun: the display is stale and wants
    /// repainting at once.
    Advanced { remaining: i64 },
}

impl Tick {
    /// The time to show in the countdown, in milliseconds, if any.
    pub open spec fn shown(self) -> Option<i64> {
        match self {
            Tick::Idle => None,
            Tick::Counting { remaining } => Some(remaining),
            Tick::Advanced { remaining } => Some(remaining),
        }
    }

    /// Whether this is what a poll at `now` reports of a timer that was in
    /// `state` when polled.
    pub open spec fn reports(self, state: TimerState, now: int) -> bool {
        match self {
            Tick::Idle => !state.running(),
            Tick::Counting { remaining } => {
                &&& state.running()
                &&& !state.elapsed(now)
                &&& remaining == state.remaining(now)
            },
            Tick::Advanced { remaining } => {
                &&& state.elapsed(now)
                &&& remaining == state.remaining(now)
            },
        }
    }

    /// The time to show in the countdown, in milliseconds, if any.
    pub fn remaining(&self) -> (left: Option<i64>)
        ensures
            left == self.shown(),
    {
        match self {
            Tick::Idle => None,
            Tick::Counting { remaining } => Some(*remaining),
            Tick::Advanced { remaining } => Some(*remaining),
        }
    }

    /// Whether the display must be repainted at once.
    pub fn repaint_now(&self) -> (at_once: bool)
        ensures
            at_once == (self is Advanced),
    {
        match self {
            Tick::Advanced { .. } => true,
            _ => false,
        }
    }

    /// The longest the host may wait, in milliseconds, before it polls and
    /// repaints again. It is the same whatever the poll found: one second.
    pub fn repaint_within(&self) -> (millis: u64)
        ensures
            millis == REPAINT_INTERVAL_MILLIS,
            millis == 1_000,
    {
        REPAINT_INTERVAL_MILLIS
    }
}

/// Whether a poll of `state` at `now` would count one session more than the
/// counter can hold.
pub open spec fn counter_full(state: TimerState, now: int) -> bool {
    &&& state.elapsed(now)
    &&& state.mode == PomodoroMode::Work
    &&& state.session_count >= u64::MAX
}

/// A Pomodoro timer.
#[derive(Clone, Copy, Debug, PartialEq, Eq)]
pub struct EpomoApp {
    interval_period: i64,
    long_break_period: i64,
    short_break_period: i64,
    session_count: u64,
    current_mode: PomodoroMode,
    ends_at: Option<i64>,
}

impl View for EpomoApp {
    type V = TimerState;

    closed spec fn view(&self) -> TimerState {
        TimerState {
            work_minutes: self.interval_period as int,
            short_break_minutes: self.short_break_period as int,
            long_break_minutes: self.long_break_period as int,
            session_count: self.session_count as nat,
            mode: self.current_mode,
            deadline: match self.ends_at {
                Some(at) => Some(at as int),
                None => None,
            },
        }
    }
}

impl EpomoApp {
    /// Every timer has interval lengths within their ranges, and a deadline
    /// no further from a representable instant than the longest interval.
    #[verifier::type_invariant]
    pub open spec fn inv(self) -> bool {
        &&& self@.wf()
        &&& self@.deadline matches Some(at) ==> -MAX_MILLIS <= at <= MAX_MILLIS + MAX_WORK_MINUTES
            * MILLIS_PER_MINUTE
    }

    /// The timer at startup: idle and in work mode, with the stored record's
    /// values if there is a valid one and with the initial settings if not.
    pub fn new(stored: Option<Settings>) -> (app: EpomoApp)
        ensures
            app@ == TimerState::startup(stored),
            app@.wf(),
            !app@.running(),
            app@.mode == PomodoroMode::Work,
    {
        let record = match stored {
            Some(record) => if record.is_valid() {
                record
            } else {
                Settings::default()
            },
            None => Settings::default(),
        };
        EpomoApp {
            interval_period: record.work_minutes,
            long_break_period: record.long_break_minutes,
            short_break_period: record.short_break_minutes,
            session_count: record.session_count,
            current_mode: PomodoroMode::Work,
            ends_at: None,
        }
    }

    /// The record to keep between runs.
    pub fn settings(&self) -> (record: Settings)
        ensures
            self@.saved_as(record),
            record.valid(),
    {
        proof {
            use_type_invariant(self);
        }
        Settings {
            work_minutes: self.interval_period,
            short_break_minutes: self.short_break_period,
            long_break_minutes: self.long_break_period,
            session_count: self.session_count,
        }
    }

    /// The configured length of an interval of the kind `mode`, in minutes.
    pub fn duration_for(&self, mode: PomodoroMode) -> (minutes: i64)
        ensures
            minutes == self@.minutes_for(mode),
            minutes_allowed(mode, minutes as int),
    {
        proof {
            use_type_invariant(self);
        }
        match mode {
            PomodoroMode::Work => self.interval_period,
            PomodoroMode::ShortBreak => self.short_break_period,
            PomodoroMode::LongBreak => self.long_break_period,
        }
    }

    /// The kind of the current interval.
    pub fn mode(&self) -> (mode: PomodoroMode)
        ensures
            mode == self@.mode,
    {
        self.current_mode
    }

    /// Work intervals completed since the timer was last stopped.
    pub fn session_count(&self) -> (count: u64)
        ensures
            count == self@.session_count,
    {
        self.session_count
    }

    /// When the current interval ends, in milliseconds from the Unix epoch,
    /// or nothing while the timer is idle.
    pub fn deadline(&self) -> (at: Option<i64>)
        ensures
            at is Some == self@.running(),
            at matches Some(ms) ==> self@.deadline == Some(ms as int),
    {
        self.ends_at
    }

    /// Whether a countdown is in progress.
    pub fn is_running(&self) -> (running: bool)
        ensures
            running == self@.running(),
    {
        self.ends_at.is_some()
    }

    /// Whether the length of `field` intervals may be changed now.
    pub fn can_edit(&self, field: PomodoroMode) -> (editable: bool)
        ensures
            editable == self@.editable(field),
    {
        match field {
            PomodoroMode::Work => self.ends_at.is_none(),
            PomodoroMode::ShortBreak => !(self.ends_at.is_some() && self.current_mode
                == PomodoroMode::ShortBreak),
            PomodoroMode::LongBreak => !(self.ends_at.is_some() && self.current_mode
                == PomodoroMode::LongBreak),
        }
    }

    /// Sets the length of `field` intervals to `minutes`, if that length
    /// may be changed now and `minutes` is allowed for it. Says whether the
    /// edit was taken; one that was not changes nothing.
    pub fn edit_setting(&mut self, field: PomodoroMode, minutes: i64) -> (taken: bool)
        ensures
            taken == old(self)@.accepts(field, minutes as int),
            final(self)@ == old(self)@.edit_setting(field, minutes as int),
    {
        proof {
            use_type_invariant(&*self);
        }
        if !self.can_edit(field) || minutes < MIN_MINUTES || minutes > max_minutes(field) {
            return false;
        }
        match field {
            PomodoroMode::Work => {
                self.interval_period = minutes;
            },
            PomodoroMode::ShortBreak => {
                self.short_break_period = minutes;
            },
            PomodoroMode::LongBreak => {
                self.long_break_period = minutes;
            },
        }
        true
    }

    /// Begins a countdown of the current mode's length at `now`, unless one
    /// is in progress already.
    pub fn start(&mut self, now: Timestamp)
        ensures
            final(self)@ == old(self)@.start(now@),
            final(self)@.running(),
    {
        proof {
            use_type_invariant(&*self);
        }
        if self.ends_at.is_none() {
            let minutes = self.duration_for(self.current_mode);
            self.ends_at = Some(now.millis() + minutes * MILLIS_PER_MINUTE);
        }
    }

    /// Clears the countdown and forgets the completed sessions.
    pub fn stop(&mut self)
        ensures
            final(self)@ == old(self)@.stop(),
            final(self)@.session_count == 0,
            !final(self)@.running(),
    {
        proof {
            use_type_invariant(&*self);
        }
        *self = EpomoApp {
            interval_period: self.interval_period,
            long_break_period: self.long_break_period,
            short_break_period: self.short_break_period,
            session_count: 0,
            current_mode: self.current_mode,
            ends_at: None,
        };
    }

    /// Polls the timer at `now`. While the interval has time left, or just
    /// none, nothing changes. Once it has run out, a finished work interval
    /// is counted, the mode moves on and the next interval begins at `now`.
    ///
    /// The session counter must have room for the work interval that is
    /// about to be counted, if one is; [`EpomoApp::checked_tick`] tests that.
    pub fn tick(&mut self, now: Timestamp) -> (report: Tick)
        requires
            !counter_full(old(self)@, now@),
        ensures
            final(self)@ == old(self)@.tick(now@),
            !old(self)@.elapsed(now@) ==> final(self)@ == old(self)@,
            report.reports(old(self)@, now@),
    {
        proof {
            use_type_invariant(&*self);
        }
        match self.ends_at {
            None => Tick::Idle,
            Some(at) => {
                let now_millis = now.millis();
                let remaining = at - now_millis;
                if remaining < 0 {
                    let session_count = if self.current_mode == PomodoroMode::Work {
                        self.session_count + 1
                    } else {
                        self.session_count
                    };
                    let mode = get_mode(self.current_mode, session_count);
                    let minutes = self.duration_for(mode);
                    *self = EpomoApp {
                        interval_period: self.interval_period,
                        long_break_period: self.long_break_period,
                        short_break_period: self.short_break_period,
                        session_count,
                        current_mode: mode,
                        ends_at: Some(now_millis + minutes * MILLIS_PER_MINUTE),
                    };
                    Tick::Advanced { remaining }
                } else {
                    Tick::Counting { remaining }
                }
            },
        }
    }

    /// Polls the timer at `now` as [`EpomoApp::tick`] does, unless the
    /// session counter is full and a work interval has run out: then the
    /// timer is left as it is and nothing is reported.
    pub fn checked_tick(&mut self, now: Timestamp) -> (report: Option<Tick>)
        ensures
            report is None <==> counter_full(old(self)@, now@),
            report is None ==> final(self)@ == old(self)@,
            report matches Some(found) ==> {
                &&& final(self)@ == old(self)@.tick(now@)
                &&& found.reports(old(self)@, now@)
            },
    {
        let full = match self.ends_at {
            Some(at) => at < now.millis() && self.current_mode == PomodoroMode::Work
                && self.session_count == u64::MAX,
            None => false,
        };
        if full {
            None
        } else {
            Some(self.tick(now))
        }
    }
}

impl Default for EpomoApp {
    /// The timer as it is when nothing was stored: 25 minutes of work,
    /// breaks of 5 and 15 minutes, no session completed, idle, work mode.
    fn default() -> (app: EpomoApp)
        ensures
            app@ == TimerState::initial(),
            app@ == TimerState::startup(None),
    {
        EpomoApp {
            interval_period: 25,
            long_break_period: 15,
            short_break_period: 5,
            session_count: 0,
            ends_at: None,
            current_mode: PomodoroMode::Work,
        }
    }
}

} // verus!

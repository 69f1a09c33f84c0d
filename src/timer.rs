use vstd::prelude::*;

use crate::span::{clamp_to, clamped_span, TimeSpan};

verus! {

/// Relies on chrono's `From<SystemTime> for DateTime<Utc>` and
/// `DateTime::timestamp_millis`: the current wall-clock time, in milliseconds
/// since the Unix epoch, negative for a clock set before 1970. Nothing is
/// promised of the value; the conversion fails only for a clock outside
/// chrono's range of dates, some 262,000 years either side of year zero.
#[verifier::external_body]
pub(crate) fn now_millis() -> (r: i64) {
    chrono::DateTime::<chrono::Utc>::from(std::time::SystemTime::now()).timestamp_millis()
}

/// What a countdown reports about itself.
#[derive(Clone, Copy, Debug, PartialEq, Eq, Structural)]
pub enum TimerState {
    Running { remaining_duration: TimeSpan },
    Paused { remaining_duration: TimeSpan },
    Complete,
}

/// The abstract contents of a [`Timer`]; all times in milliseconds.
pub struct TimerModel {
    /// The full length of the countdown.
    pub length: int,
    /// The instant at which the countdown runs out; meaningful while running.
    pub end: int,
    /// The time that was left when the countdown was paused; `None` while running.
    pub paused: Option<int>,
}

impl TimerModel {
    pub open spec fn wf(self) -> bool {
        &&& i64::MIN <= self.length <= i64::MAX
        &&& 2 * i64::MIN <= self.end <= 2 * i64::MAX
        &&& self.paused matches Some(r) ==> 0 <= r <= clamp_to(self.length, self.length)
    }

    pub open spec fn is_running(self) -> bool {
        self.paused is None
    }

    /// The time left at instant `now`: what was left at the pause, or the
    /// time until the end, never below zero nor above the full length.
    pub open spec fn remaining_at(self, now: int) -> int {
        match self.paused {
            Some(r) => r,
            None => clamp_to(self.end - now, self.length),
        }
    }

    /// A running countdown whose end has been reached at `now`.
    pub open spec fn has_ended_at(self, now: int) -> bool {
        self.is_running() && now >= self.end
    }

    pub open spec fn state_at(self, now: int) -> TimerState {
        match self.paused {
            Some(r) => TimerState::Paused { remaining_duration: TimeSpan { millis: r as i64 } },
            None => if now > self.end {
                TimerState::Complete
            } else {
                TimerState::Running {
                    remaining_duration: TimeSpan { millis: self.remaining_at(now) as i64 },
                }
            },
        }
    }

    /// A countdown of `length` started at `now`.
    pub open spec fn started(length: int, now: int) -> TimerModel {
        TimerModel { length, end: now + length, paused: None }
    }

    /// A countdown of `length` that has not begun to run.
    pub open spec fn stopped(length: int) -> TimerModel {
        TimerModel { length, end: 0, paused: Some(clamp_to(length, length)) }
    }

    /// Paused at `now`, keeping the time left; a paused countdown is unchanged.
    pub open spec fn suspended(self, now: int) -> TimerModel {
        if self.is_running() {
            TimerModel { paused: Some(self.remaining_at(now)), ..self }
        } else {
            self
        }
    }

    /// Running again from `now` with the time that was left; a running
    /// countdown is unchanged.
    pub open spec fn resumed(self, now: int) -> TimerModel {
        match self.paused {
            Some(r) => TimerModel { end: now + r, paused: None, ..self },
            None => self,
        }
    }

    pub open spec fn toggled(self, now: int) -> TimerModel {
        if self.is_running() {
            self.suspended(now)
        } else {
            self.resumed(now)
        }
    }

    /// Run out at `now`: a running countdown ends there, a paused one keeps
    /// no time.
    pub open spec fn ended_early(self, now: int) -> TimerModel {
        if self.is_running() {
            TimerModel { end: now, ..self }
        } else {
            TimerModel { paused: Some(0), ..self }
        }
    }

    /// A new running countdown of `length` that starts where this one ended.
    pub open spec fn chained(self, length: int) -> TimerModel {
        TimerModel { length, end: self.end + length, paused: None }
    }
}

/// A countdown measured against the wall clock. It records the instant at
/// which it will run out rather than ticking, so irregular polling causes
/// no drift.
pub struct Timer {
    length: TimeSpan,
    expected_end_time: i128,
    time_left_when_paused: Option<TimeSpan>,
}

impl View for Timer {
    type V = TimerModel;

    closed spec fn view(&self) -> TimerModel {
        TimerModel {
            length: self.length.millis as int,
            end: self.expected_end_time as int,
            paused: match self.time_left_when_paused {
                Some(r) => Some(r.millis as int),
                None => None,
            },
        }
    }
}

impl Timer {
    /// A countdown of `length` started at instant `now` (milliseconds since
    /// the Unix epoch).
    pub fn start_at(length: TimeSpan, now: i64) -> (r: Timer)
        ensures
            r@ == TimerModel::started(length.millis as int, now as int),
            r@.wf(),
    {
        Timer {
            length,
            expected_end_time: now as i128 + length.millis as i128,
            time_left_when_paused: None,
        }
    }

    /// A countdown of `length` started now.
    pub fn start_from_duration(length: TimeSpan) -> (r: Timer)
        ensures
            r@.wf(),
            exists|t: i64| r@ == TimerModel::started(length.millis as int, t as int),
    {
        let now = now_millis();
        Timer::start_at(length, now)
    }

    /// A countdown of `length` that waits, paused, to be started.
    pub fn stopped(length: TimeSpan) -> (r: Timer)
        ensures
            r@ == TimerModel::stopped(length.millis as int),
            r@.wf(),
    {
        let left = if length.millis < 0 {
            TimeSpan { millis: 0 }
        } else {
            length
        };
        Timer { length, expected_end_time: 0, time_left_when_paused: Some(left) }
    }

    pub fn length(&self) -> (r: TimeSpan)
        ensures
            r.millis == self@.length,
    {
        self.length
    }

    pub fn is_paused(&self) -> (r: bool)
        ensures
            r == !self@.is_running(),
    {
        self.time_left_when_paused.is_some()
    }

    /// The time left at instant `now`.
    pub fn remaining_at(&self, now: i64) -> (r: TimeSpan)
        requires
            self@.wf(),
        ensures
            r.millis == self@.remaining_at(now as int),
    {
        match self.time_left_when_paused {
            Some(left) => left,
            None => clamped_span(self.expected_end_time, now, self.length),
        }
    }

    /// Whether the countdown is running and its end has been reached at `now`.
    pub fn has_ended_at(&self, now: i64) -> (r: bool)
        ensures
            r == self@.has_ended_at(now as int),
    {
        self.time_left_when_paused.is_none() && now as i128 >= self.expected_end_time
    }

    /// The state of the countdown at instant `now`.
    pub fn state_at(&self, now: i64) -> (r: TimerState)
        requires
            self@.wf(),
        ensures
            r == self@.state_at(now as int),
    {
        match self.time_left_when_paused {
            Some(left) => TimerState::Paused { remaining_duration: left },
            None => if now as i128 > self.expected_end_time {
                TimerState::Complete
            } else {
                TimerState::Running {
                    remaining_duration: clamped_span(self.expected_end_time, now, self.length),
                }
            },
        }
    }

    /// The state of the countdown now.
    pub fn get_timer_state(&self) -> (r: TimerState)
        requires
            self@.wf(),
        ensures
            exists|t: i64| r == self@.state_at(t as int),
    {
        let now = now_millis();
        self.state_at(now)
    }

    /// Pauses a running countdown at `now`; does nothing to a paused one.
    pub fn suspend_at(&mut self, now: i64)
        requires
            old(self)@.wf(),
        ensures
            final(self)@ == old(self)@.suspended(now as int),
            final(self)@.wf(),
    {
        if self.time_left_when_paused.is_none() {
            let left = clamped_span(self.expected_end_time, now, self.length);
            self.time_left_when_paused = Some(left);
        }
    }

    /// Lets a paused countdown run again from `now`; does nothing to a running one.
    pub fn resume_at(&mut self, now: i64)
        requires
            old(self)@.wf(),
        ensures
            final(self)@ == old(self)@.resumed(now as int),
            final(self)@.wf(),
    {
        if let Some(left) = self.time_left_when_paused {
            self.expected_end_time = now as i128 + left.millis as i128;
            self.time_left_when_paused = None;
        }
    }

    /// Pauses a running countdown, or resumes a paused one, at `now`.
    pub fn toggle_at(&mut self, now: i64)
        requires
            old(self)@.wf(),
        ensures
            final(self)@ == old(self)@.toggled(now as int),
            final(self)@.wf(),
    {
        if self.time_left_when_paused.is_none() {
            self.suspend_at(now);
        } else {
            self.resume_at(now);
        }
    }

    /// Pauses a running countdown, or resumes a paused one, now.
    pub fn pause(&mut self)
        requires
            old(self)@.wf(),
        ensures
            exists|t: i64| final(self)@ == old(self)@.toggled(t as int),
            final(self)@.wf(),
    {
        let now = now_millis();
        self.toggle_at(now);
    }

    /// Makes the countdown run out at `now`.
    pub fn end_early_at(&mut self, now: i64)
        requires
            old(self)@.wf(),
        ensures
            final(self)@ == old(self)@.ended_early(now as int),
            final(self)@.wf(),
    {
        if self.time_left_when_paused.is_none() {
            self.expected_end_time = now as i128;
        } else {
            self.time_left_when_paused = Some(TimeSpan { millis: 0 });
        }
    }

    /// Makes the countdown run out now.
    pub fn end_early(&mut self)
        requires
            old(self)@.wf(),
        ensures
            exists|t: i64| final(self)@ == old(self)@.ended_early(t as int),
            final(self)@.wf(),
    {
        let now = now_millis();
        self.end_early_at(now);
    }

    /// Replaces a running countdown by one of `length` that starts at the
    /// instant this one was due to end.
    pub(crate) fn chain(&mut self, length: TimeSpan)
        requires
            old(self)@.wf(),
            old(self)@.is_running(),
            old(self)@.end <= i64::MAX,
            length.millis >= 0,
        ensures
            final(self)@ == old(self)@.chained(length.millis as int),
            final(self)@.wf(),
    {
        self.expected_end_time = self.expected_end_time + length.millis as i128;
        self.length = length;
    }
}

} // verus!

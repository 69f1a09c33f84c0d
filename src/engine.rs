use vstd::prelude::*;

use crate::phase::{next_phase, next_phase_spec, phase_after, Config, ConfigError, Phase};
use crate::span::{clamp_to, TimeSpan};
use crate::timer::{now_millis, Timer, TimerModel};

verus! {

/// What the engine reports to its host: the current phase, the time left in
/// it, and whether the clock is advancing.
#[derive(Clone, Copy, Debug, PartialEq, Eq, Structural)]
pub struct Snapshot {
    pub phase: Phase,
    pub remaining: TimeSpan,
    pub running: bool,
}

/// The abstract state of a [`TimerEngine`].
pub struct EngineModel {
    pub config: Config,
    pub phase: Phase,
    /// Work phases completed since the count last started over.
    pub sessions: int,
    /// The countdown of the current phase.
    pub clock: TimerModel,
}

impl EngineModel {
    pub open spec fn wf(self) -> bool {
        &&& self.config.is_valid()
        &&& 0 <= self.sessions < self.config.sessions_before_long_break
        &&& self.clock.wf()
        &&& self.clock.length == self.config.duration_spec(self.phase)
        &&& self.clock.paused matches Some(r) ==> r > 0
    }

    /// A fresh engine: work phase, nothing counted, full work duration, not running.
    pub open spec fn initial(config: Config) -> EngineModel {
        EngineModel {
            config,
            phase: Phase::Work,
            sessions: 0,
            clock: TimerModel::stopped(config.duration_spec(Phase::Work)),
        }
    }

    pub open spec fn is_running(self) -> bool {
        self.clock.is_running()
    }

    /// The engine once its running phase has run out by itself: the next phase
    /// starts at the instant the last one ended, or waits at full length when
    /// phases do not continue on their own.
    pub open spec fn advanced(self) -> EngineModel {
        let (p, s) = next_phase_spec(self.phase, self.sessions, self.config);
        let full = self.config.duration_spec(p);
        EngineModel {
            phase: p,
            sessions: s,
            clock: if self.config.auto_continue {
                self.clock.chained(full)
            } else {
                TimerModel::stopped(full)
            },
            ..self
        }
    }

    /// How far past the end of its phase a running engine is at `now`.
    pub open spec fn overdue(self, now: int) -> int {
        if self.clock.has_ended_at(now) {
            now - self.clock.end + 1
        } else {
            0
        }
    }

    /// The engine with every phase boundary crossed by `now` taken.
    pub open spec fn resolved(self, now: int) -> EngineModel
        decreases self.overdue(now),
    {
        if self.config.is_valid() && self.clock.has_ended_at(now) {
            self.advanced().resolved(now)
        } else {
            self
        }
    }

    /// Started, or resumed, at `now`; a running engine is unchanged.
    pub open spec fn started(self, now: int) -> EngineModel {
        EngineModel { clock: self.clock.resumed(now), ..self }
    }

    /// Paused at `now`, after the boundaries crossed by then are taken; a
    /// paused engine is unchanged.
    pub open spec fn paused(self, now: int) -> EngineModel {
        let e = self.resolved(now);
        EngineModel { clock: e.clock.suspended(now), ..e }
    }

    pub open spec fn toggled(self, now: int) -> EngineModel {
        if self.is_running() {
            self.paused(now)
        } else {
            self.started(now)
        }
    }

    /// The current phase ended at `now` by command: the next phase is loaded
    /// at full length, running from `now` if phases continue on their own and
    /// waiting to be started otherwise.
    pub open spec fn skipped(self, now: int) -> EngineModel {
        let (p, s) = next_phase_spec(self.phase, self.sessions, self.config);
        let full = self.config.duration_spec(p);
        EngineModel {
            phase: p,
            sessions: s,
            clock: if self.config.auto_continue {
                TimerModel::started(full, now)
            } else {
                TimerModel::stopped(full)
            },
            ..self
        }
    }

    pub open spec fn snapshot_at(self, now: int) -> Snapshot {
        Snapshot {
            phase: self.phase,
            remaining: TimeSpan { millis: self.clock.remaining_at(now) as i64 },
            running: self.is_running(),
        }
    }
}

/// A pomodoro timer: walks the work / short break / long break cycle against
/// the wall clock. Phase boundaries are taken lazily, whenever the engine is
/// queried or paused.
pub struct TimerEngine {
    config: Config,
    phase: Phase,
    sessions_since_break: u32,
    clock: Timer,
}

impl View for TimerEngine {
    type V = EngineModel;

    closed spec fn view(&self) -> EngineModel {
        EngineModel {
            config: self.config,
            phase: self.phase,
            sessions: self.sessions_since_break as int,
            clock: self.clock@,
        }
    }
}

impl TimerEngine {
    /// An engine at the start of a work phase, not running, or the first
    /// fault of `config`.
    pub fn new(config: Config) -> (r: Result<TimerEngine, ConfigError>)
        ensures
            match r {
                Ok(e) => config.is_valid() && e@ == EngineModel::initial(config) && e@.wf(),
                Err(err) => config.error_spec() == Some(err),
            },
    {
        match config.validate() {
            Err(err) => Err(err),
            Ok(()) => Ok(
                TimerEngine {
                    config,
                    phase: Phase::Work,
                    sessions_since_break: 0,
                    clock: Timer::stopped(config.work_duration),
                },
            ),
        }
    }

    pub fn config(&self) -> (r: Config)
        ensures
            r == self@.config,
    {
        self.config
    }

    pub fn phase(&self) -> (r: Phase)
        ensures
            r == self@.phase,
    {
        self.phase
    }

    pub fn sessions_since_break(&self) -> (r: u32)
        ensures
            r == self@.sessions,
    {
        self.sessions_since_break
    }

    pub fn is_running(&self) -> (r: bool)
        ensures
            r == self@.is_running(),
    {
        !self.clock.is_paused()
    }

    fn advance(&mut self)
        requires
            old(self)@.wf(),
            old(self)@.is_running(),
            old(self)@.clock.end <= i64::MAX,
        ensures
            final(self)@ == old(self)@.advanced(),
            final(self)@.wf(),
    {
        let (p, s) = next_phase(self.phase, self.sessions_since_break, &self.config);
        let full = self.config.duration_of(p);
        if self.config.auto_continue {
            self.clock.chain(full);
        } else {
            self.clock = Timer::stopped(full);
        }
        self.phase = p;
        self.sessions_since_break = s;
    }

    fn snapshot_at(&self, now: i64) -> (r: Snapshot)
        requires
            self@.wf(),
        ensures
            r == self@.snapshot_at(now as int),
    {
        Snapshot {
            phase: self.phase,
            remaining: self.clock.remaining_at(now),
            running: !self.clock.is_paused(),
        }
    }

    /// Takes every phase boundary crossed by instant `now`, then reports the
    /// current phase, the time left in it and whether the clock runs.
    pub fn query_at(&mut self, now: i64) -> (r: Snapshot)
        requires
            old(self)@.wf(),
        ensures
            final(self)@ == old(self)@.resolved(now as int),
            final(self)@.wf(),
            !final(self)@.clock.has_ended_at(now as int),
            r == final(self)@.snapshot_at(now as int),
            0 <= r.remaining.millis <= final(self)@.config.duration_spec(r.phase),
    {
        let ghost target = self@.resolved(now as int);
        while self.clock.has_ended_at(now)
            invariant
                self@.wf(),
                self@.resolved(now as int) == target,
            decreases self@.overdue(now as int),
        {
            self.advance();
        }
        self.snapshot_at(now)
    }

    /// Starts, or resumes, the clock at instant `now`; does nothing while running.
    pub fn start_at(&mut self, now: i64)
        requires
            old(self)@.wf(),
        ensures
            final(self)@ == old(self)@.started(now as int),
            final(self)@.wf(),
    {
        self.clock.resume_at(now);
    }

    /// Pauses the clock at instant `now`, keeping the time left in the phase
    /// reached by then; does nothing while paused.
    pub fn pause_at(&mut self, now: i64)
        requires
            old(self)@.wf(),
        ensures
            final(self)@ == old(self)@.paused(now as int),
            final(self)@.wf(),
    {
        self.query_at(now);
        self.clock.suspend_at(now);
    }

    /// Pauses a running engine, or resumes a paused one, at instant `now`.
    pub fn toggle_pause_at(&mut self, now: i64)
        requires
            old(self)@.wf(),
        ensures
            final(self)@ == old(self)@.toggled(now as int),
            final(self)@.wf(),
    {
        if self.clock.is_paused() {
            self.start_at(now);
        } else {
            self.pause_at(now);
        }
    }

    /// Ends the current phase at instant `now`, whatever time was left, and
    /// loads the next one at full length: running from `now` if phases
    /// continue on their own, stopped otherwise.
    pub fn skip_current_phase_at(&mut self, now: i64)
        requires
            old(self)@.wf(),
        ensures
            final(self)@ == old(self)@.skipped(now as int),
            final(self)@.wf(),
            (final(self)@.phase, final(self)@.sessions) == next_phase_spec(
                old(self)@.phase,
                old(self)@.sessions,
                old(self)@.config,
            ),
            final(self)@.clock.remaining_at(now as int) == final(self)@.config.duration_spec(
                final(self)@.phase,
            ),
    {
        let (p, s) = next_phase(self.phase, self.sessions_since_break, &self.config);
        let full = self.config.duration_of(p);
        if self.config.auto_continue {
            self.clock = Timer::start_at(full, now);
        } else {
            self.clock = Timer::stopped(full);
        }
        self.phase = p;
        self.sessions_since_break = s;
    }

    /// Starts, or resumes, the clock now; does nothing while running.
    pub fn start(&mut self)
        requires
            old(self)@.wf(),
        ensures
            exists|t: i64| final(self)@ == old(self)@.started(t as int),
            final(self)@.wf(),
    {
        let now = now_millis();
        self.start_at(now);
    }

    /// Pauses the clock now; does nothing while paused.
    pub fn pause(&mut self)
        requires
            old(self)@.wf(),
        ensures
            exists|t: i64| final(self)@ == old(self)@.paused(t as int),
            final(self)@.wf(),
    {
        let now = now_millis();
        self.pause_at(now);
    }

    /// Pauses a running engine, or resumes a paused one, now.
    pub fn toggle_pause(&mut self)
        requires
            old(self)@.wf(),
        ensures
            exists|t: i64| final(self)@ == old(self)@.toggled(t as int),
            final(self)@.wf(),
    {
        let now = now_millis();
        self.toggle_pause_at(now);
    }

    /// Ends the current phase now and loads the next one at full length,
    /// running if phases continue on their own.
    pub fn skip_current_phase(&mut self)
        requires
            old(self)@.wf(),
        ensures
            exists|t: i64| final(self)@ == old(self)@.skipped(t as int),
            final(self)@.wf(),
            (final(self)@.phase, final(self)@.sessions) == next_phase_spec(
                old(self)@.phase,
                old(self)@.sessions,
                old(self)@.config,
            ),
    {
        let now = now_millis();
        self.skip_current_phase_at(now);
    }

    /// Takes every phase boundary crossed by now and reports the state.
    pub fn query(&mut self) -> (r: Snapshot)
        requires
            old(self)@.wf(),
        ensures
            exists|t: i64|
                final(self)@ == old(self)@.resolved(t as int) && r == final(self)@.snapshot_at(
                    t as int,
                ),
            final(self)@.wf(),
            r.phase == final(self)@.phase,
            0 <= r.remaining.millis <= final(self)@.config.duration_spec(r.phase),
    {
        let now = now_millis();
        self.query_at(now)
    }
}

/// A command a host can give the engine, for stating what holds over any
/// series of them.
pub enum Command {
    Start,
    Pause,
    TogglePause,
    Skip,
    Query,
}

impl EngineModel {
    /// The engine after `cmd` is given at instant `now`.
    pub open spec fn applied(self, cmd: Command, now: int) -> EngineModel {
        match cmd {
            Command::Start => self.started(now),
            Command::Pause => self.paused(now),
            Command::TogglePause => self.toggled(now),
            Command::Skip => self.skipped(now),
            Command::Query => self.resolved(now),
        }
    }

    /// The engine after each command is given in turn, at its instant.
    pub open spec fn run(self, cmds: Seq<(Command, i64)>) -> EngineModel
        decreases cmds.len(),
    {
        if cmds.len() == 0 {
            self
        } else {
            self.applied(cmds[0].0, cmds[0].1 as int).run(cmds.drop_first())
        }
    }
}

proof fn lemma_advanced_wf(e: EngineModel)
    requires
        e.wf(),
        e.is_running(),
        e.clock.end <= i64::MAX,
    ensures
        e.advanced().wf(),
{
}

/// Taking the boundaries crossed by `now` keeps the engine well formed and
/// leaves it either paused or with its phase still running at `now`; a paused
/// engine has no boundary to take.
pub proof fn lemma_resolved(e: EngineModel, now: i64)
    requires
        e.wf(),
    ensures
        e.resolved(now as int).wf(),
        !e.resolved(now as int).clock.has_ended_at(now as int),
        !e.is_running() ==> e.resolved(now as int) == e,
        e.resolved(now as int).config == e.config,
    decreases e.overdue(now as int),
{
    if e.clock.has_ended_at(now as int) {
        lemma_advanced_wf(e);
        lemma_resolved(e.advanced(), now);
    }
}

/// Every command keeps a well-formed engine well formed.
pub proof fn lemma_applied_wf(e: EngineModel, cmd: Command, now: i64)
    requires
        e.wf(),
    ensures
        e.applied(cmd, now as int).wf(),
{
    lemma_resolved(e, now);
}

/// Whatever commands are given, at whatever instants, the time left that a
/// query reports is never negative and never more than the full duration of
/// the phase it reports.
pub proof fn lemma_remaining_in_range(e: EngineModel, cmds: Seq<(Command, i64)>, now: i64)
    requires
        e.wf(),
    ensures
        e.run(cmds).wf(),
        0 <= e.run(cmds).resolved(now as int).snapshot_at(now as int).remaining.millis
            <= e.config.duration_spec(e.run(cmds).resolved(now as int).phase),
    decreases cmds.len(),
{
    if cmds.len() > 0 {
        lemma_applied_wf(e, cmds[0].0, cmds[0].1);
        lemma_remaining_in_range(e.applied(cmds[0].0, cmds[0].1 as int), cmds.drop_first(), now);
    }
    lemma_resolved(e.run(cmds), now);
    lemma_run_keeps_config(e, cmds);
}

proof fn lemma_run_keeps_config(e: EngineModel, cmds: Seq<(Command, i64)>)
    requires
        e.wf(),
    ensures
        e.run(cmds).config == e.config,
    decreases cmds.len(),
{
    if cmds.len() > 0 {
        lemma_applied_wf(e, cmds[0].0, cmds[0].1);
        lemma_resolved(e, cmds[0].1);
        lemma_run_keeps_config(e.applied(cmds[0].0, cmds[0].1 as int), cmds.drop_first());
    }
}

/// Pausing and resuming at the same instant leaves the phase and the time
/// left that a query reports unchanged, and the engine running.
pub proof fn lemma_pause_resume_round_trip(e: EngineModel, now: i64)
    requires
        e.wf(),
    ensures
        e.paused(now as int).started(now as int).resolved(now as int).snapshot_at(now as int).phase
            == e.resolved(now as int).snapshot_at(now as int).phase,
        e.paused(now as int).started(now as int).resolved(now as int).snapshot_at(
            now as int,
        ).remaining == e.resolved(now as int).snapshot_at(now as int).remaining,
        e.paused(now as int).started(now as int).resolved(now as int).is_running(),
{
    lemma_resolved(e, now);
    lemma_applied_wf(e, Command::Pause, now);
    let back = e.paused(now as int).started(now as int);
    assert(!back.clock.has_ended_at(now as int));
    assert(back.resolved(now as int) == back);
}

/// Pausing twice in a row is the same as pausing once.
pub proof fn lemma_pause_idempotent(e: EngineModel, first: i64, second: i64)
    requires
        e.wf(),
    ensures
        e.paused(first as int).paused(second as int) == e.paused(first as int),
{
    let p = e.paused(first as int);
    assert(p.resolved(second as int) == p);
}

/// Starting twice in a row is the same as starting once.
pub proof fn lemma_start_idempotent(e: EngineModel, first: i64, second: i64)
    requires
        e.wf(),
    ensures
        e.started(first as int).started(second as int) == e.started(first as int),
{
}

/// Skipping moves to the phase and session count that the cycle dictates and
/// loads that phase at its full duration, however much time was left.
pub proof fn lemma_skip_loads_next_phase(e: EngineModel, now: i64)
    requires
        e.wf(),
    ensures
        (e.skipped(now as int).phase, e.skipped(now as int).sessions) == next_phase_spec(
            e.phase,
            e.sessions,
            e.config,
        ),
        e.skipped(now as int).snapshot_at(now as int).remaining.millis == e.config.duration_spec(
            e.skipped(now as int).phase,
        ),
        e.skipped(now as int).wf(),
{
}

/// A phase that runs out by itself is followed by the next step of the cycle:
/// an engine at step `k` of the cycle from a fresh start moves to step `k + 1`.
pub proof fn lemma_advance_follows_cycle(e: EngineModel, k: nat)
    requires
        e.wf(),
        (e.phase, e.sessions) == phase_after(e.config, k),
    ensures
        (e.advanced().phase, e.advanced().sessions) == phase_after(e.config, k + 1),
{
}

} // verus!

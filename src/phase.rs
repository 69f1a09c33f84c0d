use vstd::arithmetic::div_mod::{lemma_add_mod_noop, lemma_mod_bound, lemma_mod_self_0, lemma_small_mod};
use vstd::prelude::*;

use crate::span::TimeSpan;

verus! {

/// The activity a timer currently stands for.
#[derive(Clone, Copy, Debug, PartialEq, Eq, Structural)]
pub enum Phase {
    Work,
    ShortBreak,
    LongBreak,
}

/// The fixed settings of a timer.
#[derive(Clone, Copy, Debug, PartialEq, Eq, Structural)]
pub struct Config {
    pub work_duration: TimeSpan,
    pub short_break_duration: TimeSpan,
    pub long_break_duration: TimeSpan,
    /// How many completed work phases earn a long break.
    pub sessions_before_long_break: u32,
    /// Without long breaks every work phase is followed by a short break.
    pub has_long_break: bool,
    /// When false, the timer stops at the start of each new phase.
    pub auto_continue: bool,
}

/// Why a configuration was refused.
#[derive(Clone, Copy, Debug, PartialEq, Eq, Structural)]
pub enum ConfigError {
    /// The duration configured for this phase is zero or negative.
    NonPositiveDuration(Phase),
    /// `sessions_before_long_break` is zero.
    ZeroSessionsBeforeLongBreak,
}

impl Config {
    /// The full length, in milliseconds, of phase `p`.
    pub open spec fn duration_spec(self, p: Phase) -> int {
        match p {
            Phase::Work => self.work_duration.millis as int,
            Phase::ShortBreak => self.short_break_duration.millis as int,
            Phase::LongBreak => self.long_break_duration.millis as int,
        }
    }

    /// The first fault of the configuration, checked in field order.
    pub open spec fn error_spec(self) -> Option<ConfigError> {
        if self.work_duration.millis <= 0 {
            Some(ConfigError::NonPositiveDuration(Phase::Work))
        } else if self.short_break_duration.millis <= 0 {
            Some(ConfigError::NonPositiveDuration(Phase::ShortBreak))
        } else if self.long_break_duration.millis <= 0 {
            Some(ConfigError::NonPositiveDuration(Phase::LongBreak))
        } else if self.sessions_before_long_break == 0 {
            Some(ConfigError::ZeroSessionsBeforeLongBreak)
        } else {
            None
        }
    }

    /// Every duration is positive and the session threshold is at least one.
    pub open spec fn is_valid(self) -> bool {
        self.error_spec() is None
    }

    /// The full length of phase `p`.
    pub fn duration_of(&self, p: Phase) -> (r: TimeSpan)
        ensures
            r.millis == self.duration_spec(p),
    {
        match p {
            Phase::Work => self.work_duration,
            Phase::ShortBreak => self.short_break_duration,
            Phase::LongBreak => self.long_break_duration,
        }
    }

    /// Checks the configuration, reporting its first fault.
    pub fn validate(&self) -> (r: Result<(), ConfigError>)
        ensures
            r is Ok <==> self.is_valid(),
            r matches Err(e) ==> self.error_spec() == Some(e),
    {
        if self.work_duration.millis <= 0 {
            Err(ConfigError::NonPositiveDuration(Phase::Work))
        } else if self.short_break_duration.millis <= 0 {
            Err(ConfigError::NonPositiveDuration(Phase::ShortBreak))
        } else if self.long_break_duration.millis <= 0 {
            Err(ConfigError::NonPositiveDuration(Phase::LongBreak))
        } else if self.sessions_before_long_break == 0 {
            Err(ConfigError::ZeroSessionsBeforeLongBreak)
        } else {
            Ok(())
        }
    }
}

/// The phase that follows `current`, and the session count that goes with it.
///
/// Completing a work phase counts one session. When the count reaches the
/// threshold it starts again from zero, and that work phase is followed by a
/// long break if long breaks are enabled. A long break also clears the count.
pub open spec fn next_phase_spec(current: Phase, sessions: int, config: Config) -> (Phase, int) {
    match current {
        Phase::Work => {
            let done = sessions + 1;
            if done == config.sessions_before_long_break {
                if config.has_long_break {
                    (Phase::LongBreak, 0)
                } else {
                    (Phase::ShortBreak, 0)
                }
            } else {
                (Phase::ShortBreak, done)
            }
        },
        Phase::ShortBreak => (Phase::Work, sessions),
        Phase::LongBreak => (Phase::Work, 0),
    }
}

/// Decides the phase after `current` and the new count of completed work
/// phases since the last long break.
pub fn next_phase(current: Phase, sessions_since_break: u32, config: &Config) -> (r: (Phase, u32))
    requires
        sessions_since_break < config.sessions_before_long_break,
    ensures
        (r.0, r.1 as int) == next_phase_spec(current, sessions_since_break as int, *config),
        r.1 < config.sessions_before_long_break,
{
    match current {
        Phase::Work => {
            let done: u32 = sessions_since_break + 1;
            if done == config.sessions_before_long_break {
                if config.has_long_break {
                    (Phase::LongBreak, 0)
                } else {
                    (Phase::ShortBreak, 0)
                }
            } else {
                (Phase::ShortBreak, done)
            }
        },
        Phase::ShortBreak => (Phase::Work, sessions_since_break),
        Phase::LongBreak => (Phase::Work, 0),
    }
}

/// The phase and session count once `k` phases have been completed,
/// starting from a fresh work phase with no sessions counted.
pub open spec fn phase_after(config: Config, k: nat) -> (Phase, int)
    decreases k,
{
    if k == 0 {
        (Phase::Work, 0)
    } else {
        let prev = phase_after(config, (k - 1) as nat);
        next_phase_spec(prev.0, prev.1, config)
    }
}

/// Position `k` of the repeating cycle built on `n` work phases: work and
/// short breaks alternate, except that the `n`-th work phase of each round
/// is followed by a long break. A round holds `2 * n` phases.
pub open spec fn cycle_position(n: int, k: nat) -> (Phase, int) {
    let j = k as int % (2 * n);
    if j % 2 == 0 {
        (Phase::Work, j / 2)
    } else if j == 2 * n - 1 {
        (Phase::LongBreak, 0)
    } else {
        (Phase::ShortBreak, (j + 1) / 2)
    }
}

proof fn lemma_mod_step(i: int, m: int)
    requires
        0 <= i,
        1 < m,
    ensures
        (i + 1) % m == if i % m == m - 1 {
            0
        } else {
            i % m + 1
        },
{
    lemma_add_mod_noop(i, 1, m);
    lemma_small_mod(1, m as nat);
    lemma_mod_bound(i, m);
    if i % m == m - 1 {
        lemma_mod_self_0(m);
    } else {
        lemma_small_mod((i % m + 1) as nat, m as nat);
    }
}

/// With long breaks enabled and a threshold of `n` sessions, letting phases
/// run out one after another from a fresh start gives
/// work, short break, work, ..., work, long break, and again from the top:
/// exactly one long break for every `n` completed work phases.
pub proof fn lemma_phase_sequence(config: Config, k: nat)
    requires
        config.sessions_before_long_break >= 1,
        config.has_long_break,
    ensures
        phase_after(config, k) == cycle_position(config.sessions_before_long_break as int, k),
    decreases k,
{
    if k > 0 {
        let n = config.sessions_before_long_break as int;
        lemma_phase_sequence(config, (k - 1) as nat);
        lemma_mod_step(k - 1, 2 * n);
        lemma_mod_bound(k - 1, 2 * n);
    }
}

/// Without long breaks, no step of the cycle enters a long break, whatever
/// the phase and the session count.
pub proof fn lemma_no_long_break(config: Config, current: Phase, sessions: int)
    requires
        !config.has_long_break,
    ensures
        next_phase_spec(current, sessions, config).0 != Phase::LongBreak,
{
}

/// Without long breaks, a long break never occurs in the cycle from a fresh start.
pub proof fn lemma_no_long_break_in_sequence(config: Config, k: nat)
    requires
        !config.has_long_break,
    ensures
        phase_after(config, k).0 != Phase::LongBreak,
{
    if k > 0 {
        let prev = phase_after(config, (k - 1) as nat);
        lemma_no_long_break(config, prev.0, prev.1);
    }
}

/// With a threshold of one session and long breaks enabled, every work phase
/// is followed by a long break and a short break never occurs.
pub proof fn lemma_single_session_cycle(config: Config, k: nat)
    requires
        config.sessions_before_long_break == 1,
        config.has_long_break,
    ensures
        phase_after(config, k).0 != Phase::ShortBreak,
        phase_after(config, k).0 == Phase::Work ==> phase_after(config, k + 1).0
            == Phase::LongBreak,
{
    lemma_phase_sequence(config, k);
    lemma_mod_bound(k as int, 2);
}

} // verus!

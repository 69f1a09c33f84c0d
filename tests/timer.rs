use std::mem;

use trata::{TimeSpan, Timer, TimerState};

#[test]
fn get_timer_state_start_timer_assert_running() {
    let timer = Timer::start_from_duration(TimeSpan::seconds(2));
    let result = timer.get_timer_state();
    assert_eq!(
        mem::discriminant(&TimerState::Running {
            remaining_duration: TimeSpan::seconds(2)
        }),
        mem::discriminant(&result),
        "The timer state did not default to running"
    );
}

#[test]
fn get_timer_state_pause_timer_assert_paused() {
    let mut timer = Timer::start_from_duration(TimeSpan::seconds(2));
    timer.pause();
    let result = timer.get_timer_state();
    assert_eq!(
        mem::discriminant(&TimerState::Paused {
            remaining_duration: TimeSpan::seconds(2)
        }),
        mem::discriminant(&result),
        "The timer was paused but did not return the paused state"
    );
}

#[test]
fn get_timer_state_pause_timer_assert_not_running() {
    let mut timer = Timer::start_from_duration(TimeSpan::seconds(2));
    timer.pause();
    let result = timer.get_timer_state();
    assert_ne!(
        mem::discriminant(&TimerState::Running {
            remaining_duration: TimeSpan::seconds(2)
        }),
        mem::discriminant(&result),
        "The timer was running after being paused"
    );
}

#[test]
fn started_timer_counts_down_from_its_length() {
    let timer = Timer::start_from_duration(TimeSpan::seconds(2));
    match timer.get_timer_state() {
        TimerState::Running { remaining_duration } => {
            assert!(remaining_duration.millis > 0);
            assert!(remaining_duration.millis <= 2_000);
        }
        other => panic!("unexpected state {:?}", other),
    }
}

#[test]
fn timer_state_at_given_instants() {
    let timer = Timer::start_at(TimeSpan::seconds(2), 10_000);
    assert_eq!(
        timer.state_at(10_000),
        TimerState::Running { remaining_duration: TimeSpan::milliseconds(2_000) }
    );
    assert_eq!(
        timer.state_at(11_500),
        TimerState::Running { remaining_duration: TimeSpan::milliseconds(500) }
    );
    assert_eq!(
        timer.state_at(12_000),
        TimerState::Running { remaining_duration: TimeSpan::milliseconds(0) }
    );
    assert_eq!(timer.state_at(12_001), TimerState::Complete);
}

#[test]
fn timer_remaining_never_exceeds_length_when_clock_goes_back() {
    let timer = Timer::start_at(TimeSpan::seconds(2), 10_000);
    assert_eq!(timer.remaining_at(5_000), TimeSpan::seconds(2));
    assert_eq!(
        timer.state_at(5_000),
        TimerState::Running { remaining_duration: TimeSpan::seconds(2) }
    );
}

#[test]
fn timer_toggle_keeps_time_left_across_a_pause() {
    let mut timer = Timer::start_at(TimeSpan::seconds(10), 0);
    timer.toggle_at(4_000);
    assert!(timer.is_paused());
    assert_eq!(
        timer.state_at(9_000),
        TimerState::Paused { remaining_duration: TimeSpan::seconds(6) }
    );
    timer.toggle_at(20_000);
    assert!(!timer.is_paused());
    assert_eq!(
        timer.state_at(21_000),
        TimerState::Running { remaining_duration: TimeSpan::seconds(5) }
    );
    assert_eq!(timer.state_at(26_001), TimerState::Complete);
}

#[test]
fn timer_end_early_completes_a_running_timer() {
    let mut timer = Timer::start_at(TimeSpan::seconds(10), 0);
    timer.end_early_at(3_000);
    assert_eq!(timer.remaining_at(3_000), TimeSpan::milliseconds(0));
    assert_eq!(timer.state_at(3_001), TimerState::Complete);
}

#[test]
fn timer_end_early_empties_a_paused_timer() {
    let mut timer = Timer::start_at(TimeSpan::seconds(10), 0);
    timer.suspend_at(3_000);
    timer.end_early_at(5_000);
    assert_eq!(
        timer.state_at(6_000),
        TimerState::Paused { remaining_duration: TimeSpan::milliseconds(0) }
    );
}

#[test]
fn stopped_timer_waits_with_full_length() {
    let mut timer = Timer::stopped(TimeSpan::seconds(3));
    assert!(timer.is_paused());
    assert_eq!(timer.length(), TimeSpan::seconds(3));
    assert_eq!(timer.remaining_at(1_000_000), TimeSpan::seconds(3));
    timer.resume_at(100);
    assert_eq!(timer.remaining_at(1_100), TimeSpan::seconds(2));
    timer.resume_at(500);
    assert_eq!(timer.remaining_at(1_100), TimeSpan::seconds(2));
}

#[test]
fn negative_length_timer_has_nothing_left() {
    let timer = Timer::start_at(TimeSpan::seconds(-2), 0);
    assert_eq!(timer.remaining_at(-5_000), TimeSpan::milliseconds(0));
    assert_eq!(timer.state_at(1), TimerState::Complete);
}

#[test]
fn end_early_now_completes_the_timer() {
    let mut timer = Timer::start_from_duration(TimeSpan::seconds(60));
    timer.end_early();
    match timer.get_timer_state() {
        TimerState::Complete => {}
        TimerState::Running { remaining_duration } => assert_eq!(remaining_duration.millis, 0),
        other => panic!("unexpected state {:?}", other),
    }
}

#[test]
fn span_constructors() {
    assert_eq!(TimeSpan::seconds(2).num_milliseconds(), 2_000);
    assert_eq!(TimeSpan::seconds(-3).millis, -3_000);
    assert_eq!(TimeSpan::milliseconds(7).millis, 7);
}

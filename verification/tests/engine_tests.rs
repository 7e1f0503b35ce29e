use cue_timer::engine::Phase;
use cue_timer::engine::TimerEngine;
use cue_timer::TimerError;

#[test]
fn new_engine_is_idle() {
    let e = TimerEngine::new(60_000);
    assert_eq!(*e.phase_ref(), Phase::Idle);
    assert_eq!(e.countdown_ms_value(), 60_000);
    assert!(!e.wants_ticks());
}

#[test]
fn idle_displays_zero() {
    let mut e = TimerEngine::new(60_000);
    assert_eq!(e.advance(1_000).unwrap(), 0);
    assert_eq!(*e.phase_ref(), Phase::Idle);
}

#[test]
fn countdown_display_formula() {
    let mut e = TimerEngine::new(60_000);
    e.start_or_restart(0);
    assert_eq!(e.advance(12_345).unwrap(), 47_655);
    assert_eq!(*e.phase_ref(), Phase::CountingDown { anchor: 0 });
}

#[test]
fn countdown_zero_crossing() {
    let mut e = TimerEngine::new(60_000);
    e.start_or_restart(0);
    assert_eq!(e.advance(59_999).unwrap(), 1);
    assert!(matches!(*e.phase_ref(), Phase::CountingDown { .. }));
    assert_eq!(e.advance(60_001).unwrap(), 0);
    assert_eq!(*e.phase_ref(), Phase::Running { base: 0, last_start: 60_001 });
}

#[test]
fn advance_idempotent_at_crossing() {
    let mut e = TimerEngine::new(60_000);
    e.start_or_restart(0);
    let d1 = e.advance(60_001).unwrap();
    let d2 = e.advance(60_001).unwrap();
    assert_eq!(d1, d2);
    assert_eq!(*e.phase_ref(), Phase::Running { base: 0, last_start: 60_001 });
}

#[test]
fn pause_preserves_elapsed() {
    let mut e = TimerEngine::new(60_000);
    e.start_or_restart(0);
    e.advance(60_000).unwrap();
    assert_eq!(e.advance(70_000).unwrap(), 10_000);
    assert_eq!(e.pause_or_resume(70_000), Some(10_000));
    assert_eq!(e.pause_or_resume(70_000), Some(10_000));
    assert_eq!(e.pause_or_resume(75_000), Some(15_000));
    assert_eq!(e.advance(80_000).unwrap(), 15_000);
    assert_eq!(e.advance(999_999).unwrap(), 15_000);
    assert_eq!(e.pause_or_resume(1_000_000), Some(15_000));
    assert_eq!(e.advance(1_003_000).unwrap(), 18_000);
}

#[test]
fn pause_resume_is_noop_elsewhere() {
    let mut e = TimerEngine::new(60_000);
    assert_eq!(e.pause_or_resume(5), None);
    assert_eq!(*e.phase_ref(), Phase::Idle);
    e.start_or_restart(10);
    assert_eq!(e.pause_or_resume(20), None);
    assert_eq!(*e.phase_ref(), Phase::CountingDown { anchor: 10 });
}

#[test]
fn backwards_tick_is_recoverable() {
    let mut e = TimerEngine::new(60_000);
    e.start_or_restart(1_000);
    assert_eq!(e.advance(500), Err(TimerError::ClockViolation));
    assert_eq!(*e.phase_ref(), Phase::CountingDown { anchor: 1_000 });
    assert_eq!(e.advance(1_500).unwrap(), 59_500);
}

#[test]
fn restart_from_any_phase() {
    let mut e = TimerEngine::new(60_000);
    e.start_or_restart(0);
    e.advance(60_000).unwrap();
    e.pause_or_resume(65_000);
    e.start_or_restart(70_000);
    assert_eq!(*e.phase_ref(), Phase::CountingDown { anchor: 70_000 });
    assert_eq!(e.advance(70_001).unwrap(), 59_999);
}

#[test]
fn wants_ticks_by_phase() {
    let mut e = TimerEngine::new(60_000);
    assert!(!e.wants_ticks());
    e.start_or_restart(0);
    assert!(e.wants_ticks());
    e.advance(60_000).unwrap();
    assert!(e.wants_ticks());
    e.pause_or_resume(61_000);
    assert!(!e.wants_ticks());
}

#[test]
fn command_kind_independent_of_clock() {
    let mut a = TimerEngine::new(60_000);
    let mut b = TimerEngine::new(60_000);
    a.start_or_restart(3);
    b.start_or_restart(4_000);
    a.pause_or_resume(7);
    b.pause_or_resume(9_000);
    a.start_or_restart(11);
    b.start_or_restart(77_000);
    assert!(matches!(*a.phase_ref(), Phase::CountingDown { .. }));
    assert!(matches!(*b.phase_ref(), Phase::CountingDown { .. }));
}

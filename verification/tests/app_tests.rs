use cue_timer::engine::Phase;
use cue_timer::timer_app::TimerApp;
use cue_timer::TimerError;

#[test]
fn full_cycle_fires_each_cue_once() {
    let mut a = TimerApp::new(60_000);
    a.load_config("audio:\n  4: \"horn.mp3\"\n  10: \"bell.mp3\"\n").unwrap();
    a.start_restart(0);
    assert_eq!(a.displayed_ms(), 60_000);
    assert_eq!(a.tick(59_990).unwrap(), None);
    assert_eq!(a.tick(60_000).unwrap(), None);
    assert_eq!(*a.phase_ref(), Phase::Running { base: 0, last_start: 60_000 });
    assert_eq!(a.tick(63_991).unwrap(), None);
    assert_eq!(a.tick(64_002).unwrap(), Some(String::from("horn.mp3")));
    assert_eq!(a.tick(64_500).unwrap(), None);
    assert_eq!(a.tick(69_998).unwrap(), None);
    assert_eq!(a.tick(70_010).unwrap(), Some(String::from("bell.mp3")));
    assert_eq!(a.tick(71_000).unwrap(), None);
}

#[test]
fn restart_refires_cue() {
    let mut a = TimerApp::new(60_000);
    a.load_config("audio:\n  4: \"horn.mp3\"\n").unwrap();
    a.start_restart(0);
    a.tick(60_000).unwrap();
    assert_eq!(a.tick(64_050).unwrap(), Some(String::from("horn.mp3")));
    assert_eq!(a.tick(64_500).unwrap(), None);
    a.start_restart(70_000);
    assert_eq!(a.tick(130_000).unwrap(), None);
    assert_eq!(a.tick(134_100).unwrap(), Some(String::from("horn.mp3")));
}

#[test]
fn failed_load_keeps_prior_map() {
    let mut a = TimerApp::new(60_000);
    a.load_config("audio:\n  2: \"beep.mp3\"\n").unwrap();
    let e = a.load_config("audio: [not, a, map");
    assert_eq!(e, Err(TimerError::ConfigParseError));
    a.start_restart(0);
    a.tick(60_000).unwrap();
    assert_eq!(a.tick(62_100).unwrap(), Some(String::from("beep.mp3")));
}

#[test]
fn load_without_audio_table_fails() {
    let mut a = TimerApp::new(60_000);
    assert_eq!(a.load_config("sound: {}\n"), Err(TimerError::ConfigParseError));
    assert_eq!(a.load_config(""), Err(TimerError::ConfigParseError));
}

#[test]
fn no_cue_during_countdown() {
    let mut a = TimerApp::new(60_000);
    a.load_config("audio:\n  30: \"mid.mp3\"\n").unwrap();
    a.start_restart(0);
    assert_eq!(a.tick(30_000).unwrap(), None);
    assert_eq!(a.displayed_ms(), 30_000);
    assert!(matches!(*a.phase_ref(), Phase::CountingDown { .. }));
}

#[test]
fn pause_freezes_display_and_triggers() {
    let mut a = TimerApp::new(60_000);
    a.load_config("audio:\n  5: \"five.mp3\"\n").unwrap();
    a.start_restart(0);
    a.tick(60_000).unwrap();
    a.tick(62_000).unwrap();
    a.pause_resume(63_000);
    assert_eq!(a.displayed_ms(), 3_000);
    assert_eq!(a.tick(90_000).unwrap(), None);
    assert_eq!(a.displayed_ms(), 3_000);
    a.pause_resume(100_000);
    assert_eq!(a.tick(102_100).unwrap(), Some(String::from("five.mp3")));
    assert_eq!(a.displayed_ms(), 5_100);
}

#[test]
fn backwards_tick_reports_and_changes_nothing() {
    let mut a = TimerApp::new(60_000);
    a.start_restart(1_000);
    assert_eq!(a.tick(500), Err(TimerError::ClockViolation));
    assert_eq!(a.displayed_ms(), 60_000);
    assert_eq!(a.tick(1_500).unwrap(), None);
    assert_eq!(a.displayed_ms(), 59_500);
}

#[test]
fn check_audio_triggers_fires_once() {
    let mut a = TimerApp::new(60_000);
    a.load_config("audio:\n  0: \"go.mp3\"\n").unwrap();
    assert_eq!(a.check_audio_triggers(), Some(String::from("go.mp3")));
    assert_eq!(a.check_audio_triggers(), None);
}

#[test]
fn app_wants_ticks_by_phase() {
    let mut a = TimerApp::new(60_000);
    assert!(!a.wants_ticks());
    a.start_restart(0);
    assert!(a.wants_ticks());
    a.tick(60_000).unwrap();
    assert!(a.wants_ticks());
    a.pause_resume(61_000);
    assert!(!a.wants_ticks());
}

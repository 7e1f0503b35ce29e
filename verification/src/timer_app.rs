//! The single owner of the timer core: one state machine, one trigger
//! scheduler, and the currently displayed duration, driven by user commands
//! and clock ticks and answering with the cues that are due.

use vstd::prelude::*;
use crate::TimerError;
use crate::config::parse_audio_entries;
use crate::config::yaml_audio_map;
use crate::engine::Phase;
use crate::engine::TimerEngine;
use crate::engine::spec_displayed;
use crate::engine::spec_pause_resume;
use crate::engine::spec_start;
use crate::engine::spec_tick;
use crate::scheduler::TriggerScheduler;
use crate::scheduler::spec_fires;

verus! {

/// The application-state value that owns the whole timer core. All times
/// are milliseconds; clock readings must be handed in monotonically.
pub struct TimerApp {
    engine: TimerEngine,
    scheduler: TriggerScheduler,
    current_display: u64,
}

impl TimerApp {
    /// The timer state machine.
    pub closed spec fn engine(&self) -> TimerEngine {
        self.engine
    }

    /// The trigger scheduler.
    pub closed spec fn scheduler(&self) -> TriggerScheduler {
        self.scheduler
    }

    /// The displayed duration, in milliseconds, as of the last operation
    /// that recomputed it.
    pub closed spec fn current_display(&self) -> u64 {
        self.current_display
    }

    /// Both components are well formed.
    pub open spec fn wf(&self) -> bool {
        self.engine().wf() && self.scheduler().wf()
    }

    /// A fresh owner: idle engine with the given countdown length, empty
    /// trigger map, nothing fired, zero on display.
    pub fn new(countdown_ms: u64) -> (a: TimerApp)
        ensures
            a.wf(),
            a.engine().phase() == Phase::Idle,
            a.engine().countdown_ms() == countdown_ms,
            a.engine().last_now() == 0,
            a.scheduler().map_view() == Map::<u64, Seq<char>>::empty(),
            a.scheduler().fired_view() == Set::<u64>::empty(),
            a.current_display() == 0,
    {
        TimerApp {
            engine: TimerEngine::new(countdown_ms),
            scheduler: TriggerScheduler::new(),
            current_display: 0,
        }
    }

    /// Starts or restarts the timer: whatever the prior phase, a fresh
    /// countdown is anchored at `now`, the fired history is cleared so
    /// every cue may fire again, the active trigger map is kept, and the
    /// display shows the full countdown.
    pub fn start_restart(&mut self, now: u64)
        requires
            old(self).wf(),
            now >= old(self).engine().last_now(),
        ensures
            final(self).wf(),
            final(self).engine().phase() == spec_start(now),
            final(self).engine().countdown_ms() == old(self).engine().countdown_ms(),
            final(self).engine().last_now() == now,
            final(self).scheduler().map_view() == old(self).scheduler().map_view(),
            final(self).scheduler().fired_view() == Set::<u64>::empty(),
            final(self).current_display() == old(self).engine().countdown_ms(),
    {
        self.engine.start_or_restart(now);
        self.scheduler.reset();
        self.current_display = self.engine.countdown_ms_value();
    }

    /// Pauses a running timer or resumes a paused one; in any other phase
    /// nothing changes but the engine's clock bookkeeping. On a real
    /// transition the display is set to the frozen elapsed value, which a
    /// resume leaves in place.
    pub fn pause_resume(&mut self, now: u64)
        requires
            old(self).wf(),
            now >= old(self).engine().last_now(),
        ensures
            final(self).wf(),
            final(self).engine().phase() == spec_pause_resume(old(self).engine().phase(), now),
            final(self).engine().countdown_ms() == old(self).engine().countdown_ms(),
            final(self).engine().last_now() == now,
            final(self).scheduler() == old(self).scheduler(),
            old(self).engine().phase() is Running || old(self).engine().phase() is Paused
                ==> final(self).current_display() == spec_displayed(
                final(self).engine().phase(),
                old(self).engine().countdown_ms(),
                now,
            ),
            !(old(self).engine().phase() is Running) && !(old(self).engine().phase() is Paused)
                ==> final(self).current_display() == old(self).current_display(),
    {
        match self.engine.pause_or_resume(now) {
            Some(frozen) => {
                self.current_display = frozen;
            },
            None => {},
        }
    }

    /// Loads a configuration text. On a successful parse the trigger map is
    /// replaced wholesale and the fired history is cleared; on a parse
    /// failure the error is reported and the prior map, history and state
    /// are left exactly as they were.
    pub fn load_config(&mut self, contents: &str) -> (r: Result<(), TimerError>)
        requires
            old(self).wf(),
        ensures
            final(self).wf(),
            final(self).engine() == old(self).engine(),
            final(self).current_display() == old(self).current_display(),
            yaml_audio_map(contents@) matches Some(m) ==> {
                &&& r == Ok::<(), TimerError>(())
                &&& final(self).scheduler().map_view() == m
                &&& final(self).scheduler().fired_view() == Set::<u64>::empty()
            },
            yaml_audio_map(contents@) is None ==> {
                &&& r == Err::<(), TimerError>(TimerError::ConfigParseError)
                &&& final(self).scheduler() == old(self).scheduler()
            },
    {
        match parse_audio_entries(contents) {
            Some(entries) => {
                self.scheduler.load(entries);
                Ok(())
            },
            None => Err(TimerError::ConfigParseError),
        }
    }

    /// Asks the scheduler whether a cue is due at the currently displayed
    /// duration, recording and returning it so the owner can hand it to the
    /// playback collaborator; at most one cue per scheduled second per
    /// cycle.
    pub fn check_audio_triggers(&mut self) -> (r: Option<String>)
        requires
            old(self).wf(),
        ensures
            final(self).wf(),
            final(self).engine() == old(self).engine(),
            final(self).current_display() == old(self).current_display(),
            final(self).scheduler().map_view() == old(self).scheduler().map_view(),
            ({
                let sec = old(self).current_display() / 1000;
                if spec_fires(
                    old(self).scheduler().map_view(),
                    old(self).scheduler().fired_view(),
                    old(self).current_display(),
                ) {
                    &&& r matches Some(cue) && cue@ == old(self).scheduler().map_view()[sec]
                    &&& final(self).scheduler().fired_view() == old(
                        self,
                    ).scheduler().fired_view().insert(sec)
                } else {
                    &&& r is None
                    &&& final(self).scheduler().fired_view() == old(self).scheduler().fired_view()
                }
            }),
    {
        self.scheduler.poll(self.current_display)
    }

    /// Consumes one clock tick: the engine recomputes the displayed
    /// duration (performing the countdown-to-running hand-over when due),
    /// and, while the timer was running, the scheduler is polled with it.
    /// A tick whose timestamp runs backwards is rejected as a recoverable
    /// no-op and changes nothing.
    pub fn tick(&mut self, now: u64) -> (r: Result<Option<String>, TimerError>)
        requires
            old(self).wf(),
        ensures
            final(self).wf(),
            final(self).engine().countdown_ms() == old(self).engine().countdown_ms(),
            final(self).scheduler().map_view() == old(self).scheduler().map_view(),
            now < old(self).engine().last_now() ==> {
                &&& r == Err::<Option<String>, TimerError>(TimerError::ClockViolation)
                &&& final(self).engine() == old(self).engine()
                &&& final(self).scheduler() == old(self).scheduler()
                &&& final(self).current_display() == old(self).current_display()
            },
            now >= old(self).engine().last_now() ==> {
                let d = spec_displayed(
                    old(self).engine().phase(),
                    old(self).engine().countdown_ms(),
                    now,
                );
                let sec = d / 1000;
                &&& final(self).engine().phase() == spec_tick(
                    old(self).engine().phase(),
                    old(self).engine().countdown_ms(),
                    now,
                )
                &&& final(self).engine().last_now() == now
                &&& final(self).current_display() == d
                &&& if old(self).engine().phase() is Running && spec_fires(
                    old(self).scheduler().map_view(),
                    old(self).scheduler().fired_view(),
                    d,
                ) {
                    &&& r matches Ok(o) && o matches Some(cue) && cue@ == old(
                        self,
                    ).scheduler().map_view()[sec]
                    &&& final(self).scheduler().fired_view() == old(
                        self,
                    ).scheduler().fired_view().insert(sec)
                } else {
                    &&& r == Ok::<Option<String>, TimerError>(None)
                    &&& final(self).scheduler().fired_view() == old(self).scheduler().fired_view()
                }
            },
    {
        let was_running = match self.engine.phase_ref() {
            Phase::Running { .. } => true,
            _ => false,
        };
        match self.engine.advance(now) {
            Ok(d) => {
                self.current_display = d;
                if was_running {
                    Ok(self.scheduler.poll(d))
                } else {
                    Ok(None)
                }
            },
            Err(e) => Err(e),
        }
    }

    /// The displayed duration in milliseconds, as last recomputed.
    pub fn displayed_ms(&self) -> (r: u64)
        ensures
            r == self.current_display(),
    {
        self.current_display
    }

    /// A borrow of the engine's current phase.
    pub fn phase_ref(&self) -> (r: &Phase)
        ensures
            *r == self.engine().phase(),
    {
        self.engine.phase_ref()
    }

    /// True exactly while the phase needs periodic ticks.
    pub fn wants_ticks(&self) -> (r: bool)
        ensures
            r == (self.engine().phase() is CountingDown || self.engine().phase() is Running),
    {
        self.engine.wants_ticks()
    }
}

} // verus!

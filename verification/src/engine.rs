//! The timer state machine: phases, time accounting, and the pure
//! transition operations driven by user commands and clock ticks.

use vstd::prelude::*;

verus! {

/// The mode the timer is in. Timestamps and durations are milliseconds.
#[derive(Debug, Clone, Copy, PartialEq, Eq, Structural)]
pub enum Phase {
    /// No active timer.
    Idle,
    /// A fixed preparation interval is running down from `anchor`.
    CountingDown { anchor: u64 },
    /// Elapsed time accumulates as `base + (now - last_start)`.
    Running { base: u64, last_start: u64 },
    /// Elapsed time is frozen at `frozen`.
    Paused { frozen: u64 },
}

/// Clamps a mathematical integer into the `u64` range.
pub open spec fn clamp_u64(x: int) -> u64 {
    if x < 0 {
        0u64
    } else if x > u64::MAX {
        u64::MAX
    } else {
        x as u64
    }
}

/// The duration the timer displays in phase `p` at time `now`, given a
/// countdown length of `len` milliseconds: the remaining countdown while
/// counting down, the accumulated run time while running, the frozen value
/// while paused, and zero when idle.
pub open spec fn spec_displayed(p: Phase, len: u64, now: u64) -> u64 {
    match p {
        Phase::Idle => 0u64,
        Phase::CountingDown { anchor } => clamp_u64(len - (now - anchor)),
        Phase::Running { base, last_start } => clamp_u64(base + now - last_start),
        Phase::Paused { frozen } => frozen,
    }
}

/// The phase after a tick at time `now`: the countdown hands over to
/// `Running { base: 0 }` exactly when its displayed remainder reaches zero;
/// every other phase is left as it is.
pub open spec fn spec_tick(p: Phase, len: u64, now: u64) -> Phase {
    match p {
        Phase::CountingDown { anchor } => if clamp_u64(len - (now - anchor)) == 0 {
            Phase::Running { base: 0u64, last_start: now }
        } else {
            p
        },
        _ => p,
    }
}

/// The phase after the start-or-restart command is issued at time `now`:
/// a fresh countdown anchored there, whatever came before.
pub open spec fn spec_start(now: u64) -> Phase {
    Phase::CountingDown { anchor: now }
}

/// The phase after the pause-or-resume command is issued at time `now`:
/// running freezes at its elapsed value, paused resumes from its frozen
/// value, and the other phases are untouched.
pub open spec fn spec_pause_resume(p: Phase, now: u64) -> Phase {
    match p {
        Phase::Running { base, last_start } => Phase::Paused {
            frozen: clamp_u64(base + now - last_start),
        },
        Phase::Paused { frozen } => Phase::Running { base: frozen, last_start: now },
        _ => p,
    }
}

/// Just the constructor of a phase, without its timestamps.
#[derive(Debug, Clone, Copy, PartialEq, Eq, Structural)]
pub enum PhaseKind {
    Idle,
    CountingDown,
    Running,
    Paused,
}

/// The constructor a phase was built with.
pub open spec fn kind_of(p: Phase) -> PhaseKind {
    match p {
        Phase::Idle => PhaseKind::Idle,
        Phase::CountingDown { .. } => PhaseKind::CountingDown,
        Phase::Running { .. } => PhaseKind::Running,
        Phase::Paused { .. } => PhaseKind::Paused,
    }
}

/// A user command that drives the state machine directly, without a clock
/// tick.
#[derive(Debug, Clone, Copy, PartialEq, Eq, Structural)]
pub enum UserCmd {
    Start,
    PauseResume,
}

/// The phase after one user command issued at time `now`.
pub open spec fn spec_command(p: Phase, c: UserCmd, now: u64) -> Phase {
    match c {
        UserCmd::Start => spec_start(now),
        UserCmd::PauseResume => spec_pause_resume(p, now),
    }
}

/// The phase after replaying a command sequence from `p`, the command at
/// position `i` issued at time `nows[i]`.
pub open spec fn replay_commands(p: Phase, cs: Seq<UserCmd>, nows: Seq<u64>) -> Phase
    decreases cs.len(),
{
    if cs.len() == 0 {
        p
    } else {
        replay_commands(spec_command(p, cs[0], nows[0]), cs.skip(1), nows.skip(1))
    }
}

/// One command preserves agreement of phase constructors: from two phases
/// built with the same constructor, the same command leads to phases built
/// with the same constructor, whatever clock readings it consumes.
pub proof fn lemma_command_kind_deterministic(p1: Phase, p2: Phase, c: UserCmd, n1: u64, n2: u64)
    requires
        kind_of(p1) == kind_of(p2),
    ensures
        kind_of(spec_command(p1, c, n1)) == kind_of(spec_command(p2, c, n2)),
{
}

/// Law: the phase constructor reached by replaying any sequence of start
/// and pause-resume commands is a pure function of the command sequence
/// alone; the wall-clock readings consumed along the way never affect it.
pub proof fn lemma_replay_deterministic(
    p1: Phase,
    p2: Phase,
    cs: Seq<UserCmd>,
    nows1: Seq<u64>,
    nows2: Seq<u64>,
)
    requires
        kind_of(p1) == kind_of(p2),
    ensures
        kind_of(replay_commands(p1, cs, nows1)) == kind_of(replay_commands(p2, cs, nows2)),
    decreases cs.len(),
{
    if cs.len() > 0 {
        lemma_command_kind_deterministic(p1, p2, cs[0], nows1[0], nows2[0]);
        lemma_replay_deterministic(
            spec_command(p1, cs[0], nows1[0]),
            spec_command(p2, cs[0], nows2[0]),
            cs.skip(1),
            nows1.skip(1),
            nows2.skip(1),
        );
    }
}

/// Law: replayed from idle, the phase constructor a command sequence ends
/// in depends on the sequence alone, whatever clock the two replays read.
pub proof fn lemma_replay_from_idle_deterministic(cs: Seq<UserCmd>, nows1: Seq<u64>, nows2: Seq<u64>)
    ensures
        kind_of(replay_commands(Phase::Idle, cs, nows1)) == kind_of(
            replay_commands(Phase::Idle, cs, nows2),
        ),
{
    lemma_replay_deterministic(Phase::Idle, Phase::Idle, cs, nows1, nows2);
}

/// Law: a tick is idempotent. Consuming the same timestamp again displays
/// the same duration as the first time, and the second tick changes no
/// phase at all, so the countdown-to-running hand-over happens at most once
/// per timestamp.
pub proof fn lemma_tick_idempotent(p: Phase, len: u64, now: u64)
    ensures
        spec_displayed(spec_tick(p, len, now), len, now) == spec_displayed(p, len, now),
        spec_tick(spec_tick(p, len, now), len, now) == spec_tick(p, len, now),
{
}

/// The timer state machine. It owns the current phase, the configured
/// countdown length, and the latest clock reading it has consumed, which
/// every stored reference point stays at or below.
pub struct TimerEngine {
    phase: Phase,
    countdown_ms: u64,
    last_now: u64,
}

impl TimerEngine {
    /// The current phase.
    pub closed spec fn phase(&self) -> Phase {
        self.phase
    }

    /// The configured countdown length in milliseconds.
    pub closed spec fn countdown_ms(&self) -> u64 {
        self.countdown_ms
    }

    /// The latest timestamp this engine has consumed.
    pub closed spec fn last_now(&self) -> u64 {
        self.last_now
    }

    /// Every reference point stored in the phase lies at or before the
    /// latest consumed timestamp, so elapsed deltas never underflow.
    pub open spec fn wf(&self) -> bool {
        match self.phase() {
            Phase::CountingDown { anchor } => anchor <= self.last_now(),
            Phase::Running { base, last_start } => last_start <= self.last_now(),
            _ => true,
        }
    }

    /// A fresh engine: idle, with the given countdown length.
    pub fn new(countdown_ms: u64) -> (e: TimerEngine)
        ensures
            e.phase() == Phase::Idle,
            e.countdown_ms() == countdown_ms,
            e.last_now() == 0,
            e.wf(),
    {
        TimerEngine { phase: Phase::Idle, countdown_ms, last_now: 0 }
    }

    /// Unconditionally enters a fresh countdown anchored at `now`, whatever
    /// the prior phase. The owner must clear its fired-cue history alongside
    /// this call; see `TimerApp::start_restart`.
    pub fn start_or_restart(&mut self, now: u64)
        requires
            now >= old(self).last_now(),
        ensures
            final(self).phase() == spec_start(now),
            final(self).phase() == (Phase::CountingDown { anchor: now }),
            final(self).countdown_ms() == old(self).countdown_ms(),
            final(self).last_now() == now,
            final(self).wf(),
    {
        self.phase = Phase::CountingDown { anchor: now };
        self.last_now = now;
    }

    /// Pauses a running timer, freezing its elapsed time as computed at
    /// `now`, or resumes a paused one from its frozen value; any other phase
    /// is left untouched. Returns the frozen or resumed elapsed value on a
    /// real transition, and `None` on the no-op.
    pub fn pause_or_resume(&mut self, now: u64) -> (r: Option<u64>)
        requires
            old(self).wf(),
            now >= old(self).last_now(),
        ensures
            final(self).countdown_ms() == old(self).countdown_ms(),
            final(self).last_now() == now,
            final(self).wf(),
            final(self).phase() == spec_pause_resume(old(self).phase(), now),
            old(self).phase() matches Phase::Running { base, last_start } ==> {
                let frozen = clamp_u64(base + now - last_start);
                final(self).phase() == (Phase::Paused { frozen }) && r == Some(frozen)
            },
            old(self).phase() matches Phase::Paused { frozen } ==> {
                final(self).phase() == (Phase::Running { base: frozen, last_start: now })
                    && r == Some(frozen)
            },
            !(old(self).phase() is Running) && !(old(self).phase() is Paused) ==> {
                final(self).phase() == old(self).phase() && r == None::<u64>
            },
    {
        self.last_now = now;
        match self.phase {
            Phase::Running { base, last_start } => {
                let delta = now - last_start;
                let frozen = if delta > u64::MAX - base {
                    u64::MAX
                } else {
                    base + delta
                };
                self.phase = Phase::Paused { frozen };
                Some(frozen)
            },
            Phase::Paused { frozen } => {
                self.phase = Phase::Running { base: frozen, last_start: now };
                Some(frozen)
            },
            _ => None,
        }
    }

    /// Consumes a tick and returns the displayed duration, computed before
    /// any phase change, so the zero-crossing tick of a countdown still
    /// shows the countdown's zero. A tick whose timestamp runs backwards is
    /// rejected as a recoverable no-op: the error is reported and nothing
    /// changes.
    pub fn advance(&mut self, now: u64) -> (r: Result<u64, crate::TimerError>)
        requires
            old(self).wf(),
        ensures
            final(self).countdown_ms() == old(self).countdown_ms(),
            final(self).wf(),
            now < old(self).last_now() ==> {
                &&& r == Err::<u64, crate::TimerError>(crate::TimerError::ClockViolation)
                &&& *final(self) == *old(self)
            },
            now >= old(self).last_now() ==> {
                &&& r == Ok::<u64, crate::TimerError>(
                    spec_displayed(old(self).phase(), old(self).countdown_ms(), now),
                )
                &&& final(self).phase() == spec_tick(
                    old(self).phase(),
                    old(self).countdown_ms(),
                    now,
                )
                &&& final(self).last_now() == now
            },
    {
        if now < self.last_now {
            return Err(crate::TimerError::ClockViolation);
        }
        self.last_now = now;
        match self.phase {
            Phase::Idle => Ok(0),
            Phase::CountingDown { anchor } => {
                let spent = now - anchor;
                let remaining = if spent >= self.countdown_ms {
                    0
                } else {
                    self.countdown_ms - spent
                };
                if remaining == 0 {
                    self.phase = Phase::Running { base: 0, last_start: now };
                }
                Ok(remaining)
            },
            Phase::Running { base, last_start } => {
                let delta = now - last_start;
                let elapsed = if delta > u64::MAX - base {
                    u64::MAX
                } else {
                    base + delta
                };
                Ok(elapsed)
            },
            Phase::Paused { frozen } => Ok(frozen),
        }
    }

    /// A borrow of the current phase.
    pub fn phase_ref(&self) -> (r: &Phase)
        ensures
            *r == self.phase(),
    {
        &self.phase
    }

    /// The configured countdown length, as the executable value.
    pub fn countdown_ms_value(&self) -> (r: u64)
        ensures
            r == self.countdown_ms(),
    {
        self.countdown_ms
    }

    /// True exactly while the phase needs periodic ticks (counting down or
    /// running); idle and paused timers want none.
    pub fn wants_ticks(&self) -> (r: bool)
        ensures
            r == (self.phase() is CountingDown || self.phase() is Running),
    {
        match self.phase {
            Phase::CountingDown { .. } | Phase::Running { .. } => true,
            _ => false,
        }
    }
}

} // verus!

//! The pomodoro timer as a pure state machine.
//!
//! The timer owns no clock: time moves forward only through `tick(secs)`, which
//! may cross several phase boundaries in one call (a batch of seconds handed
//! over after the machine wakes from sleep is handled exactly as if it had been
//! handed over second by second).
//!
//! Cycle setting: `Finite(0)` runs one set (work then break) and stops,
//! `Finite(n)` runs `n` sets back to back and stops, `Infinite` never stops.
use vstd::prelude::*;

verus! {

/// Default work phase length (25 minutes).
pub const DEFAULT_WORK_SECS: u32 = 25 * 60;

/// Default break phase length (5 minutes).
pub const DEFAULT_BREAK_SECS: u32 = 5 * 60;

/// Shortest phase, in seconds. A phase of zero seconds would never let `tick` consume time.
pub const MIN_PHASE_SECS: u32 = 1;

/// The current phase of a set.
#[derive(Debug, Clone, Copy, PartialEq, Eq, Structural)]
pub enum Phase {
    Work,
    Break,
}

/// Whether the timer runs.
///
/// `Idle` means "not started / stopped, waiting for start". A finished session
/// also comes back here, and the next start begins a new session.
#[derive(Debug, Clone, Copy, PartialEq, Eq, Structural)]
pub enum Status {
    Idle,
    Running,
    Paused,
}

/// How many sets run back to back.
///
/// `Finite(0)` and `Finite(1)` both stop after one set: `0` is the default
/// spelling of "no automatic continuation".
#[derive(Debug, Clone, Copy, PartialEq, Eq, Structural)]
pub enum CycleSetting {
    Finite(u32),
    Infinite,
}

/// The number of sets that a cycle setting runs; `None` for no limit.
pub open spec fn target_sets_of(c: CycleSetting) -> Option<u32> {
    match c {
        CycleSetting::Finite(n) => if n == 0 { Some(1u32) } else { Some(n) },
        CycleSetting::Infinite => None,
    }
}

/// Whether a session ends once `completed` sets are done.
pub open spec fn is_last_set_of(c: CycleSetting, completed: u32) -> bool {
    match target_sets_of(c) {
        Some(target) => completed >= target,
        None => false,
    }
}

impl CycleSetting {
    /// The number of sets to run; `Finite(0)` folds to one set, `Infinite` to `None`.
    fn target_sets(self) -> (r: Option<u32>)
        ensures
            r == target_sets_of(self),
    {
        match self {
            CycleSetting::Finite(0) => Some(1),
            CycleSetting::Finite(n) => Some(n),
            CycleSetting::Infinite => None,
        }
    }

    /// Whether the session ends after `completed` sets. Never under `Infinite`.
    fn is_last_set(self, completed: u32) -> (r: bool)
        ensures
            r == is_last_set_of(self, completed),
    {
        match self.target_sets() {
            Some(target) => completed >= target,
            None => false,
        }
    }
}

/// The timer's settings.
#[derive(Debug, Clone, Copy, PartialEq, Eq, Structural)]
pub struct Config {
    pub work_secs: u32,
    pub break_secs: u32,
    pub cycles: CycleSetting,
}

/// The default settings: 25 minutes of work, 5 of break, one set.
pub open spec fn default_config() -> Config {
    Config {
        work_secs: DEFAULT_WORK_SECS,
        break_secs: DEFAULT_BREAK_SECS,
        cycles: CycleSetting::Finite(0),
    }
}

impl Default for Config {
    fn default() -> (c: Self)
        ensures
            c == default_config(),
    {
        Config {
            work_secs: DEFAULT_WORK_SECS,
            break_secs: DEFAULT_BREAK_SECS,
            cycles: CycleSetting::Finite(0),
        }
    }
}

/// `x`, raised to `lo` where it is below.
pub open spec fn at_least(x: u32, lo: u32) -> u32 {
    if x < lo { lo } else { x }
}

/// A config whose phases are raised to the shortest allowed length.
pub open spec fn sanitized_config(c: Config) -> Config {
    Config {
        work_secs: at_least(c.work_secs, MIN_PHASE_SECS),
        break_secs: at_least(c.break_secs, MIN_PHASE_SECS),
        cycles: c.cycles,
    }
}

/// A config that the timer can run: no phase is shorter than the minimum.
pub open spec fn config_ok(c: Config) -> bool {
    c.work_secs >= MIN_PHASE_SECS && c.break_secs >= MIN_PHASE_SECS
}

impl Config {
    /// The config with zero-second phases raised to the minimum.
    fn sanitized(self) -> (r: Self)
        ensures
            r == sanitized_config(self),
    {
        Config {
            work_secs: self.work_secs.max(MIN_PHASE_SECS),
            break_secs: self.break_secs.max(MIN_PHASE_SECS),
            cycles: self.cycles,
        }
    }
}

/// Something that happens at a phase boundary.
#[derive(Debug, Clone, Copy, PartialEq, Eq, Structural)]
pub enum TimerEvent {
    /// A work phase ended (a break follows).
    WorkEnded,
    /// A break phase ended.
    BreakEnded,
    /// The configured number of sets is done; the timer is `Idle` again.
    SessionFinished,
}

/// What the display shows of the timer.
#[derive(Debug, Clone, Copy, PartialEq, Eq, Structural)]
pub struct TimerSnapshot {
    pub phase: Phase,
    pub status: Status,
    pub remaining_secs: u32,
    /// The current set, counted from 0.
    pub set_index: u32,
    /// The number of sets to run; `None` for no limit.
    pub total_sets: Option<u32>,
    pub work_secs: u32,
    pub break_secs: u32,
}

/// The abstract state of a timer.
pub struct TimerModel {
    pub config: Config,
    pub phase: Phase,
    pub status: Status,
    pub remaining: u32,
    pub set_index: u32,
}

/// `i + 1`, saturating at `u32::MAX`.
pub open spec fn next_set_index(i: u32) -> u32 {
    if i + 1 > u32::MAX { u32::MAX } else { (i + 1) as u32 }
}

impl TimerModel {
    /// The invariant of every timer: both phases last at least the minimum, the
    /// current phase has time left, and an idle timer waits at the head of a session.
    pub open spec fn wf(self) -> bool {
        &&& config_ok(self.config)
        &&& self.remaining >= 1
        &&& self.status == Status::Idle ==> {
            &&& self.phase == Phase::Work
            &&& self.remaining == self.config.work_secs
            &&& self.set_index == 0
        }
    }

    /// The state at the head of a session, stopped.
    pub open spec fn reset_model(self) -> TimerModel {
        TimerModel {
            config: self.config,
            phase: Phase::Work,
            status: Status::Idle,
            remaining: self.config.work_secs,
            set_index: 0,
        }
    }

    /// `start`: a new session from `Idle`, resume from `Paused`, nothing while `Running`.
    pub open spec fn start_model(self) -> TimerModel {
        match self.status {
            Status::Running => self,
            Status::Paused => TimerModel { status: Status::Running, ..self },
            Status::Idle => TimerModel {
                config: self.config,
                phase: Phase::Work,
                status: Status::Running,
                remaining: self.config.work_secs,
                set_index: 0,
            },
        }
    }

    /// `pause`: only a running timer pauses.
    pub open spec fn pause_model(self) -> TimerModel {
        if self.status == Status::Running {
            TimerModel { status: Status::Paused, ..self }
        } else {
            self
        }
    }

    /// The end of the current phase: work goes to break; a break goes to the
    /// next set's work, or ends the session when the last set is done. The
    /// time left in the ended phase plays no part.
    pub open spec fn complete_model(self) -> (TimerModel, Seq<TimerEvent>) {
        match self.phase {
            Phase::Work => (
                TimerModel {
                    config: self.config,
                    phase: Phase::Break,
                    status: self.status,
                    remaining: self.config.break_secs,
                    set_index: self.set_index,
                },
                seq![TimerEvent::WorkEnded],
            ),
            Phase::Break => {
                let completed = next_set_index(self.set_index);
                if is_last_set_of(self.config.cycles, completed) {
                    (
                        self.reset_model(),
                        seq![TimerEvent::BreakEnded, TimerEvent::SessionFinished],
                    )
                } else {
                    (
                        TimerModel {
                            config: self.config,
                            phase: Phase::Work,
                            status: self.status,
                            remaining: self.config.work_secs,
                            set_index: completed,
                        },
                        seq![TimerEvent::BreakEnded],
                    )
                }
            },
        }
    }

    /// `skip`: end the current phase now, unless idle.
    pub open spec fn skip_model(self) -> (TimerModel, Seq<TimerEvent>) {
        if self.status == Status::Idle {
            (self, Seq::empty())
        } else {
            self.complete_model()
        }
    }

    /// `tick(secs)`: let `secs` seconds pass while running, crossing as many
    /// phase boundaries as they reach, with the events in the order they happen.
    /// Seconds left over once the session finishes are dropped.
    pub open spec fn tick_model(self, secs: nat) -> (TimerModel, Seq<TimerEvent>)
        decreases secs,
    {
        if self.status != Status::Running || secs == 0 || self.remaining == 0 {
            (self, Seq::empty())
        } else if secs < self.remaining {
            (TimerModel { remaining: (self.remaining - secs) as u32, ..self }, Seq::empty())
        } else {
            let (after, first) = self.complete_model();
            let (last, rest) = after.tick_model((secs - self.remaining) as nat);
            (last, first + rest)
        }
    }

    /// `set_config`: the new (sanitized) config; an idle timer goes back to the
    /// head of a session under it, a running or paused one keeps its place.
    pub open spec fn set_config_model(self, c: Config) -> TimerModel {
        let m = TimerModel { config: sanitized_config(c), ..self };
        if self.status == Status::Idle {
            m.reset_model()
        } else {
            m
        }
    }

    /// What `snapshot` shows of this state.
    pub open spec fn snapshot_model(self) -> TimerSnapshot {
        TimerSnapshot {
            phase: self.phase,
            status: self.status,
            remaining_secs: self.remaining,
            set_index: self.set_index,
            total_sets: target_sets_of(self.config.cycles),
            work_secs: self.config.work_secs,
            break_secs: self.config.break_secs,
        }
    }
}

/// A fresh timer under config `c`: sanitized, idle at the head of a session.
pub open spec fn new_model(c: Config) -> TimerModel {
    TimerModel {
        config: sanitized_config(c),
        phase: Phase::Work,
        status: Status::Idle,
        remaining: sanitized_config(c).work_secs,
        set_index: 0,
    }
}

/// The pomodoro timer.
#[derive(Debug, Clone, Copy)]
pub struct Timer {
    config: Config,
    phase: Phase,
    status: Status,
    remaining: u32,
    /// The current set, counted from 0.
    set_index: u32,
}

impl View for Timer {
    type V = TimerModel;

    closed spec fn view(&self) -> TimerModel {
        TimerModel {
            config: self.config,
            phase: self.phase,
            status: self.status,
            remaining: self.remaining,
            set_index: self.set_index,
        }
    }
}

impl Timer {
    /// Every timer keeps the invariant of its model.
    #[verifier::type_invariant]
    pub(crate) open spec fn inv(self) -> bool {
        self@.wf()
    }

    /// A timer under `config` (zero-second phases raised to the minimum),
    /// idle at the head of the work phase.
    pub fn new(config: Config) -> (t: Self)
        ensures
            t@ == new_model(config),
            t@.wf(),
    {
        let config = config.sanitized();
        Timer {
            config,
            phase: Phase::Work,
            status: Status::Idle,
            remaining: config.work_secs,
            set_index: 0,
        }
    }

    /// The current state, as the display shows it.
    pub fn snapshot(&self) -> (s: TimerSnapshot)
        ensures
            s == self@.snapshot_model(),
    {
        TimerSnapshot {
            phase: self.phase,
            status: self.status,
            remaining_secs: self.remaining,
            set_index: self.set_index,
            total_sets: self.config.cycles.target_sets(),
            work_secs: self.config.work_secs,
            break_secs: self.config.break_secs,
        }
    }

    /// The current config.
    pub fn config(&self) -> (c: Config)
        ensures
            c == self@.config,
    {
        self.config
    }

    /// Replaces the config. An idle timer is reset so that the next session
    /// starts with the new work length; a running or paused one keeps its
    /// phase, time left and set, and the new lengths apply from the next
    /// phase on, the new cycle setting from the next end-of-set check.
    pub fn set_config(&mut self, config: Config)
        ensures
            old(self)@.wf(),
            final(self)@ == old(self)@.set_config_model(config),
            final(self)@.wf(),
    {
        proof {
            use_type_invariant(&*self);
        }
        let config = config.sanitized();
        if self.status == Status::Idle {
            *self = Timer {
                config,
                phase: Phase::Work,
                status: Status::Idle,
                remaining: config.work_secs,
                set_index: 0,
            };
        } else {
            self.config = config;
        }
    }

    /// Starts or resumes: a new session from `Idle`, resume from `Paused`,
    /// nothing while `Running`.
    pub fn start(&mut self)
        ensures
            old(self)@.wf(),
            final(self)@ == old(self)@.start_model(),
            final(self)@.wf(),
    {
        proof {
            use_type_invariant(&*self);
        }
        match self.status {
            Status::Running => {},
            Status::Paused => self.status = Status::Running,
            Status::Idle => {
                self.phase = Phase::Work;
                self.remaining = self.config.work_secs;
                self.set_index = 0;
                self.status = Status::Running;
            },
        }
    }

    /// Pauses (only while `Running`).
    pub fn pause(&mut self)
        ensures
            old(self)@.wf(),
            final(self)@ == old(self)@.pause_model(),
            final(self)@.wf(),
    {
        proof {
            use_type_invariant(&*self);
        }
        if self.status == Status::Running {
            self.status = Status::Paused;
        }
    }

    /// Back to the first state: head of the work phase, stopped.
    pub fn reset(&mut self)
        ensures
            old(self)@.wf(),
            final(self)@ == old(self)@.reset_model(),
            final(self)@.wf(),
    {
        proof {
            use_type_invariant(&*self);
        }
        self.phase = Phase::Work;
        self.remaining = self.config.work_secs;
        self.set_index = 0;
        self.status = Status::Idle;
    }

    /// Ends the current phase now and moves on, keeping `Running` or `Paused`
    /// (unless the session finishes). Nothing while `Idle`. Returns the
    /// boundary events crossed.
    pub fn skip(&mut self) -> (events: Vec<TimerEvent>)
        ensures
            old(self)@.wf(),
            (final(self)@, events@) == old(self)@.skip_model(),
            final(self)@.wf(),
    {
        proof {
            use_type_invariant(&*self);
        }
        if self.status == Status::Idle {
            return Vec::new();
        }
        let mut events = Vec::new();
        self.complete_phase(&mut events);
        events
    }

    /// Lets `secs` seconds pass; nothing happens unless `Running`. Returns the
    /// boundary events crossed, in order; several boundaries may be crossed in
    /// one call.
    pub fn tick(&mut self, secs: u32) -> (events: Vec<TimerEvent>)
        ensures
            old(self)@.wf(),
            (final(self)@, events@) == old(self)@.tick_model(secs as nat),
            final(self)@.wf(),
    {
        proof {
            use_type_invariant(&*self);
        }
        let mut events = Vec::new();
        if self.status != Status::Running {
            return events;
        }
        let mut left = secs;
        // Every phase lasts at least MIN_PHASE_SECS, so each round consumes time.
        while left > 0 && self.status == Status::Running
            invariant
                self@.wf(),
                old(self)@.tick_model(secs as nat) == (
                    self@.tick_model(left as nat).0,
                    events@ + self@.tick_model(left as nat).1,
                ),
            decreases left,
        {
            let ghost before = self@;
            let ghost before_events = events@;
            if left < self.remaining {
                self.remaining -= left;
                left = 0;
                assert(self@.tick_model(0) == (self@, Seq::<TimerEvent>::empty()));
                assert(events@ + Seq::<TimerEvent>::empty() =~= events@);
            } else {
                left -= self.remaining;
                self.complete_phase(&mut events);
                proof {
                    let (after, first) = before.complete_model();
                    assert(after == self@);
                    assert(events@ == before_events + first);
                    assert(before_events + (first + self@.tick_model(left as nat).1)
                        =~= events@ + self@.tick_model(left as nat).1);
                }
            }
        }
        assert(self@.tick_model(left as nat) == (self@, Seq::<TimerEvent>::empty()));
        assert(events@ + Seq::<TimerEvent>::empty() =~= events@);
        events
    }

    /// The transition at the end of the current phase: work to break; break to
    /// the next set's work, or to the end of the session. The time left in the
    /// ended phase is replaced.
    fn complete_phase(&mut self, events: &mut Vec<TimerEvent>)
        requires
            old(self)@.status != Status::Idle,
        ensures
            final(self)@ == old(self)@.complete_model().0,
            final(events)@ == old(events)@ + old(self)@.complete_model().1,
            final(self)@.wf(),
    {
        proof {
            use_type_invariant(&*self);
        }
        match self.phase {
            Phase::Work => {
                events.push(TimerEvent::WorkEnded);
                self.phase = Phase::Break;
                self.remaining = self.config.break_secs;
                assert(events@ =~= old(events)@ + seq![TimerEvent::WorkEnded]);
            },
            Phase::Break => {
                events.push(TimerEvent::BreakEnded);
                let completed = self.set_index.saturating_add(1);
                if self.config.cycles.is_last_set(completed) {
                    events.push(TimerEvent::SessionFinished);
                    self.reset();
                    assert(events@ =~= old(events)@ + seq![
                        TimerEvent::BreakEnded,
                        TimerEvent::SessionFinished,
                    ]);
                } else {
                    self.set_index = completed;
                    self.phase = Phase::Work;
                    self.remaining = self.config.work_secs;
                    assert(events@ =~= old(events)@ + seq![TimerEvent::BreakEnded]);
                }
            },
        }
    }
}

} // verus!

//! The scheduler: timer, direction cursor and task pool, driven once per
//! frame.
//!
//! A frame has two phases. The first decides whether a wave starts: while
//! tasks are outstanding the timer is held at zero, so the time between two
//! waves is counted from the moment the last task of the earlier wave was
//! applied. The second applies the tasks that are due.

use vstd::prelude::*;
use crate::direction::{sequence, Direction, DirectionSequencer, SEQUENCE_LEN};
use crate::error::ConfigError;
use crate::geometry::Step;
use crate::pool::{PoolState, TaskPool, WaveState};
use crate::timer::{TimerState, WaveTimer};
use crate::unit::{MovableUnit, Units};

verus! {

/// What a [`Scheduler`] holds.
pub struct SchedulerState {
    pub timer: TimerState,
    /// Place of the next wave's direction in the pattern.
    pub cursor: int,
    pub step: Step,
    pub pool: PoolState,
}

impl SchedulerState {
    pub open spec fn wf(self) -> bool {
        &&& self.timer.wf()
        &&& 0 <= self.cursor < SEQUENCE_LEN
        &&& self.pool.wf()
    }

    /// A scheduler that has not run yet: the timer at zero, the cursor at the
    /// start of the pattern, no tasks.
    pub open spec fn fresh(period: nat, step: Step) -> SchedulerState {
        SchedulerState {
            timer: TimerState::fresh(period),
            cursor: 0,
            step,
            pool: PoolState::empty(),
        }
    }

    /// The direction that the next wave takes.
    pub open spec fn direction(self) -> Direction {
        sequence()[self.cursor]
    }

    /// Whether a frame of `delta` starts a wave: no task is outstanding and
    /// the timer, running, fires.
    pub open spec fn launches(self, delta: nat) -> bool {
        self.pool.drained() && self.timer.without_pause().fires(delta)
    }

    /// The scheduler after the first phase of a frame of `delta`.
    ///
    /// With tasks outstanding the timer is paused and cleared, and the wave
    /// in flight has waited `delta` longer. Otherwise the timer runs; if it
    /// fires, every living unit gets a task in the current direction and the
    /// cursor advances by one place.
    pub open spec fn spawned(self, units: Units, delta: nat) -> SchedulerState {
        if !self.pool.drained() {
            SchedulerState {
                timer: self.timer.with_pause().cleared(),
                pool: self.pool.advanced(delta),
                ..self
            }
        } else if self.timer.without_pause().fires(delta) {
            SchedulerState {
                timer: self.timer.without_pause().ticked(delta),
                cursor: (self.cursor + 1) % (SEQUENCE_LEN as int),
                pool: PoolState::launched(units, self.direction().vector(self.step)),
                ..self
            }
        } else {
            SchedulerState { timer: self.timer.without_pause().ticked(delta), ..self }
        }
    }

    /// The scheduler after the second phase: the due tasks are gone.
    pub open spec fn handled(self) -> SchedulerState {
        SchedulerState { pool: self.pool.polled(), ..self }
    }

    /// The scheduler after a whole frame of `delta`.
    pub open spec fn updated(self, units: Units, delta: nat) -> SchedulerState {
        self.spawned(units, delta).handled()
    }

    /// The units after a whole frame of `delta`.
    pub open spec fn units_after(self, units: Units, delta: nat) -> Units {
        self.spawned(units, delta).pool.applied_to(units)
    }
}

/// Timer, direction cursor and task pool of one formation.
pub struct Scheduler {
    timer: WaveTimer,
    sequencer: DirectionSequencer,
    step: Step,
    pool: TaskPool,
}

impl View for Scheduler {
    type V = SchedulerState;

    closed spec fn view(&self) -> SchedulerState {
        SchedulerState {
            timer: self.timer@,
            cursor: self.sequencer.cursor(),
            step: self.step,
            pool: self.pool@,
        }
    }
}

impl Scheduler {
    /// A scheduler whose waves are `period` nanoseconds apart and move the
    /// formation by `step`. A period of zero or less is refused.
    pub fn new(period: i64, step: Step) -> (made: Result<Scheduler, ConfigError>)
        ensures
            period <= 0 ==> made == Err::<Scheduler, ConfigError>(ConfigError::NonPositivePeriod),
            period > 0 ==> made is Ok && made->Ok_0@ == SchedulerState::fresh(period as nat, step),
            made matches Ok(s) ==> s@.wf(),
    {
        match WaveTimer::new(period) {
            Ok(timer) => {
                let sequencer = DirectionSequencer::new();
                let pool = TaskPool::new();
                Ok(Scheduler { timer, sequencer, step, pool })
            },
            Err(e) => Err(e),
        }
    }

    /// First phase of a frame: decides whether a wave starts, and starts it.
    /// Returns whether it did.
    pub fn spawn_tasks(&mut self, units: &Vec<Option<MovableUnit>>, delta: u64) -> (launched: bool)
        ensures
            final(self)@ == old(self)@.spawned(units@, delta as nat),
            launched == old(self)@.launches(delta as nat),
            !old(self)@.pool.drained() ==> !launched,
    {
        if !self.pool.is_drained() {
            self.timer.pause();
            self.timer.reset();
            self.pool.advance(delta);
            return false;
        }
        self.timer.unpause();
        if !self.timer.tick(delta) {
            return false;
        }
        let shift = self.sequencer.current().displacement(self.step);
        self.pool.launch(units, shift);
        self.sequencer.advance();
        true
    }

    /// Second phase of a frame: applies the tasks that are due to the units
    /// that still exist, and drops them.
    pub fn handle_tasks(&mut self, units: &mut Vec<Option<MovableUnit>>)
        ensures
            final(self)@ == old(self)@.handled(),
            final(units)@ == old(self)@.pool.applied_to(old(units)@),
    {
        self.pool.poll(units);
    }

    /// One frame of `delta` nanoseconds. Returns whether a wave started.
    pub fn update(&mut self, units: &mut Vec<Option<MovableUnit>>, delta: u64) -> (launched: bool)
        ensures
            final(self)@ == old(self)@.updated(old(units)@, delta as nat),
            final(units)@ == old(self)@.units_after(old(units)@, delta as nat),
            launched == old(self)@.launches(delta as nat),
            final(self)@.wf(),
    {
        let launched = self.spawn_tasks(units, delta);
        self.handle_tasks(units);
        proof {
            use_type_invariant(&self.timer);
            use_type_invariant(&self.sequencer);
            use_type_invariant(&self.pool);
        }
        launched
    }

    /// The direction that the next wave takes.
    pub fn direction(&self) -> (d: Direction)
        ensures
            d == self@.direction(),
    {
        self.sequencer.current()
    }

    /// The number of outstanding tasks.
    pub fn outstanding(&self) -> (count: usize)
        ensures
            count == self@.pool.outstanding(),
            count == 0 <==> self@.pool.drained(),
    {
        self.pool.outstanding()
    }

    /// `Idle` when no task is outstanding, `InProgress` otherwise.
    pub fn wave_state(&self) -> (state: WaveState)
        ensures
            state == WaveState::Idle <==> self@.pool.drained(),
            state == WaveState::InProgress <==> !self@.pool.drained(),
    {
        self.pool.wave_state()
    }

    pub fn timer(&self) -> (timer: &WaveTimer)
        ensures
            timer@ == self@.timer,
    {
        &self.timer
    }

    pub fn pool(&self) -> (pool: &TaskPool)
        ensures
            pool@ == self@.pool,
    {
        &self.pool
    }

    pub fn step(&self) -> (step: Step)
        ensures
            step == self@.step,
    {
        self.step
    }
}

} // verus!

//! The formation: its units and, while it runs, its scheduler.

use vstd::prelude::*;
use crate::delay::DelayPolicy;
use crate::direction::Direction;
use crate::error::ConfigError;
use crate::geometry::{Position, Step};
use crate::pool::WaveState;
use crate::scheduler::{Scheduler, SchedulerState};
use crate::timer::WAVE_PERIOD;
use crate::unit::{MovableUnit, Placement, Units};

verus! {

/// How a formation moves.
#[derive(Debug)]
pub struct Config {
    /// Nanoseconds between two waves. Must be positive.
    pub period: i64,
    /// How far a wave moves the formation.
    pub step: Step,
    /// How long each unit waits within a wave.
    pub policy: DelayPolicy,
}

/// What a [`Formation`] holds: the units by index, and the scheduler while
/// the formation runs.
pub struct FormationState {
    pub units: Units,
    pub scheduler: Option<SchedulerState>,
}

/// The unit that starts at `placement` under `policy`.
pub open spec fn unit_at(placement: Placement, policy: DelayPolicy) -> MovableUnit {
    MovableUnit {
        row: placement.row,
        column: placement.column,
        position: placement.position,
        delay: policy.delay_of(placement.row, placement.column)->Ok_0,
    }
}

/// The units that start at `placements` under `policy`, all alive.
pub open spec fn units_at(placements: Seq<Placement>, policy: DelayPolicy) -> Units {
    Seq::new(placements.len(), |i: int| Some(unit_at(placements[i], policy)))
}

/// Whether `policy` has a delay for the unit at `placement`.
pub open spec fn has_delay(placement: Placement, policy: DelayPolicy) -> bool {
    policy.delay_of(placement.row, placement.column) is Ok
}

impl Config {
    /// Whether a formation at `placements` can start with this
    /// configuration: the period is positive and every unit has a delay.
    pub open spec fn accepts(self, placements: Seq<Placement>) -> bool {
        &&& self.period > 0
        &&& forall|i: int| 0 <= i < placements.len() ==> has_delay(#[trigger] placements[i], self.policy)
    }

    /// Whether `error` is what this configuration is refused for: a period
    /// that is not positive, or else what the first unit without a delay
    /// lacks it for.
    pub open spec fn refused_for(self, placements: Seq<Placement>, error: ConfigError) -> bool {
        if self.period <= 0 {
            error == ConfigError::NonPositivePeriod
        } else {
            exists|i: int|
                {
                    &&& 0 <= i < placements.len()
                    &&& self.policy.delay_of(
                        (#[trigger] placements[i]).row,
                        placements[i].column,
                    ) == Err::<u64, ConfigError>(error)
                    &&& forall|j: int| 0 <= j < i ==> has_delay(#[trigger] placements[j], self.policy)
                }
        }
    }

    /// The canonical configuration for cells of the given size: a wave every
    /// three seconds, a quarter of a cell sideways or half a cell down, and
    /// the diagonal stagger.
    pub fn canonical(cell_width: u32, cell_height: u32) -> (config: Config)
        ensures
            config.period == WAVE_PERIOD,
            config.step == Step::of_cell(cell_width, cell_height),
            config.policy == DelayPolicy::per_unit_spec(),
    {
        Config {
            period: WAVE_PERIOD,
            step: Step::from_cell(cell_width, cell_height),
            policy: DelayPolicy::per_unit(),
        }
    }
}

impl FormationState {
    /// The unit slots can be counted in a `usize`, and the scheduler, if
    /// there is one, is well-formed.
    pub open spec fn wf(self) -> bool {
        &&& self.units.len() <= usize::MAX
        &&& self.scheduler matches Some(s) ==> s.wf()
    }

    /// A formation that does not run and has no units.
    pub open spec fn idle() -> FormationState {
        FormationState { units: Seq::empty(), scheduler: None }
    }

    /// The formation right after a start that `config` accepts.
    pub open spec fn started(placements: Seq<Placement>, config: Config) -> FormationState {
        FormationState {
            units: units_at(placements, config.policy),
            scheduler: Some(SchedulerState::fresh(config.period as nat, config.step)),
        }
    }

    pub open spec fn running(self) -> bool {
        self.scheduler is Some
    }

    /// Whether a wave is in flight: the formation runs and a task is
    /// outstanding.
    pub open spec fn in_flight(self) -> bool {
        self.scheduler matches Some(s) && !s.pool.drained()
    }

    /// Whether a frame of `delta` starts a wave.
    pub open spec fn launches(self, delta: nat) -> bool {
        self.scheduler matches Some(s) && s.launches(delta)
    }

    /// Whether unit `index` exists.
    pub open spec fn alive(self, index: int) -> bool {
        0 <= index < self.units.len() && self.units[index] is Some
    }

    /// Whether some unit stands lower than `limit`.
    pub open spec fn below(self, limit: int) -> bool {
        exists|i: int| self.alive(i) && (#[trigger] self.units[i])->Some_0.position.y < limit
    }

    /// The number of outstanding tasks; none when the formation is stopped.
    pub open spec fn outstanding(self) -> nat {
        match self.scheduler {
            Some(s) => s.pool.outstanding(),
            None => 0,
        }
    }

    /// The formation without unit `index`. Its task, if it has one, stays in
    /// the pool until it is due.
    pub open spec fn without_unit(self, index: int) -> FormationState {
        if 0 <= index < self.units.len() {
            FormationState { units: self.units.update(index, None), ..self }
        } else {
            self
        }
    }

    /// The formation after a frame of `delta`. A stopped formation does not
    /// change.
    pub open spec fn updated(self, delta: nat) -> FormationState {
        match self.scheduler {
            Some(s) => FormationState {
                units: s.units_after(self.units, delta),
                scheduler: Some(s.updated(self.units, delta)),
            },
            None => self,
        }
    }

    /// The formation stopped: the units stay as they are, the scheduler and
    /// every outstanding task are gone.
    pub open spec fn stopped(self) -> FormationState {
        FormationState { scheduler: None, ..self }
    }
}

/// The units of a formation and, while it runs, the scheduler that moves
/// them.
pub struct Formation {
    units: Vec<Option<MovableUnit>>,
    scheduler: Option<Scheduler>,
}

impl View for Formation {
    type V = FormationState;

    closed spec fn view(&self) -> FormationState {
        FormationState {
            units: self.units@,
            scheduler: match self.scheduler {
                Some(s) => Some(s@),
                None => None,
            },
        }
    }
}

impl Formation {
    /// A formation that does not run and has no units.
    pub fn new() -> (formation: Formation)
        ensures
            formation@ == FormationState::idle(),
    {
        Formation { units: Vec::new(), scheduler: None }
    }

    /// Starts the formation with one unit per placement, in the order given:
    /// the unit's index is the index of its placement. Every unit gets its
    /// delay, the timer starts at zero and the direction cursor at the start
    /// of the pattern. Units and tasks of an earlier run are dropped.
    ///
    /// A configuration that is not accepted leaves the formation as it was.
    pub fn start(&mut self, placements: &Vec<Placement>, config: &Config) -> (started: Result<
        (),
        ConfigError,
    >)
        ensures
            started is Ok <==> config.accepts(placements@),
            started is Ok ==> final(self)@ == FormationState::started(placements@, *config)
                && final(self)@.wf(),
            started matches Err(e) ==> config.refused_for(placements@, e) && final(self)@ == old(
                self,
            )@,
    {
        let scheduler = match Scheduler::new(config.period, config.step) {
            Ok(s) => s,
            Err(e) => {
                return Err(e);
            },
        };
        let mut units: Vec<Option<MovableUnit>> = Vec::new();
        let mut i: usize = 0;
        while i < placements.len()
            invariant
                i <= placements@.len(),
                units@.len() == i,
                config.period > 0,
                forall|j: int| 0 <= j < i ==> has_delay(#[trigger] placements@[j], config.policy),
                forall|j: int|
                    0 <= j < i ==> units@[j] == Some(unit_at(placements@[j], config.policy)),
            decreases placements@.len() - i,
        {
            let p: Placement = placements[i];
            match config.policy.delay_for(p.row, p.column) {
                Ok(delay) => {
                    units.push(
                        Some(
                            MovableUnit {
                                row: p.row,
                                column: p.column,
                                position: p.position,
                                delay,
                            },
                        ),
                    );
                },
                Err(e) => {
                    assert(!has_delay(placements@[i as int], config.policy));
                    return Err(e);
                },
            }
            i += 1;
        }
        assert(units@ =~= units_at(placements@, config.policy));
        self.units = units;
        self.scheduler = Some(scheduler);
        Ok(())
    }

    /// Stops the formation: every outstanding task is dropped unapplied, and
    /// timer and direction cursor are torn down. The units stay where they
    /// are. Stopping a stopped formation does nothing.
    pub fn stop(&mut self)
        ensures
            final(self)@ == old(self)@.stopped(),
            !final(self)@.running(),
            final(self)@.outstanding() == 0,
            final(self)@.units == old(self)@.units,
            !old(self)@.running() ==> final(self)@ == old(self)@,
    {
        self.scheduler = None;
    }

    /// One frame of `delta` nanoseconds. Returns whether a wave started.
    /// A stopped formation does not change.
    pub fn update(&mut self, delta: u64) -> (launched: bool)
        ensures
            final(self)@ == old(self)@.updated(delta as nat),
            launched == old(self)@.launches(delta as nat),
            !old(self)@.running() ==> final(self)@ == old(self)@ && !launched,
            final(self)@.wf(),
    {
        let launched = match &mut self.scheduler {
            Some(scheduler) => scheduler.update(&mut self.units, delta),
            None => false,
        };
        assert(self.units.len() == self.units@.len());
        launched
    }

    /// Takes unit `index` out of the formation, as when it is destroyed.
    /// Returns whether the unit existed.
    pub fn remove_unit(&mut self, index: usize) -> (existed: bool)
        ensures
            final(self)@ == old(self)@.without_unit(index as int),
            existed == old(self)@.alive(index as int),
    {
        if index < self.units.len() {
            let existed = self.units[index].is_some();
            self.units[index] = None;
            existed
        } else {
            false
        }
    }

    /// Whether the formation runs.
    pub fn is_running(&self) -> (running: bool)
        ensures
            running == self@.running(),
    {
        self.scheduler.is_some()
    }

    /// The number of unit slots, destroyed units included.
    pub fn len(&self) -> (len: usize)
        ensures
            len == self@.units.len(),
    {
        self.units.len()
    }

    /// The unit slots by index; a destroyed unit has left `None`.
    pub fn units(&self) -> (units: &Vec<Option<MovableUnit>>)
        ensures
            units@ == self@.units,
    {
        &self.units
    }

    /// Unit `index`, if it exists.
    pub fn unit(&self, index: usize) -> (unit: Option<MovableUnit>)
        ensures
            unit == if self@.alive(index as int) {
                self@.units[index as int]
            } else {
                None
            },
    {
        if index < self.units.len() {
            self.units[index]
        } else {
            None
        }
    }

    /// Where unit `index` is, if it exists.
    pub fn position(&self, index: usize) -> (position: Option<Position>)
        ensures
            position == if self@.alive(index as int) {
                Some(self@.units[index as int]->Some_0.position)
            } else {
                None
            },
    {
        match self.unit(index) {
            Some(unit) => Some(unit.position),
            None => None,
        }
    }

    /// Whether no unit is left.
    pub fn is_empty(&self) -> (empty: bool)
        ensures
            empty == forall|i: int| !self@.alive(i),
    {
        let mut i: usize = 0;
        while i < self.units.len()
            invariant
                i <= self.units@.len(),
                forall|j: int| 0 <= j < i ==> self.units@[j] is None,
            decreases self.units@.len() - i,
        {
            if self.units[i].is_some() {
                assert(self@.alive(i as int));
                return false;
            }
            i += 1;
        }
        true
    }

    /// Whether some unit has come lower than `limit`, as when the formation
    /// reaches the bottom of the screen.
    pub fn any_below(&self, limit: i64) -> (below: bool)
        ensures
            below == self@.below(limit as int),
    {
        let mut i: usize = 0;
        while i < self.units.len()
            invariant
                i <= self.units@.len(),
                forall|j: int|
                    0 <= j < i ==> !((#[trigger] self.units@[j]) is Some
                        && self.units@[j]->Some_0.position.y < limit),
            decreases self.units@.len() - i,
        {
            match self.units[i] {
                Some(unit) => {
                    if unit.position.y < limit {
                        assert(self@.alive(i as int));
                        return true;
                    }
                },
                None => {},
            }
            i += 1;
        }
        assert forall|j: int| self@.alive(j) implies !((#[trigger] self@.units[j])->Some_0.position.y
            < limit) by {
            assert(!(self.units@[j] is Some && self.units@[j]->Some_0.position.y < limit));
        }
        false
    }

    /// The number of outstanding tasks; none when the formation is stopped.
    pub fn outstanding(&self) -> (count: usize)
        ensures
            count == self@.outstanding(),
    {
        match &self.scheduler {
            Some(scheduler) => scheduler.outstanding(),
            None => 0,
        }
    }

    /// `InProgress` while tasks are outstanding, `Idle` otherwise.
    pub fn wave_state(&self) -> (state: WaveState)
        ensures
            state == WaveState::InProgress <==> self@.in_flight(),
            state == WaveState::Idle <==> !self@.in_flight(),
    {
        match &self.scheduler {
            Some(scheduler) => scheduler.wave_state(),
            None => WaveState::Idle,
        }
    }

    /// The direction of the next wave, while the formation runs.
    pub fn direction(&self) -> (direction: Option<Direction>)
        ensures
            direction == match self@.scheduler {
                Some(s) => Some(s.direction()),
                None => None,
            },
    {
        match &self.scheduler {
            Some(scheduler) => Some(scheduler.direction()),
            None => None,
        }
    }

    /// The scheduler, while the formation runs.
    pub fn scheduler(&self) -> (scheduler: Option<&Scheduler>)
        ensures
            scheduler is Some == self@.running(),
            scheduler matches Some(s) ==> Some(s@) == self@.scheduler,
    {
        match &self.scheduler {
            Some(scheduler) => Some(scheduler),
            None => None,
        }
    }
}

} // verus!

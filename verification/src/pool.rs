//! The pool of movement tasks of the wave in flight.
//!
//! A wave creates one task per living unit. A task holds the position the
//! unit will take and the time it waits first. The pool keeps the time that
//! has passed since the wave began; a task is due once that time reaches its
//! delay. A due task is applied and dropped; the others stay.

use vstd::prelude::*;
use crate::geometry::{Displacement, Position};
use crate::unit::{MovableUnit, Units};

verus! {

/// One pending move: which unit, after what delay, to which position.
#[derive(Clone, Copy, Debug, PartialEq, Eq, Structural)]
pub struct MovementTask {
    /// Index of the unit in the formation.
    pub unit: usize,
    /// Nanoseconds to wait from the start of the wave.
    pub delay: u64,
    /// Where the unit will be once the task is applied.
    pub target: Position,
}

/// Whether any task is outstanding.
#[derive(Clone, Copy, Debug, PartialEq, Eq, Structural)]
pub enum WaveState {
    Idle,
    InProgress,
}

/// What a [`TaskPool`] holds: the task of each unit, if it has one, and the
/// time since the wave began.
pub struct PoolState {
    pub slots: Seq<Option<MovementTask>>,
    pub waited: nat,
}

/// The task that a wave moving by `shift` creates for unit `index`.
pub open spec fn task_for(index: int, unit: MovableUnit, shift: Displacement) -> MovementTask {
    MovementTask { unit: index as usize, delay: unit.delay, target: unit.position.translated(shift) }
}

/// The number of tasks among `slots`.
pub open spec fn count_tasks(slots: Seq<Option<MovementTask>>) -> nat
    decreases slots.len(),
{
    if slots.len() == 0 {
        0
    } else {
        count_tasks(slots.drop_last()) + if slots.last() is Some {
            1nat
        } else {
            0nat
        }
    }
}

impl PoolState {
    /// Every task sits in the slot of its unit, and the clock fits 64 bits.
    pub open spec fn wf(self) -> bool {
        &&& self.waited <= u64::MAX
        &&& forall|i: int|
            0 <= i < self.slots.len() ==> (#[trigger] self.slots[i] matches Some(t) ==> t.unit == i)
    }

    /// A pool without tasks.
    pub open spec fn empty() -> PoolState {
        PoolState { slots: Seq::empty(), waited: 0 }
    }

    /// Whether unit `i` has an outstanding task.
    pub open spec fn pending(self, i: int) -> bool {
        0 <= i < self.slots.len() && self.slots[i] is Some
    }

    /// No task is outstanding.
    pub open spec fn drained(self) -> bool {
        forall|i: int| !self.pending(i)
    }

    /// The number of outstanding tasks.
    pub open spec fn outstanding(self) -> nat {
        count_tasks(self.slots)
    }

    /// Whether the task of unit `i` has waited out its delay.
    pub open spec fn due(self, i: int) -> bool {
        self.pending(i) && self.slots[i]->Some_0.delay <= self.waited
    }

    /// The pool of a wave that begins now: one task for each living unit,
    /// none for the others, and a clock at zero.
    pub open spec fn launched(units: Units, shift: Displacement) -> PoolState {
        PoolState {
            slots: Seq::new(
                units.len(),
                |i: int|
                    match units[i] {
                        Some(u) => Some(task_for(i, u, shift)),
                        None => None,
                    },
            ),
            waited: 0,
        }
    }

    /// The pool after `delta` more nanoseconds. The clock stops at the
    /// largest value it can hold, which no delay exceeds.
    pub open spec fn advanced(self, delta: nat) -> PoolState {
        PoolState {
            waited: if self.waited + delta > u64::MAX {
                u64::MAX as nat
            } else {
                self.waited + delta
            },
            ..self
        }
    }

    /// The pool without the tasks that are due.
    pub open spec fn polled(self) -> PoolState {
        PoolState {
            slots: Seq::new(
                self.slots.len(),
                |i: int|
                    if self.due(i) {
                        None
                    } else {
                        self.slots[i]
                    },
            ),
            ..self
        }
    }

    /// The units once the due tasks are applied: a living unit whose task is
    /// due stands at the task's target; every other slot is as it was.
    pub open spec fn applied_to(self, units: Units) -> Units {
        Seq::new(
            units.len(),
            |i: int|
                if self.due(i) && units[i] is Some {
                    Some(units[i]->Some_0.moved_to(self.slots[i]->Some_0.target))
                } else {
                    units[i]
                },
        )
    }
}

/// If some slot of `slots` holds a task, the count is not zero, and the
/// other way round.
pub proof fn lemma_count_zero_iff_empty(slots: Seq<Option<MovementTask>>)
    ensures
        count_tasks(slots) == 0 <==> forall|i: int| 0 <= i < slots.len() ==> slots[i] is None,
        count_tasks(slots) <= slots.len(),
    decreases slots.len(),
{
    if slots.len() > 0 {
        let front = slots.drop_last();
        lemma_count_zero_iff_empty(front);
        if count_tasks(slots) == 0 {
            assert forall|i: int| 0 <= i < slots.len() implies slots[i] is None by {
                if i < front.len() {
                    assert(front[i] is None);
                }
            }
        } else if slots.last() is None {
            let i = choose|i: int| 0 <= i < front.len() && !(front[i] is None);
            assert(!(slots[i] is None));
        }
    }
}

/// The tasks of the wave in flight, one slot per unit, and the time since
/// the wave began.
pub struct TaskPool {
    slots: Vec<Option<MovementTask>>,
    waited: u64,
}

impl View for TaskPool {
    type V = PoolState;

    closed spec fn view(&self) -> PoolState {
        PoolState { slots: self.slots@, waited: self.waited as nat }
    }
}

impl TaskPool {
    #[verifier::type_invariant]
    pub open spec fn inv(self) -> bool {
        self@.wf()
    }

    /// A pool without tasks.
    pub fn new() -> (pool: TaskPool)
        ensures
            pool@ == PoolState::empty(),
    {
        TaskPool { slots: Vec::new(), waited: 0 }
    }

    /// Whether no task is outstanding.
    pub fn is_drained(&self) -> (drained: bool)
        ensures
            drained == self@.drained(),
    {
        let mut i: usize = 0;
        while i < self.slots.len()
            invariant
                i <= self.slots@.len(),
                forall|j: int| 0 <= j < i ==> self.slots@[j] is None,
            decreases self.slots@.len() - i,
        {
            if self.slots[i].is_some() {
                assert(self@.pending(i as int));
                return false;
            }
            i += 1;
        }
        true
    }

    /// The number of outstanding tasks.
    pub fn outstanding(&self) -> (count: usize)
        ensures
            count == self@.outstanding(),
            count == 0 <==> self@.drained(),
    {
        let mut count: usize = 0;
        let mut i: usize = 0;
        while i < self.slots.len()
            invariant
                i <= self.slots@.len(),
                count <= i,
                count == count_tasks(self.slots@.take(i as int)),
            decreases self.slots@.len() - i,
        {
            assert(self.slots@.take(i + 1).drop_last() =~= self.slots@.take(i as int));
            if self.slots[i].is_some() {
                count += 1;
            }
            i += 1;
        }
        proof {
            assert(self.slots@.take(i as int) =~= self.slots@);
            lemma_count_zero_iff_empty(self.slots@);
            if self@.drained() {
                assert forall|j: int| 0 <= j < self.slots@.len() implies self.slots@[j] is None by {
                    assert(!self@.pending(j));
                }
            }
        }
        count
    }

    /// `Idle` when no task is outstanding, `InProgress` otherwise.
    pub fn wave_state(&self) -> (state: WaveState)
        ensures
            state == WaveState::Idle <==> self@.drained(),
            state == WaveState::InProgress <==> !self@.drained(),
    {
        if self.is_drained() {
            WaveState::Idle
        } else {
            WaveState::InProgress
        }
    }

    /// Nanoseconds since the wave in flight began.
    pub fn waited(&self) -> (waited: u64)
        ensures
            waited == self@.waited,
    {
        self.waited
    }

    /// The outstanding task of unit `index`, if it has one.
    pub fn task(&self, index: usize) -> (task: Option<MovementTask>)
        ensures
            task == if self@.pending(index as int) {
                self@.slots[index as int]
            } else {
                None
            },
            task matches Some(t) ==> t.unit == index,
    {
        proof {
            use_type_invariant(self);
        }
        if index < self.slots.len() {
            self.slots[index]
        } else {
            None
        }
    }

    /// Begins a wave: every living unit gets a task that moves it by `shift`
    /// after the unit's own delay. Tasks of an earlier wave are dropped.
    pub fn launch(&mut self, units: &Vec<Option<MovableUnit>>, shift: Displacement)
        ensures
            final(self)@ == PoolState::launched(units@, shift),
    {
        proof {
            use_type_invariant(&*self);
        }
        let mut slots: Vec<Option<MovementTask>> = Vec::new();
        let mut i: usize = 0;
        while i < units.len()
            invariant
                i <= units@.len(),
                slots@.len() == i,
                forall|j: int|
                    0 <= j < i ==> slots@[j] == PoolState::launched(units@, shift).slots[j],
            decreases units@.len() - i,
        {
            let slot: Option<MovementTask> = match units[i] {
                Some(u) => Some(
                    MovementTask { unit: i, delay: u.delay, target: u.position.translate(shift) },
                ),
                None => None,
            };
            slots.push(slot);
            i += 1;
        }
        assert(slots@ =~= PoolState::launched(units@, shift).slots);
        self.waited = 0;
        self.slots = slots;
    }

    /// Lets `delta` nanoseconds pass for the wave in flight.
    pub fn advance(&mut self, delta: u64)
        ensures
            final(self)@ == old(self)@.advanced(delta as nat),
    {
        proof {
            use_type_invariant(&*self);
        }
        self.waited = self.waited.saturating_add(delta);
    }

    /// Applies and drops every task that is due. The task of a unit that no
    /// longer exists is dropped without effect. Tasks that are not due stay.
    pub fn poll(&mut self, units: &mut Vec<Option<MovableUnit>>)
        ensures
            final(self)@ == old(self)@.polled(),
            final(units)@ == old(self)@.applied_to(old(units)@),
    {
        proof {
            use_type_invariant(&*self);
        }
        let ghost before = self@;
        let ghost units_before = units@;
        let waited: u64 = self.waited;
        let mut slots: Vec<Option<MovementTask>> = Vec::new();
        core::mem::swap(&mut self.slots, &mut slots);
        let n: usize = slots.len();
        let mut i: usize = 0;
        while i < n
            invariant
                i <= n,
                n == slots@.len(),
                before.slots.len() == n,
                waited == before.waited,
                units@.len() == units_before.len(),
                forall|j: int| 0 <= j < i ==> slots@[j] == before.polled().slots[j],
                forall|j: int| i <= j < n ==> slots@[j] == before.slots[j],
                forall|j: int|
                    0 <= j < units@.len() ==> units@[j] == if j < i {
                        before.applied_to(units_before)[j]
                    } else {
                        units_before[j]
                    },
            decreases n - i,
        {
            match slots[i] {
                Some(task) => {
                    if task.delay <= waited {
                        if i < units.len() {
                            match units[i] {
                                Some(unit) => {
                                    units[i] = Some(
                                        MovableUnit { position: task.target, ..unit },
                                    );
                                },
                                None => {},
                            }
                        }
                        slots[i] = None;
                    }
                },
                None => {},
            }
            i += 1;
        }
        assert(slots@ =~= before.polled().slots);
        self.slots = slots;
        assert(units@ =~= before.applied_to(units_before));
    }
}

} // verus!

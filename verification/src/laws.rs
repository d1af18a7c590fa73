//! What holds of a formation over any number of frames.
//!
//! The statements here speak of [`FormationState`], the plain value that a
//! [`Formation`](crate::formation::Formation) stands for, and of
//! [`FormationState::updated`], the state that its `update` leaves.

use vstd::prelude::*;
use crate::direction::{sequence, SEQUENCE_LEN};
use crate::formation::{unit_at, Config, FormationState};
use crate::unit::Placement;
use crate::pool::{task_for, PoolState};
use crate::scheduler::SchedulerState;

verus! {

/// The formation after the frames `deltas`, one after the other.
pub open spec fn after_frames(s: FormationState, deltas: Seq<nat>) -> FormationState
    decreases deltas.len(),
{
    if deltas.len() == 0 {
        s
    } else {
        after_frames(s, deltas.drop_last()).updated(deltas.last())
    }
}

/// The number of frames among `deltas` in which a wave started.
pub open spec fn waves_started(s: FormationState, deltas: Seq<nat>) -> nat
    decreases deltas.len(),
{
    if deltas.len() == 0 {
        0
    } else {
        let before = after_frames(s, deltas.drop_last());
        waves_started(s, deltas.drop_last()) + if before.launches(deltas.last()) {
            1nat
        } else {
            0nat
        }
    }
}

/// Every frame of `deltas` began with a task outstanding: one wave was in
/// flight throughout.
pub open spec fn in_flight_through(s: FormationState, deltas: Seq<nat>) -> bool {
    forall|k: int| 0 <= k < deltas.len() ==> (#[trigger] after_frames(s, deltas.take(k))).in_flight()
}

/// The task pool of a running formation.
pub open spec fn pool_of(s: FormationState) -> PoolState {
    s.scheduler->Some_0.pool
}

/// The scheduler of a running formation.
pub open spec fn scheduler_of(s: FormationState) -> SchedulerState {
    s.scheduler->Some_0
}

/// A formation that has just started is well-formed and at rest: every unit
/// exists, stands where it was placed and has the delay of its grid cell,
/// no task is outstanding, the timer is at zero and the pattern at its
/// beginning.
pub proof fn lemma_started_at_rest(placements: Seq<Placement>, config: Config)
    requires
        config.accepts(placements),
        placements.len() <= usize::MAX,
    ensures
        FormationState::started(placements, config).wf(),
        FormationState::started(placements, config).running(),
        !FormationState::started(placements, config).in_flight(),
        FormationState::started(placements, config).outstanding() == 0,
        scheduler_of(FormationState::started(placements, config)).direction() == sequence()[0],
        forall|i: int|
            0 <= i < placements.len() ==> #[trigger] FormationState::started(
                placements,
                config,
            ).units[i] == Some(unit_at(placements[i], config.policy)),
{
    reveal_with_fuel(crate::pool::count_tasks, 1);
}

/// Destroying a unit keeps a well-formed formation well-formed and touches
/// neither the scheduler nor any other unit.
pub proof fn lemma_without_unit_keeps_shape(s: FormationState, index: int)
    requires
        s.wf(),
    ensures
        s.without_unit(index).wf(),
        s.without_unit(index).scheduler == s.scheduler,
        !s.without_unit(index).alive(index),
        forall|j: int| j != index ==> s.without_unit(index).alive(j) == s.alive(j),
        forall|j: int|
            0 <= j < s.units.len() && j != index ==> #[trigger] s.without_unit(index).units[j]
                == s.units[j],
{
}

/// A frame keeps a well-formed formation well-formed, a running one running
/// and a stopped one stopped, neither adds nor removes a unit slot, and
/// leaves the period and the step as configured.
pub proof fn lemma_update_keeps_shape(s: FormationState, delta: nat)
    requires
        s.wf(),
    ensures
        s.updated(delta).wf(),
        s.updated(delta).running() == s.running(),
        s.updated(delta).units.len() == s.units.len(),
        forall|i: int| s.updated(delta).alive(i) == s.alive(i),
        s.running() ==> scheduler_of(s.updated(delta)).timer.period == scheduler_of(s).timer.period
            && scheduler_of(s.updated(delta)).step == scheduler_of(s).step,
{
    if s.scheduler is Some {
        let sch = scheduler_of(s);
        let mid = sch.spawned(s.units, delta);
        if !sch.pool.drained() {
            assert(mid.wf());
        } else if sch.timer.without_pause().fires(delta) {
            assert(mid.timer.elapsed < mid.timer.period) by (nonlinear_arith)
                requires
                    mid.timer.elapsed == (sch.timer.elapsed + delta) % sch.timer.period,
                    mid.timer.period == sch.timer.period,
                    sch.timer.period > 0,
            ;
            assert(mid.pool.wf());
            assert(mid.wf());
        } else {
            assert(mid.wf());
        }
        assert(mid.handled().wf());
    }
}

/// The same over any number of frames.
pub proof fn lemma_frames_keep_shape(s: FormationState, deltas: Seq<nat>)
    requires
        s.wf(),
    ensures
        after_frames(s, deltas).wf(),
        after_frames(s, deltas).running() == s.running(),
        after_frames(s, deltas).units.len() == s.units.len(),
        forall|i: int| after_frames(s, deltas).alive(i) == s.alive(i),
        s.running() ==> scheduler_of(after_frames(s, deltas)).timer.period == scheduler_of(
            s,
        ).timer.period && scheduler_of(after_frames(s, deltas)).step == scheduler_of(s).step,
    decreases deltas.len(),
{
    if deltas.len() > 0 {
        lemma_frames_keep_shape(s, deltas.drop_last());
        lemma_update_keeps_shape(after_frames(s, deltas.drop_last()), deltas.last());
    }
}

/// While a task is outstanding no wave starts, however long the frame: the
/// direction cursor stays, the timer is held paused at zero, and every task
/// in the pool afterwards was in it before.
pub proof fn lemma_no_wave_while_outstanding(s: FormationState, delta: nat)
    requires
        s.wf(),
        s.in_flight(),
    ensures
        !s.launches(delta),
        scheduler_of(s.updated(delta)).cursor == scheduler_of(s).cursor,
        scheduler_of(s.updated(delta)).timer.paused,
        scheduler_of(s.updated(delta)).timer.elapsed == 0,
        forall|i: int|
            pool_of(s.updated(delta)).pending(i) ==> pool_of(s).pending(i) && pool_of(
                s.updated(delta),
            ).slots[i] == pool_of(s).slots[i],
{
}

/// A task that is in the pool after a frame and was not in it before belongs
/// to a wave that this frame started, and the frame began with an empty pool.
/// So the tasks in the pool never belong to more than one wave.
pub proof fn lemma_new_task_needs_empty_pool(s: FormationState, delta: nat, i: int)
    requires
        s.wf(),
        s.running(),
        pool_of(s.updated(delta)).pending(i),
        !(pool_of(s).pending(i) && pool_of(s.updated(delta)).slots[i] == pool_of(s).slots[i]),
    ensures
        !s.in_flight(),
        s.launches(delta),
{
}

/// At most one wave is in flight. Over any frames that each began with a
/// task outstanding, of whatever lengths, no wave started: the direction
/// cursor is where it was, and every task still in the pool is one of those
/// that were in it at the beginning.
pub proof fn lemma_at_most_one_wave(s: FormationState, deltas: Seq<nat>)
    requires
        s.wf(),
        s.running(),
        in_flight_through(s, deltas),
    ensures
        after_frames(s, deltas).running(),
        waves_started(s, deltas) == 0,
        scheduler_of(after_frames(s, deltas)).cursor == scheduler_of(s).cursor,
        forall|i: int|
            pool_of(after_frames(s, deltas)).pending(i) ==> pool_of(s).pending(i) && pool_of(
                after_frames(s, deltas),
            ).slots[i] == pool_of(s).slots[i],
        deltas.len() > 0 ==> scheduler_of(after_frames(s, deltas)).timer.elapsed == 0,
    decreases deltas.len(),
{
    if deltas.len() > 0 {
        let front = deltas.drop_last();
        assert forall|k: int| 0 <= k < front.len() implies (#[trigger] after_frames(
            s,
            front.take(k),
        )).in_flight() by {
            assert(front.take(k) =~= deltas.take(k));
        }
        lemma_at_most_one_wave(s, front);
        lemma_frames_keep_shape(s, front);
        assert(deltas.take(front.len() as int) =~= front);
        lemma_no_wave_while_outstanding(after_frames(s, front), deltas.last());
    }
}

/// The sum of `deltas`.
pub open spec fn total(deltas: Seq<nat>) -> nat
    decreases deltas.len(),
{
    if deltas.len() == 0 {
        0
    } else {
        total(deltas.drop_last()) + deltas.last()
    }
}

/// What the pool's clock shows `passed` nanoseconds after it showed
/// `waited`: it stops at the largest value 64 bits can hold.
pub open spec fn clock_after(waited: nat, passed: nat) -> nat {
    if waited + passed > u64::MAX {
        u64::MAX as nat
    } else {
        waited + passed
    }
}

/// The course of a wave in flight. After frames that each began with a task
/// outstanding, the wave has waited the sum of their lengths; a task is
/// still in the pool exactly if its delay exceeds that time; and a unit has
/// moved to its task's target exactly if it exists and its task has left the
/// pool. Nothing else has changed.
pub proof fn lemma_wave_progress(s: FormationState, deltas: Seq<nat>)
    requires
        s.wf(),
        s.running(),
        in_flight_through(s, deltas),
        deltas.len() > 0,
    ensures
        pool_of(after_frames(s, deltas)).waited == clock_after(pool_of(s).waited, total(deltas)),
        pool_of(after_frames(s, deltas)).slots.len() == pool_of(s).slots.len(),
        forall|i: int|
            pool_of(after_frames(s, deltas)).pending(i) <==> pool_of(s).pending(i) && pool_of(
                s,
            ).slots[i]->Some_0.delay > pool_of(after_frames(s, deltas)).waited,
        forall|i: int|
            0 <= i < s.units.len() ==> #[trigger] after_frames(s, deltas).units[i] == if s.alive(i)
                && pool_of(s).pending(i) && !pool_of(after_frames(s, deltas)).pending(i) {
                Some(s.units[i]->Some_0.moved_to(pool_of(s).slots[i]->Some_0.target))
            } else {
                s.units[i]
            },
    decreases deltas.len(),
{
    let front = deltas.drop_last();
    assert forall|k: int| 0 <= k < front.len() implies (#[trigger] after_frames(
        s,
        front.take(k),
    )).in_flight() by {
        assert(front.take(k) =~= deltas.take(k));
    }
    assert(deltas.take(front.len() as int) =~= front);
    let mid = after_frames(s, front);
    lemma_frames_keep_shape(s, front);
    lemma_at_most_one_wave(s, front);
    assert(mid.in_flight());
    if front.len() > 0 {
        lemma_wave_progress(s, front);
    }
}

/// Within a wave, a unit with a smaller delay moves no later than one with
/// a larger delay: while the first still waits, so does the second. This
/// holds whichever policy gave the units their delays.
pub proof fn lemma_stagger_order(s: FormationState, deltas: Seq<nat>, a: int, b: int)
    requires
        s.wf(),
        s.running(),
        in_flight_through(s, deltas),
        pool_of(s).pending(a),
        pool_of(s).pending(b),
        pool_of(s).slots[a]->Some_0.delay <= pool_of(s).slots[b]->Some_0.delay,
    ensures
        pool_of(after_frames(s, deltas)).pending(a) ==> pool_of(after_frames(s, deltas)).pending(b),
{
    if deltas.len() > 0 {
        lemma_wave_progress(s, deltas);
    }
}

/// Between waves the timer counts every frame in full. Over frames that
/// begin with no task outstanding and together do not fill the period, no
/// wave starts, no unit moves, and the timer holds what it held plus the sum
/// of the frames. So a wave starts in the first frame that fills the period,
/// counted from the frame after the last task of the wave before was
/// applied.
pub proof fn lemma_idle_frames_accumulate(s: FormationState, deltas: Seq<nat>)
    requires
        s.wf(),
        s.running(),
        !s.in_flight(),
        scheduler_of(s).timer.elapsed + total(deltas) < scheduler_of(s).timer.period,
    ensures
        after_frames(s, deltas).running(),
        !after_frames(s, deltas).in_flight(),
        waves_started(s, deltas) == 0,
        after_frames(s, deltas).units == s.units,
        scheduler_of(after_frames(s, deltas)).cursor == scheduler_of(s).cursor,
        scheduler_of(after_frames(s, deltas)).timer.elapsed == scheduler_of(s).timer.elapsed
            + total(deltas),
        forall|delta: nat|
            after_frames(s, deltas).launches(delta) <==> scheduler_of(s).timer.elapsed + total(
                deltas,
            ) + delta >= scheduler_of(s).timer.period,
    decreases deltas.len(),
{
    if deltas.len() > 0 {
        let front = deltas.drop_last();
        lemma_idle_frames_accumulate(s, front);
        lemma_frames_keep_shape(s, front);
        let mid = after_frames(s, front);
        let after = mid.updated(deltas.last());
        assert(!mid.launches(deltas.last()));
        assert forall|i: int| !pool_of(after).pending(i) by {
            assert(!pool_of(mid).pending(i));
        }
        assert(after.units =~= mid.units);
        assert(pool_of(after).drained());
    }
    let last = after_frames(s, deltas);
    lemma_frames_keep_shape(s, deltas);
    assert(pool_of(last).drained());
    assert forall|delta: nat|
        last.launches(delta) <==> scheduler_of(s).timer.elapsed + total(deltas) + delta
            >= scheduler_of(s).timer.period by {
        assert(last.launches(delta) == scheduler_of(last).timer.without_pause().fires(delta));
    }
}

/// The frame that starts a wave. The cursor advances by one place. Every
/// existing unit gets a task that moves it one step in the direction the
/// cursor pointed at; a unit without delay has moved already, the others
/// wait with their task in the pool.
pub proof fn lemma_launch(s: FormationState, delta: nat)
    requires
        s.wf(),
        s.launches(delta),
    ensures
        !s.in_flight(),
        scheduler_of(s.updated(delta)).cursor == (scheduler_of(s).cursor + 1) % (
        SEQUENCE_LEN as int),
        pool_of(s.updated(delta)).waited == 0,
        forall|i: int|
            pool_of(s.updated(delta)).pending(i) <==> s.alive(i) && s.units[i]->Some_0.delay > 0,
        forall|i: int|
            pool_of(s.updated(delta)).pending(i) ==> #[trigger] pool_of(
                s.updated(delta),
            ).slots[i] == Some(
                task_for(
                    i,
                    s.units[i]->Some_0,
                    sequence()[scheduler_of(s).cursor].vector(scheduler_of(s).step),
                ),
            ),
        forall|i: int|
            0 <= i < s.units.len() ==> #[trigger] s.updated(delta).units[i] == if s.alive(i)
                && s.units[i]->Some_0.delay == 0 {
                Some(
                    s.units[i]->Some_0.moved_to(
                        s.units[i]->Some_0.position.translated(
                            sequence()[scheduler_of(s).cursor].vector(scheduler_of(s).step),
                        ),
                    ),
                )
            } else {
                s.units[i]
            },
{
}

/// Stagger order over a whole wave, from the frame that starts it: of two
/// existing units, the one with the smaller delay moves no later than the
/// other.
pub proof fn lemma_stagger_order_from_launch(
    s: FormationState,
    first: nat,
    rest: Seq<nat>,
    a: int,
    b: int,
)
    requires
        s.wf(),
        s.launches(first),
        s.alive(a),
        s.alive(b),
        s.units[a]->Some_0.delay <= s.units[b]->Some_0.delay,
        in_flight_through(s.updated(first), rest),
    ensures
        pool_of(after_frames(s.updated(first), rest)).pending(a) ==> pool_of(
            after_frames(s.updated(first), rest),
        ).pending(b),
{
    lemma_launch(s, first);
    lemma_update_keeps_shape(s, first);
    let launched = s.updated(first);
    if rest.len() > 0 {
        lemma_wave_progress(launched, rest);
    }
}

/// The direction cursor counts the waves: after any frames it stands as many
/// places further in the pattern as waves have started.
pub proof fn lemma_cursor_counts_waves(s: FormationState, deltas: Seq<nat>)
    requires
        s.wf(),
        s.running(),
    ensures
        after_frames(s, deltas).running(),
        scheduler_of(after_frames(s, deltas)).cursor == (scheduler_of(s).cursor + waves_started(
            s,
            deltas,
        )) % (SEQUENCE_LEN as int),
    decreases deltas.len(),
{
    lemma_frames_keep_shape(s, deltas);
    if deltas.len() > 0 {
        let front = deltas.drop_last();
        lemma_cursor_counts_waves(s, front);
        lemma_frames_keep_shape(s, front);
    }
}

/// Direction cycling: after as many waves as the pattern is long, or a
/// multiple of that, the direction is what it was; and after `k` waves it is
/// the direction `k` places further in the pattern.
pub proof fn lemma_direction_cycle(s: FormationState, deltas: Seq<nat>)
    requires
        s.wf(),
        s.running(),
    ensures
        scheduler_of(after_frames(s, deltas)).direction() == sequence()[(scheduler_of(s).cursor
            + waves_started(s, deltas)) % (SEQUENCE_LEN as int)],
        waves_started(s, deltas) % SEQUENCE_LEN as nat == 0 ==> scheduler_of(
            after_frames(s, deltas),
        ).direction() == scheduler_of(s).direction(),
{
    lemma_cursor_counts_waves(s, deltas);
}

/// Teardown: a stopped formation has no task left, and no frame, however
/// many follow, moves a unit or changes anything else.
pub proof fn lemma_stop_is_final(s: FormationState, deltas: Seq<nat>)
    ensures
        s.stopped().outstanding() == 0,
        s.stopped().units == s.units,
        s.stopped().stopped() == s.stopped(),
        after_frames(s.stopped(), deltas) == s.stopped(),
    decreases deltas.len(),
{
    if deltas.len() > 0 {
        lemma_stop_is_final(s, deltas.drop_last());
    }
}

/// A unit destroyed while its task waits: in the next frame nothing is
/// applied for it, every other unit fares as if it were still there, and
/// the scheduler, the timer and the pool with it, goes the same way.
pub proof fn lemma_destroyed_unit(s: FormationState, victim: int, delta: nat)
    requires
        s.wf(),
        s.running(),
        pool_of(s).pending(victim),
    ensures
        !s.without_unit(victim).updated(delta).alive(victim),
        s.without_unit(victim).updated(delta).scheduler == s.updated(delta).scheduler,
        s.without_unit(victim).updated(delta).units.len() == s.updated(delta).units.len(),
        forall|j: int|
            0 <= j < s.units.len() && j != victim ==> #[trigger] s.without_unit(victim).updated(
                delta,
            ).units[j] == s.updated(delta).units[j],
{
}

} // verus!

//! Movement directions and the cyclic order in which waves take them.

use vstd::prelude::*;
use crate::geometry::{Displacement, Step};

verus! {

/// A direction in which a wave moves the formation.
#[derive(Clone, Copy, Debug, PartialEq, Eq, Structural)]
pub enum Direction {
    Left,
    Right,
    Down,
}

/// Number of waves after which the direction pattern repeats.
pub const SEQUENCE_LEN: usize = 6;

/// The zig-zag that the formation follows: one step right, down, two steps
/// left, down, one step right, and again.
pub open spec fn sequence() -> Seq<Direction> {
    seq![
        Direction::Right,
        Direction::Down,
        Direction::Left,
        Direction::Left,
        Direction::Down,
        Direction::Right,
    ]
}

/// The direction at place `idx` of the pattern.
pub fn direction_at(idx: usize) -> (d: Direction)
    requires
        idx < SEQUENCE_LEN,
    ensures
        d == sequence()[idx as int],
{
    if idx == 0 || idx == 5 {
        Direction::Right
    } else if idx == 1 || idx == 4 {
        Direction::Down
    } else {
        Direction::Left
    }
}

impl Direction {
    /// Left is `(-dx, 0)`, right is `(dx, 0)` and down is `(0, -dy)`.
    pub open spec fn vector(self, step: Step) -> Displacement {
        match self {
            Direction::Left => Displacement { dx: -(step.dx as int) as i64, dy: 0 },
            Direction::Right => Displacement { dx: step.dx as i64, dy: 0 },
            Direction::Down => Displacement { dx: 0, dy: -(step.dy as int) as i64 },
        }
    }

    /// The shift that a wave in this direction applies.
    pub fn displacement(self, step: Step) -> (d: Displacement)
        ensures
            d == self.vector(step),
            self == Direction::Left ==> d.dx == -step.dx && d.dy == 0,
            self == Direction::Right ==> d.dx == step.dx && d.dy == 0,
            self == Direction::Down ==> d.dx == 0 && d.dy == -step.dy,
    {
        let dx: i64 = step.dx as i64;
        let dy: i64 = step.dy as i64;
        match self {
            Direction::Left => Displacement { dx: -dx, dy: 0 },
            Direction::Right => Displacement { dx, dy: 0 },
            Direction::Down => Displacement { dx: 0, dy: -dy },
        }
    }
}

/// The sum of the shifts of `count` waves in a row, the first of them in
/// the direction at place `from` of the pattern.
pub open spec fn net_shift(from: int, count: nat, step: Step) -> (int, int)
    decreases count,
{
    if count == 0 {
        (0, 0)
    } else {
        let first = sequence()[from % (SEQUENCE_LEN as int)].vector(step);
        let rest = net_shift(from + 1, (count - 1) as nat, step);
        (first.dx + rest.0, first.dy + rest.1)
    }
}

/// The pattern is a zig-zag that sinks: it never goes down twice in a row,
/// and over one round, wherever the round begins, the steps sideways cancel
/// and the formation ends two steps lower.
pub proof fn lemma_pattern_sinks(from: int, step: Step)
    requires
        0 <= from < SEQUENCE_LEN,
    ensures
        sequence().len() == SEQUENCE_LEN,
        !(sequence()[from] == Direction::Down && sequence()[(from + 1) % (SEQUENCE_LEN as int)]
            == Direction::Down),
        net_shift(from, SEQUENCE_LEN as nat, step) == (0int, -2 * step.dy),
{
    reveal_with_fuel(net_shift, 7);
}

/// The cursor into the direction pattern. It advances once per wave.
pub struct DirectionSequencer {
    idx: usize,
}

impl DirectionSequencer {
    /// The place in the pattern that the cursor points at.
    pub closed spec fn cursor(self) -> int {
        self.idx as int
    }

    #[verifier::type_invariant]
    pub open spec fn inv(self) -> bool {
        0 <= self.cursor() < SEQUENCE_LEN
    }

    /// A cursor at the start of the pattern.
    pub fn new() -> (s: DirectionSequencer)
        ensures
            s.cursor() == 0,
    {
        DirectionSequencer { idx: 0 }
    }

    /// The direction of the next wave.
    pub fn current(&self) -> (d: Direction)
        ensures
            0 <= self.cursor() < SEQUENCE_LEN,
            d == sequence()[self.cursor()],
    {
        proof {
            use_type_invariant(self);
        }
        direction_at(self.idx)
    }

    /// Moves the cursor to the next place, wrapping at the end.
    pub fn advance(&mut self)
        ensures
            final(self).cursor() == (old(self).cursor() + 1) % (SEQUENCE_LEN as int),
    {
        proof {
            use_type_invariant(&*self);
        }
        self.idx = (self.idx + 1) % SEQUENCE_LEN;
    }
}

} // verus!

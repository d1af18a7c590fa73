//! Positions on the playfield and the steps a wave applies to them.

use vstd::prelude::*;

verus! {

/// A point of the playfield, in fixed-point layout units.
#[derive(Clone, Copy, Debug, PartialEq, Eq, Structural)]
pub struct Position {
    pub x: i64,
    pub y: i64,
}

/// The shift that one wave applies to every unit.
#[derive(Clone, Copy, Debug, PartialEq, Eq, Structural)]
pub struct Displacement {
    pub dx: i64,
    pub dy: i64,
}

/// How far a wave moves the formation sideways (`dx`) and downwards (`dy`).
#[derive(Clone, Copy, Debug, PartialEq, Eq, Structural)]
pub struct Step {
    pub dx: u32,
    pub dy: u32,
}

/// The coordinate nearest to `v` that an `i64` can hold.
pub open spec fn clamp_coordinate(v: int) -> i64 {
    if v < i64::MIN {
        i64::MIN
    } else if v > i64::MAX {
        i64::MAX
    } else {
        v as i64
    }
}

/// Adds `d` to `v`, stopping at the ends of the coordinate range.
fn shift_coordinate(v: i64, d: i64) -> (r: i64)
    ensures
        r == clamp_coordinate(v + d),
{
    match v.checked_add(d) {
        Some(s) => s,
        None => if d < 0 {
            i64::MIN
        } else {
            i64::MAX
        },
    }
}

impl Position {
    /// This position moved by `by`; a coordinate that would leave the `i64`
    /// range stays at the end of the range.
    pub open spec fn translated(self, by: Displacement) -> Position {
        Position {
            x: clamp_coordinate(self.x + by.dx),
            y: clamp_coordinate(self.y + by.dy),
        }
    }

    pub fn new(x: i64, y: i64) -> (p: Position)
        ensures
            p == (Position { x, y }),
    {
        Position { x, y }
    }

    /// Moves the position by `by`.
    pub fn translate(self, by: Displacement) -> (moved: Position)
        ensures
            moved == self.translated(by),
            i64::MIN <= self.x + by.dx <= i64::MAX ==> moved.x == self.x + by.dx,
            i64::MIN <= self.y + by.dy <= i64::MAX ==> moved.y == self.y + by.dy,
    {
        Position { x: shift_coordinate(self.x, by.dx), y: shift_coordinate(self.y, by.dy) }
    }
}

impl Step {
    /// The step of a layout whose cells are `cell_width` by `cell_height`:
    /// a quarter of a cell sideways and half a cell downwards.
    pub open spec fn of_cell(cell_width: u32, cell_height: u32) -> Step {
        Step { dx: (cell_width / 4) as u32, dy: (cell_height / 2) as u32 }
    }

    pub fn from_cell(cell_width: u32, cell_height: u32) -> (step: Step)
        ensures
            step == Step::of_cell(cell_width, cell_height),
    {
        Step { dx: cell_width / 4, dy: cell_height / 2 }
    }
}

} // verus!

//! The units of a formation.

use vstd::prelude::*;
use crate::geometry::Position;

verus! {

/// Where a unit stands when the formation starts.
#[derive(Clone, Copy, Debug, PartialEq, Eq, Structural)]
pub struct Placement {
    pub row: u32,
    pub column: u32,
    pub position: Position,
}

/// A unit of the formation: its place in the grid, where it is now, and how
/// long it waits within a wave before it moves.
///
/// A unit is known by its index in the formation, which never changes.
#[derive(Clone, Copy, Debug, PartialEq, Eq, Structural)]
pub struct MovableUnit {
    pub row: u32,
    pub column: u32,
    pub position: Position,
    /// Nanoseconds between the start of a wave and this unit's move.
    pub delay: u64,
}

impl MovableUnit {
    /// This unit at another position.
    pub open spec fn moved_to(self, position: Position) -> MovableUnit {
        MovableUnit { position, ..self }
    }
}

/// The units of a formation by index. A destroyed unit leaves `None`.
pub type Units = Seq<Option<MovableUnit>>;

} // verus!

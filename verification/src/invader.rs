//! The kinds of invaders and how the rows of the grid are filled with them.

use vstd::prelude::*;

verus! {

/// Rows of the board that hold invaders when a level starts.
pub const ROWS_TO_POPULATE: usize = 5;

/// Rows of the board left free above the invaders.
pub const ROWS_TO_SKIP: usize = 2;

/// Number of invader kinds.
pub const KINDS: usize = 3;

/// An invader's kind and which of its two sprites it shows.
#[derive(Clone, Copy, Debug, PartialEq, Eq, Structural)]
pub enum Type {
    Squid1,
    Squid2,
    Crab1,
    Crab2,
    Octopus1,
    Octopus2,
}

/// What the invaders of one kind share.
#[derive(Clone, Copy, Debug, PartialEq, Eq, Structural)]
pub struct Kind {
    /// The sprite shown first.
    pub sprite: Type,
    pub width: u32,
    pub height: u32,
    /// Points scored for destroying one.
    pub points: usize,
}

impl Type {
    /// The other sprite of the same kind.
    pub open spec fn flipped(self) -> Type {
        match self {
            Type::Squid1 => Type::Squid2,
            Type::Squid2 => Type::Squid1,
            Type::Crab1 => Type::Crab2,
            Type::Crab2 => Type::Crab1,
            Type::Octopus1 => Type::Octopus2,
            Type::Octopus2 => Type::Octopus1,
        }
    }

    /// The sprite to show after a move: the other one of the same kind.
    pub fn next(self) -> (other: Type)
        ensures
            other == self.flipped(),
            other != self,
            other.flipped() == self,
    {
        match self {
            Type::Squid1 => Type::Squid2,
            Type::Squid2 => Type::Squid1,
            Type::Crab1 => Type::Crab2,
            Type::Crab2 => Type::Crab1,
            Type::Octopus1 => Type::Octopus2,
            Type::Octopus2 => Type::Octopus1,
        }
    }

    /// Where the sprite's image lies among the assets.
    pub fn asset_path(self) -> (path: &'static str)
        ensures
            path@ == match self {
                Type::Squid1 => "sprites/invaders/squid_1.png"@,
                Type::Squid2 => "sprites/invaders/squid_2.png"@,
                Type::Crab1 => "sprites/invaders/crab_1.png"@,
                Type::Crab2 => "sprites/invaders/crab_2.png"@,
                Type::Octopus1 => "sprites/invaders/octopus_1.png"@,
                Type::Octopus2 => "sprites/invaders/octopus_2.png"@,
            },
    {
        match self {
            Type::Squid1 => "sprites/invaders/squid_1.png",
            Type::Squid2 => "sprites/invaders/squid_2.png",
            Type::Crab1 => "sprites/invaders/crab_1.png",
            Type::Crab2 => "sprites/invaders/crab_2.png",
            Type::Octopus1 => "sprites/invaders/octopus_1.png",
            Type::Octopus2 => "sprites/invaders/octopus_2.png",
        }
    }
}

/// The kinds from the top of the grid down: squids, crabs, octopuses.
pub open spec fn kinds() -> Seq<Kind> {
    seq![
        Kind { sprite: Type::Squid1, width: 16, height: 16, points: 30 },
        Kind { sprite: Type::Crab1, width: 22, height: 16, points: 20 },
        Kind { sprite: Type::Octopus1, width: 24, height: 16, points: 10 },
    ]
}

/// The kind of the given group.
pub fn get_type(grouping: usize) -> (kind: Kind)
    requires
        grouping < KINDS,
    ensures
        kind == kinds()[grouping as int],
{
    if grouping == 0 {
        Kind { sprite: Type::Squid1, width: 16, height: 16, points: 30 }
    } else if grouping == 1 {
        Kind { sprite: Type::Crab1, width: 22, height: 16, points: 20 }
    } else {
        Kind { sprite: Type::Octopus1, width: 24, height: 16, points: 10 }
    }
}

/// The group of a populated row: two rows make one group.
pub fn group_of_row(row: usize) -> (group: usize)
    ensures
        group == row / 2,
        row < ROWS_TO_POPULATE ==> group < KINDS,
{
    row / 2
}

/// The kind of the invaders in a row, where the row is populated.
pub fn kind_of_row(row: usize) -> (kind: Option<Kind>)
    ensures
        kind == if row < ROWS_TO_POPULATE {
            Some(kinds()[row as int / 2])
        } else {
            None
        },
{
    if row < ROWS_TO_POPULATE {
        Some(get_type(group_of_row(row)))
    } else {
        None
    }
}

} // verus!

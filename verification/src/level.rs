//! Levels and their kinds.

use vstd::prelude::*;

verus! {

/// What kind of level a level is.
#[derive(Clone, Copy, Debug, PartialEq, Eq, Structural)]
pub enum Type {
    Normal,
    Boss,
    Bonus,
}

/// The number of the level being played, counted from one.
#[derive(Clone, Copy, Debug, PartialEq, Eq, Structural)]
pub struct Level(pub usize);

impl Type {
    /// Every tenth level is a bonus level, every other fifth a boss level.
    pub open spec fn of(level: Level) -> Type {
        if level.0 % 10 == 0 {
            Type::Bonus
        } else if level.0 % 5 == 0 {
            Type::Boss
        } else {
            Type::Normal
        }
    }

    /// The kind of the given level.
    pub fn from_level(level: Level) -> (kind: Type)
        ensures
            kind == Type::of(level),
    {
        if level.0 % 10 == 0 {
            Type::Bonus
        } else if level.0 % 5 == 0 {
            Type::Boss
        } else {
            Type::Normal
        }
    }

    pub fn is_normal(level: Level) -> (normal: bool)
        ensures
            normal == (Type::of(level) == Type::Normal),
    {
        Type::from_level(level) == Type::Normal
    }

    pub fn is_boss(level: Level) -> (boss: bool)
        ensures
            boss == (Type::of(level) == Type::Boss),
    {
        Type::from_level(level) == Type::Boss
    }

    pub fn is_bonus(level: Level) -> (bonus: bool)
        ensures
            bonus == (Type::of(level) == Type::Bonus),
    {
        Type::from_level(level) == Type::Bonus
    }
}

impl Level {
    /// The first level.
    pub fn first() -> (level: Level)
        ensures
            level.0 == 1,
    {
        Level(1)
    }

    /// Goes on to the next level. The last level a `usize` can count stays.
    pub fn level_up(&mut self)
        ensures
            final(self).0 == if old(self).0 < usize::MAX {
                old(self).0 + 1
            } else {
                usize::MAX as int
            },
    {
        if self.0 < usize::MAX {
            self.0 = self.0 + 1;
        }
    }
}

} // verus!

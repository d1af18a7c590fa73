//! Projectiles and the way they fly.

use vstd::prelude::*;

verus! {

/// The way a projectile flies: up from the player, down from an invader.
#[derive(Clone, Copy, Debug, PartialEq, Eq, Structural)]
pub enum Direction {
    Up,
    Down,
}

impl Direction {
    pub fn is_downwards(self) -> (down: bool)
        ensures
            down == (self == Direction::Down),
    {
        match self {
            Direction::Down => true,
            Direction::Up => false,
        }
    }

    pub fn is_upwards(self) -> (up: bool)
        ensures
            up == (self == Direction::Up),
            up == !(self == Direction::Down),
    {
        match self {
            Direction::Up => true,
            Direction::Down => false,
        }
    }
}

/// A projectile in flight.
#[derive(Clone, Copy, Debug, PartialEq, Eq, Structural)]
pub struct Projectile {
    pub direction: Direction,
}

impl Projectile {
    pub fn new(direction: Direction) -> (projectile: Projectile)
        ensures
            projectile.direction == direction,
    {
        Projectile { direction }
    }
}

} // verus!

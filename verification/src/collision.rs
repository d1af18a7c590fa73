//! What follows when two things on the playfield touch.

use vstd::prelude::*;

verus! {

/// What a thing on the playfield is, as far as collisions go.
#[derive(Clone, Copy, Debug, PartialEq, Eq, Structural)]
pub enum Party {
    Player,
    Enemy,
    PlayerShot,
    EnemyShot,
}

/// What a collision leads to.
#[derive(Clone, Copy, Debug, PartialEq, Eq, Structural)]
pub enum Outcome {
    /// The player dies.
    PlayerDeath,
    /// An enemy dies and is worth the given points.
    EnemyDeath { points: usize },
    /// Two shots hit each other.
    ShotsCollide,
}

/// The outcome of `a` touching `b`, where `a_points` and `b_points` say
/// what each is worth, if anything. A collision with the player kills the
/// player. Otherwise a collision with an enemy kills the enemy, worth what
/// the enemy is worth, or nothing where neither is worth anything. What is
/// left is two shots.
pub open spec fn outcome_of(
    a: Party,
    a_points: Option<usize>,
    b: Party,
    b_points: Option<usize>,
) -> Outcome {
    if a == Party::Player || b == Party::Player {
        Outcome::PlayerDeath
    } else if a == Party::Enemy || b == Party::Enemy {
        Outcome::EnemyDeath {
            points: match (a_points, b_points) {
                (Some(p), None) => p,
                (None, Some(p)) => p,
                _ => 0,
            },
        }
    } else {
        Outcome::ShotsCollide
    }
}

/// Decides what a collision leads to. Two enemies never collide, so where
/// an enemy is involved at most one side is worth points.
pub fn outcome(a: Party, a_points: Option<usize>, b: Party, b_points: Option<usize>) -> (result:
    Outcome)
    requires
        (a == Party::Enemy || b == Party::Enemy) && a != Party::Player && b != Party::Player ==> !(
        a_points is Some && b_points is Some),
    ensures
        result == outcome_of(a, a_points, b, b_points),
{
    match (a, b) {
        (Party::Player, _) | (_, Party::Player) => Outcome::PlayerDeath,
        (Party::Enemy, _) | (_, Party::Enemy) => {
            let points: usize = match (a_points, b_points) {
                (Some(p), None) => p,
                (None, Some(p)) => p,
                _ => 0,
            };
            Outcome::EnemyDeath { points }
        },
        _ => Outcome::ShotsCollide,
    }
}

} // verus!

//! The flying saucer: what it is worth and where it enters.

use vstd::prelude::*;
use rand::Rng;

verus! {

/// `rand_chacha::ChaCha8Rng`, the generator the game draws from. Nothing
/// is known of what it holds.
#[verifier::external_type_specification]
#[verifier::external_body]
pub struct ExChaCha8Rng(rand_chacha::ChaCha8Rng);

/// Number of different values a saucer can be worth.
pub const POINT_VALUES: usize = 5;

/// How far from the middle of the window a saucer enters and leaves: half
/// the window's width and the saucer's own.
pub const X_OFFSET: i32 = 688;

/// A saucer's speed, in layout units per second.
pub const SPEED: i32 = 200;

/// What a saucer can be worth.
pub open spec fn points_table() -> Seq<usize> {
    seq![50, 100, 150, 200, 300]
}

/// Where a saucer enters and how fast it flies; a negative speed is
/// leftwards.
#[derive(Clone, Copy, Debug, PartialEq, Eq, Structural)]
pub struct Entrance {
    pub x: i32,
    pub speed: i32,
}

/// A saucer either enters at the left edge and flies right, or enters at
/// the right edge and flies left.
pub open spec fn entrance_from(left: bool) -> Entrance {
    if left {
        Entrance { x: (-X_OFFSET) as i32, speed: SPEED }
    } else {
        Entrance { x: X_OFFSET, speed: (-SPEED) as i32 }
    }
}

/// Calls `rand::Rng::gen_range` on the range from zero up to, not
/// including, `bound`. The generator returns a value inside the range it is
/// given, and panics on an empty range, which `bound > 0` rules out.
#[verifier::external_body]
fn sample_below(rng: &mut rand_chacha::ChaCha8Rng, bound: usize) -> (index: usize)
    requires
        bound > 0,
    ensures
        index < bound,
{
    rng.gen_range(0..bound)
}

/// Calls `rand::Rng::gen` for a `bool`. Nothing is known of the outcome.
#[verifier::external_body]
fn toss(rng: &mut rand_chacha::ChaCha8Rng) -> (heads: bool) {
    rng.gen::<bool>()
}

/// The value at place `index` of the table.
pub fn points_at(index: usize) -> (points: usize)
    requires
        index < POINT_VALUES,
    ensures
        points == points_table()[index as int],
{
    if index == 0 {
        50
    } else if index == 1 {
        100
    } else if index == 2 {
        150
    } else if index == 3 {
        200
    } else {
        300
    }
}

/// Draws what the next saucer is worth: one of the values of the table.
pub fn get_random_points(rng: &mut rand_chacha::ChaCha8Rng) -> (points: usize)
    ensures
        exists|index: int| 0 <= index < POINT_VALUES && points == points_table()[index],
{
    let index = sample_below(rng, POINT_VALUES);
    points_at(index)
}

/// The entrance for the given side.
pub fn entrance(left: bool) -> (e: Entrance)
    ensures
        e == entrance_from(left),
        e.speed != 0,
        (e.x < 0) == (e.speed > 0),
{
    if left {
        Entrance { x: -X_OFFSET, speed: SPEED }
    } else {
        Entrance { x: X_OFFSET, speed: -SPEED }
    }
}

/// Draws the side on which the next saucer enters.
pub fn random_entrance(rng: &mut rand_chacha::ChaCha8Rng) -> (e: Entrance)
    ensures
        e == entrance_from(true) || e == entrance_from(false),
{
    let left = toss(rng);
    entrance(left)
}

} // verus!

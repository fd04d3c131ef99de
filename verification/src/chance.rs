//! The source of randomness behind the `?` instruction.

use crate::position::Direction;
use rand::Rng;
use vstd::prelude::*;

verus! {

/// Calls `rand::rng` for the thread's generator and `Rng::random_range` on it
/// with the range `0..4`.
///
/// Believed: the number drawn lies in that range. Which number comes is left
/// open, so two calls need not agree.
#[verifier::external_body]
fn draw_below_four() -> (n: i32)
    ensures
        0 <= n < 4,
{
    rand::rng().random_range(0..4)
}

/// The direction that stands for a number drawn from `0..4`.
pub open spec fn direction_of(n: i32) -> Direction {
    if n == 0 {
        Direction::Up
    } else if n == 1 {
        Direction::Down
    } else if n == 2 {
        Direction::Left
    } else {
        Direction::Right
    }
}

/// Turns a number drawn from `0..4` into a direction: 0 is up, 1 is down,
/// 2 is left and 3 is right.
pub fn direction_from_index(n: i32) -> (d: Direction)
    requires
        0 <= n < 4,
    ensures
        d == direction_of(n),
{
    if n == 0 {
        Direction::Up
    } else if n == 1 {
        Direction::Down
    } else if n == 2 {
        Direction::Left
    } else {
        Direction::Right
    }
}

/// Draws one of the four directions at random.
pub fn random_direction() -> (d: Direction)
    ensures
        exists|n: i32| 0 <= n < 4 && d == direction_of(n),
{
    let n = draw_below_four();
    direction_from_index(n)
}

} // verus!

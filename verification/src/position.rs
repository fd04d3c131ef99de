//! Coordinates on the 65536 x 65536 torus and the four directions of travel.

use vstd::prelude::*;

verus! {

/// A pair of coordinates.
#[derive(Clone, Debug)]
pub struct Position<T> {
    pub x: T,
    pub y: T,
}

impl<T> Position<T> {
    pub fn new(x: T, y: T) -> (p: Self)
        ensures
            p.x == x,
            p.y == y,
    {
        Position { x, y }
    }
}

/// One of the four cardinal directions in which the instruction pointer travels.
#[derive(Clone, Copy, Debug, PartialEq, Eq, Structural)]
pub enum Direction {
    Up,
    Down,
    Left,
    Right,
}

/// The column reached from column `x` by one move in direction `d`.
pub open spec fn next_x(x: u16, d: Direction) -> u16 {
    match d {
        Direction::Left => if x == 0 { 0xffffu16 } else { (x - 1) as u16 },
        Direction::Right => if x == 0xffff { 0u16 } else { (x + 1) as u16 },
        _ => x,
    }
}

/// The row reached from row `y` by one move in direction `d`.
pub open spec fn next_y(y: u16, d: Direction) -> u16 {
    match d {
        Direction::Up => if y == 0 { 0xffffu16 } else { (y - 1) as u16 },
        Direction::Down => if y == 0xffff { 0u16 } else { (y + 1) as u16 },
        _ => y,
    }
}

/// Moves `p` one cell in direction `d`, wrapping around the edges of the torus.
pub fn advance(p: &mut Position<u16>, d: Direction)
    ensures
        final(p).x == next_x(old(p).x, d),
        final(p).y == next_y(old(p).y, d),
{
    match d {
        Direction::Up => p.y = p.y.wrapping_sub(1),
        Direction::Down => p.y = p.y.wrapping_add(1),
        Direction::Left => p.x = p.x.wrapping_sub(1),
        Direction::Right => p.x = p.x.wrapping_add(1),
    }
}

} // verus!

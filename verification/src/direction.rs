//! Headings on the grid and the keys that steer them.

use vstd::prelude::*;

verus! {

/// A grid position as a pair `(x, y)` of unbounded integers. `x` grows to the
/// right and `y` grows downwards.
pub type Cell = (int, int);

/// One of the four headings of the snake.
#[derive(Clone, Copy, Debug, PartialEq, Eq, Structural)]
pub enum Direction {
    Up,
    Left,
    Right,
    Down,
}

impl Direction {
    /// The heading that points the other way.
    pub open spec fn spec_opposite(&self) -> Direction {
        match *self {
            Direction::Down => Direction::Up,
            Direction::Left => Direction::Right,
            Direction::Right => Direction::Left,
            Direction::Up => Direction::Down,
        }
    }

    /// The cell reached from `pos` by one step in this heading.
    pub open spec fn step_from(self, pos: Cell) -> Cell {
        match self {
            Direction::Up => (pos.0, pos.1 - 1),
            Direction::Down => (pos.0, pos.1 + 1),
            Direction::Left => (pos.0 - 1, pos.1),
            Direction::Right => (pos.0 + 1, pos.1),
        }
    }

    /// Returns the heading that points the other way.
    #[verifier::when_used_as_spec(spec_opposite)]
    pub fn opposite(&self) -> (r: Direction)
        ensures
            r == self.spec_opposite(),
    {
        match *self {
            Direction::Down => Direction::Up,
            Direction::Left => Direction::Right,
            Direction::Right => Direction::Left,
            Direction::Up => Direction::Down,
        }
    }

    /// Taking the opposite twice gives the heading back, and the opposite of
    /// a heading is never the heading itself.
    pub proof fn lemma_opposite_involution(d: Direction)
        ensures
            d.spec_opposite().spec_opposite() == d,
            d.spec_opposite() != d,
    {
    }
}

/// A key press as the game sees it: one of the four arrows, or any other key.
#[derive(Clone, Copy, Debug, PartialEq, Eq, Structural)]
pub enum Key {
    Up,
    Down,
    Left,
    Right,
    Other,
}

impl Key {
    /// The heading that an arrow asks for; no other key asks for one.
    pub open spec fn spec_direction(&self) -> Option<Direction> {
        match *self {
            Key::Up => Some(Direction::Up),
            Key::Down => Some(Direction::Down),
            Key::Left => Some(Direction::Left),
            Key::Right => Some(Direction::Right),
            Key::Other => None,
        }
    }

    /// Returns the heading that an arrow asks for, and `None` for any other
    /// key.
    #[verifier::when_used_as_spec(spec_direction)]
    pub fn direction(&self) -> (dir: Option<Direction>)
        ensures
            dir == self.spec_direction(),
    {
        match *self {
            Key::Up => Some(Direction::Up),
            Key::Down => Some(Direction::Down),
            Key::Left => Some(Direction::Left),
            Key::Right => Some(Direction::Right),
            Key::Other => None,
        }
    }
}

} // verus!

//! The snake: an ordered body of grid cells, head first, with a heading.

use crate::direction::{Cell, Direction};
use std::collections::VecDeque;
use vstd::prelude::*;

verus! {

/// True when both coordinates of `c` can be stored in a `u32`.
pub open spec fn fits(c: Cell) -> bool {
    0 <= c.0 <= u32::MAX && 0 <= c.1 <= u32::MAX
}

/// The cell that a pair of machine coordinates stands for.
pub open spec fn cell_of(pos: (u32, u32)) -> Cell {
    (pos.0 as int, pos.1 as int)
}

/// What a snake is: its heading, its body from head to tail, and the segment
/// that the next growth appends.
#[verifier::ext_equal]
pub struct SnakeView {
    /// The heading of the next step.
    pub direction: Direction,
    /// The occupied cells, head first. A cell may occur more than once.
    pub body: Seq<Cell>,
    /// The tail dropped by the latest move or, before any move, the tail that
    /// the snake was created with.
    pub last_tail: Cell,
}

impl SnakeView {
    /// A snake has at least one segment, and all its cells are storable.
    pub open spec fn wf(self) -> bool {
        &&& self.body.len() >= 1
        &&& forall|i: int| 0 <= i < self.body.len() ==> fits(#[trigger] self.body[i])
        &&& fits(self.last_tail)
    }

    /// The snake as created at `(x, y)`: three segments in a horizontal line
    /// with the head on the left, heading down.
    pub open spec fn initial(x: int, y: int) -> SnakeView {
        SnakeView {
            direction: Direction::Down,
            body: seq![(x, y), (x + 1, y), (x + 2, y)],
            last_tail: (x + 2, y),
        }
    }

    /// The cell of the head.
    pub open spec fn head(self) -> Cell {
        self.body[0]
    }

    /// True when some segment, the head included, lies on `c`.
    pub open spec fn occupies(self, c: Cell) -> bool {
        exists|i: int| 0 <= i < self.body.len() && self.body[i] == c
    }

    /// The heading of a step that is asked to go in `turn`, if given.
    pub open spec fn heading_after(self, turn: Option<Direction>) -> Direction {
        match turn {
            Some(d) => d,
            None => self.direction,
        }
    }

    /// The cell that the head would reach by one step.
    pub open spec fn next_head(self, turn: Option<Direction>) -> Cell {
        self.heading_after(turn).step_from(self.head())
    }

    /// True when a head at `pos` survives on a grid of `width` by `height`
    /// cells: `pos` is strictly inside the one-cell border and on no segment.
    pub open spec fn alive_at(self, width: int, height: int, pos: Cell) -> bool {
        &&& !self.occupies(pos)
        &&& 0 < pos.0 < width - 1
        &&& 0 < pos.1 < height - 1
    }

    /// The snake with its heading set to `dir`.
    pub open spec fn turned(self, dir: Direction) -> SnakeView {
        SnakeView { direction: dir, ..self }
    }

    /// The snake after one step: a new head in front, the tail dropped and
    /// remembered.
    pub open spec fn moved(self, turn: Option<Direction>) -> SnakeView {
        SnakeView {
            direction: self.heading_after(turn),
            body: seq![self.next_head(turn)] + self.body.drop_last(),
            last_tail: self.body.last(),
        }
    }

    /// The snake with the remembered tail appended.
    pub open spec fn grown(self) -> SnakeView {
        SnakeView { body: self.body.push(self.last_tail), ..self }
    }
}

/// One grid cell occupied by part of the snake.
#[derive(Clone, Copy)]
struct Block {
    x: u32,
    y: u32,
}

impl Block {
    spec fn cell(self) -> Cell {
        (self.x as int, self.y as int)
    }
}

/// A snake on the grid.
pub struct Snake {
    direction: Direction,
    body: VecDeque<Block>,
    tail: Block,
}

impl View for Snake {
    type V = SnakeView;

    closed spec fn view(&self) -> SnakeView {
        SnakeView {
            direction: self.direction,
            body: self.body@.map_values(|b: Block| b.cell()),
            last_tail: self.tail.cell(),
        }
    }
}

impl Snake {
    /// The validity of a snake: that of its view.
    pub open spec fn wf(&self) -> bool {
        self@.wf()
    }

    /// Creates a snake of three segments with its head at `(x, y)` and its
    /// body stretching to the right, heading down.
    pub fn new(x: u32, y: u32) -> (s: Snake)
        requires
            x + 2 <= u32::MAX,
        ensures
            s@ == SnakeView::initial(x as int, y as int),
            s.wf(),
    {
        let mut body = VecDeque::new();
        body.push_front(Block { x, y });
        body.push_back(Block { x: x + 1, y });
        body.push_back(Block { x: x + 2, y });

        Snake { direction: Direction::Down, body, tail: Block { x: x + 2, y } }
    }

    /// Returns the coordinates of the head.
    pub fn head_position(&self) -> (pos: (u32, u32))
        requires
            self.wf(),
        ensures
            cell_of(pos) == self@.head(),
    {
        let head = &self.body[0];
        (head.x, head.y)
    }

    /// Returns the current heading.
    pub fn head_direction(&self) -> (dir: Direction)
        ensures
            dir == self@.direction,
    {
        self.direction
    }

    /// Tells whether a head at `pos` survives on a grid of `w` by `h` cells:
    /// it dies on any body segment and on or beyond the one-cell border.
    pub fn is_alive(&self, w: u32, h: u32, pos: (u32, u32)) -> (alive: bool)
        ensures
            alive == self@.alive_at(w as int, h as int, cell_of(pos)),
            pos.0 <= 0 || pos.0 >= w - 1 || pos.1 <= 0 || pos.1 >= h - 1 ==> !alive,
    {
        let (pos_x, pos_y) = pos;
        if self.is_tail_overlap(pos_x, pos_y) {
            return false;
        }
        if pos_x == 0 || w == 0 || pos_x >= w - 1 || pos_y == 0 || h == 0 || pos_y >= h - 1 {
            return false;
        }
        true
    }

    /// Sets the heading to `dir`, whatever it was. Rejecting a reversal is
    /// the caller's business.
    pub fn change_direction(&mut self, dir: Direction)
        ensures
            final(self)@ == old(self)@.turned(dir),
            old(self).wf() ==> final(self).wf(),
    {
        self.direction = dir;
    }

    /// Tells whether any segment, the head included, lies on `(pos_x, pos_y)`.
    pub fn is_tail_overlap(&self, pos_x: u32, pos_y: u32) -> (overlap: bool)
        ensures
            overlap == self@.occupies(cell_of((pos_x, pos_y))),
    {
        let n = self.body.len();
        for i in 0..n
            invariant
                n == self.body@.len(),
                forall|j: int| 0 <= j < i ==> self@.body[j] != cell_of((pos_x, pos_y)),
        {
            let block = &self.body[i];
            if pos_x == block.x && pos_y == block.y {
                assert(self@.body[i as int] == cell_of((pos_x, pos_y)));
                return true;
            }
        }
        false
    }

    /// Appends the remembered tail to the body, which makes the snake one
    /// segment longer.
    pub fn grow(&mut self)
        ensures
            final(self)@ == old(self)@.grown(),
            final(self)@.body.len() == old(self)@.body.len() + 1,
            old(self).wf() ==> final(self).wf(),
    {
        let temp = self.tail;
        self.body.push_back(temp);
    }

    /// Computes the cell that the head would reach by one step in
    /// `direction`, or in the current heading if none is given. The snake
    /// stays as it is.
    pub fn next_head(&self, direction: Option<Direction>) -> (pos: (u32, u32))
        requires
            self.wf(),
            fits(self@.next_head(direction)),
        ensures
            cell_of(pos) == self@.next_head(direction),
    {
        let (pos_x, pos_y) = self.head_position();

        let mut dir = self.direction;
        match direction {
            Some(d) => dir = d,
            None => {},
        }

        match dir {
            Direction::Up => (pos_x, pos_y - 1),
            Direction::Down => (pos_x, pos_y + 1),
            Direction::Left => (pos_x - 1, pos_y),
            Direction::Right => (pos_x + 1, pos_y),
        }
    }

    /// Moves the snake by one cell: adopts `direction` as the heading if one
    /// is given, puts a new head in front and drops the tail, which is
    /// remembered for the next growth.
    pub fn move_forward(&mut self, direction: Option<Direction>)
        requires
            old(self).wf(),
            fits(old(self)@.next_head(direction)),
        ensures
            final(self)@ == old(self)@.moved(direction),
            final(self)@.body.len() == old(self)@.body.len(),
            final(self).wf(),
    {
        match direction {
            Some(d) => self.direction = d,
            None => (),
        }
        let (last_x, last_y) = self.head_position();

        let new_block = match &self.direction {
            Direction::Down => Block { x: last_x, y: last_y + 1 },
            Direction::Left => Block { x: last_x - 1, y: last_y },
            Direction::Right => Block { x: last_x + 1, y: last_y },
            Direction::Up => Block { x: last_x, y: last_y - 1 },
        };
        self.body.push_front(new_block);
        let removed = self.body.pop_back().unwrap();
        self.tail = removed;
    }

    /// Returns the cells of the body, head first.
    pub fn segments(&self) -> (cells: Vec<(u32, u32)>)
        ensures
            cells@.len() == self@.body.len(),
            forall|i: int| 0 <= i < cells@.len() ==> cell_of(#[trigger] cells@[i]) == self@.body[i],
    {
        let n = self.body.len();
        let mut cells: Vec<(u32, u32)> = Vec::new();
        for i in 0..n
            invariant
                n == self.body@.len(),
                cells@.len() == i,
                forall|j: int| 0 <= j < i ==> cell_of(#[trigger] cells@[j]) == self@.body[j],
        {
            let block = &self.body[i];
            cells.push((block.x, block.y));
        }
        cells
    }
}

} // verus!

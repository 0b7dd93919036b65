//! The game state: a snake, the food, the grid, and the clock that paces
//! movement and restarts the game after a death.

use crate::direction::{Cell, Direction, Key};
use crate::random::random_in_range;
use crate::snake::{cell_of, fits, Snake, SnakeView};
use vstd::prelude::*;

verus! {

/// The time between two movement steps, in microseconds.
pub const UPDATE_TIME: u64 = 100_000;

/// The time after a death at which the game restarts by itself, in
/// microseconds.
pub const RESTART_TIME: u64 = 1_000_000;

/// The number of random cells that food placement tries before it searches
/// the grid cell by cell.
pub const FOOD_SAMPLES: u32 = 64;

/// A rectangle of grid cells, given by its top left cell and its extent.
#[derive(Clone, Copy, Debug, PartialEq, Eq, Structural)]
pub struct Rect {
    pub x: u32,
    pub y: u32,
    pub width: u32,
    pub height: u32,
}

impl Rect {
    /// True when `c` lies in the rectangle.
    pub open spec fn covers(self, c: Cell) -> bool {
        &&& self.x <= c.0 < self.x + self.width
        &&& self.y <= c.1 < self.y + self.height
    }
}

/// What a game is.
#[verifier::ext_equal]
pub struct GameView {
    pub snake: SnakeView,
    /// The cell of the food. It is on the board only while `food_placed`.
    pub food: Cell,
    pub food_placed: bool,
    /// The number of columns of the grid, border included.
    pub width: int,
    /// The number of rows of the grid, border included.
    pub height: int,
    /// True from a fatal collision until the restart.
    pub is_over: bool,
    /// The microseconds gone by since the latest step, death or restart.
    pub waiting_time: int,
}

impl GameView {
    /// The state of a fresh game on a grid of `width` by `height` cells.
    pub open spec fn initial(width: int, height: int) -> GameView {
        GameView {
            snake: SnakeView::initial(2, 2),
            food: (5, 4),
            food_placed: true,
            width,
            height,
            is_over: false,
            waiting_time: 0,
        }
    }

    /// A valid game holds a valid snake whose head can step in any heading
    /// without leaving the range of the coordinates.
    pub open spec fn wf(self) -> bool {
        &&& self.snake.wf()
        &&& 1 <= self.snake.head().0 < u32::MAX
        &&& 1 <= self.snake.head().1 < u32::MAX
        &&& fits(self.food)
        &&& 0 <= self.width <= u32::MAX
        &&& 0 <= self.height <= u32::MAX
        &&& 0 <= self.waiting_time <= u64::MAX
    }

    /// The fresh game on the same grid.
    pub open spec fn restarted(self) -> GameView {
        GameView::initial(self.width, self.height)
    }

    /// The heading that `key` asks for: that of an arrow, and the current
    /// one for any other key.
    pub open spec fn candidate(self, key: Key) -> Direction {
        match key.spec_direction() {
            Some(d) => d,
            None => self.snake.direction,
        }
    }

    /// The state after a key press. A finished game restarts on any key. A
    /// running game takes the candidate heading unless it reverses the
    /// current one.
    pub open spec fn key_pressed(self, key: Key) -> GameView {
        if self.is_over {
            self.restarted()
        } else if self.candidate(key) == self.snake.direction.spec_opposite() {
            self
        } else {
            GameView { snake: self.snake.turned(self.candidate(key)), ..self }
        }
    }

    /// A key that asks for the reverse of the current heading leaves the
    /// heading as it is. In a running game it changes nothing at all. In a
    /// finished game any key restarts, so there the heading stays only if it
    /// was the one that a fresh snake has.
    pub proof fn lemma_reversal_keeps_heading(self, key: Key)
        requires
            key.spec_direction() == Some(self.snake.direction.spec_opposite()),
            !self.is_over || self.snake.direction == Direction::Down,
        ensures
            self.key_pressed(key).snake.direction == self.snake.direction,
            !self.is_over ==> self.key_pressed(key) == self,
    {
    }

    /// The state after the snake has had its chance to eat: where the head
    /// lies on food that is on the board, the food is taken off and the
    /// snake grows by one segment.
    pub open spec fn fed(self) -> GameView {
        if self.food_placed && self.snake.head() == self.food {
            GameView { food_placed: false, snake: self.snake.grown(), ..self }
        } else {
            self
        }
    }

    /// The state after one movement step. Where the cell ahead is deadly the
    /// game is over and the snake stays as it is; otherwise the snake moves
    /// and eats what it finds. Either way the clock starts anew.
    pub open spec fn stepped(self, turn: Option<Direction>) -> GameView {
        if self.snake.alive_at(self.width, self.height, self.snake.next_head(turn)) {
            GameView { snake: self.snake.moved(turn), waiting_time: 0, ..self }.fed()
        } else {
            GameView { is_over: true, waiting_time: 0, ..self }
        }
    }

    /// True when `c` can take food: it lies strictly inside the border and
    /// no segment of the snake lies on it. These are the cells on which a
    /// head survives.
    #[verifier::inline]
    pub open spec fn free_interior(self, c: Cell) -> bool {
        self.snake.alive_at(self.width, self.height, c)
    }

    /// True when some cell can take food.
    pub open spec fn has_free_cell(self) -> bool {
        exists|c: Cell| #[trigger] self.snake.alive_at(self.width, self.height, c)
    }

    /// True when `a` comes before `b` where the grid is read row by row from
    /// the top, each row from the left.
    pub open spec fn reads_before(a: Cell, b: Cell) -> bool {
        a.1 < b.1 || (a.1 == b.1 && a.0 < b.0)
    }

    /// The state with food on `c`.
    pub open spec fn with_food(self, c: Cell) -> GameView {
        GameView { food: c, food_placed: true, ..self }
    }

    /// True when `post` is a state that food placement may leave behind:
    /// food on some free cell inside the border, whichever it is, or, where
    /// there is no such cell, the state as it was.
    pub open spec fn food_placement(self, post: GameView) -> bool {
        if self.has_free_cell() {
            self.free_interior(post.food) && post == self.with_food(post.food)
        } else {
            post == self
        }
    }

    /// True when `c` is a cell of the one-cell border of the grid.
    pub open spec fn on_border(self, c: Cell) -> bool {
        &&& 0 <= c.0 < self.width
        &&& 0 <= c.1 < self.height
        &&& (c.0 == 0 || c.0 == self.width - 1 || c.1 == 0 || c.1 == self.height - 1)
    }

    /// The four edges of the border: top, bottom, left and right. A grid
    /// without cells has none.
    pub open spec fn border(self) -> Seq<Rect>
        recommends
            0 <= self.width <= u32::MAX,
            0 <= self.height <= u32::MAX,
    {
        if self.width == 0 || self.height == 0 {
            seq![]
        } else {
            let w = self.width as u32;
            let h = self.height as u32;
            seq![
                Rect { x: 0, y: 0, width: w, height: 1 },
                Rect { x: 0, y: (h - 1) as u32, width: w, height: 1 },
                Rect { x: 0, y: 0, width: 1, height: h },
                Rect { x: (w - 1) as u32, y: 0, width: 1, height: h },
            ]
        }
    }

    /// The state with `delta` more microseconds on the clock.
    pub open spec fn waited(self, delta: int) -> GameView {
        GameView { waiting_time: self.waiting_time + delta, ..self }
    }

    /// A finished game after `delta` more microseconds: it restarts once the
    /// clock has passed `RESTART_TIME`, and waits on until then.
    pub open spec fn idled(self, delta: int) -> GameView {
        if self.waiting_time + delta > RESTART_TIME {
            self.restarted()
        } else {
            self.waited(delta)
        }
    }

    /// The state after food placement has picked `food`: nothing changes
    /// where food is on the board or no cell can take it.
    pub open spec fn settled(self, food: Cell) -> GameView {
        if !self.food_placed && self.has_free_cell() {
            self.with_food(food)
        } else {
            self
        }
    }

    /// A running game as the clock is read: it makes one step in the current
    /// heading once the clock has passed `UPDATE_TIME`.
    pub open spec fn ticked(self) -> GameView {
        if self.waiting_time > UPDATE_TIME {
            self.stepped(None)
        } else {
            self
        }
    }

    /// True when `post` is a state that `delta` more microseconds may lead
    /// to. A finished game idles. A running game first gets its food back,
    /// on a free cell inside the border if there is one, and then reads the
    /// clock. Only the choice of that cell is left open.
    pub open spec fn update_leads_to(self, delta: int, post: GameView) -> bool {
        if self.is_over {
            post == self.idled(delta)
        } else {
            &&& !self.food_placed && self.has_free_cell() ==> self.free_interior(post.food)
            &&& post == self.waited(delta).settled(post.food).ticked()
        }
    }
}

/// A game of snake.
pub struct Game {
    food_placed: bool,
    snake: Snake,
    food_x: u32,
    food_y: u32,
    width: u32,
    height: u32,
    is_over: bool,
    waiting_time: u64,
}

impl View for Game {
    type V = GameView;

    closed spec fn view(&self) -> GameView {
        GameView {
            snake: self.snake@,
            food: cell_of((self.food_x, self.food_y)),
            food_placed: self.food_placed,
            width: self.width as int,
            height: self.height as int,
            is_over: self.is_over,
            waiting_time: self.waiting_time as int,
        }
    }
}

impl Game {
    /// The validity of a game: that of its view.
    pub open spec fn wf(&self) -> bool {
        self@.wf()
    }

    /// Creates a fresh game on a grid of `width` by `height` cells.
    pub fn new(width: u32, height: u32) -> (game: Game)
        ensures
            game@ == GameView::initial(width as int, height as int),
            game.wf(),
    {
        Game {
            food_placed: true,
            snake: Snake::new(2, 2),
            food_x: 5,
            food_y: 4,
            width,
            height,
            is_over: false,
            waiting_time: 0,
        }
    }

    /// Reacts to a key press. A finished game restarts on any key. In a
    /// running game an arrow sets the heading, unless it would reverse the
    /// snake; any other key changes nothing.
    pub fn handle_key_press(&mut self, key: Key)
        ensures
            final(self)@ == old(self)@.key_pressed(key),
            !old(self)@.is_over && key.spec_direction() == Some(
                old(self)@.snake.direction.spec_opposite(),
            ) ==> final(self)@ == old(self)@,
            old(self).wf() ==> final(self).wf(),
    {
        if self.is_over {
            return self.restart();
        }
        let dir = match key.direction() {
            Some(d) => d,
            None => self.snake.head_direction(),
        };

        if dir == self.snake.head_direction().opposite() {
            return;
        }
        self.snake.change_direction(dir);
    }

    /// Puts the game back into its fresh state on the same grid.
    pub fn restart(&mut self)
        ensures
            final(self)@ == old(self)@.restarted(),
            final(self).wf(),
    {
        self.is_over = false;
        self.snake = Snake::new(2, 2);
        self.food_placed = true;
        self.food_x = 5;
        self.food_y = 4;
        self.waiting_time = 0;
    }

    /// Lets the snake eat: where its head lies on food that is on the board,
    /// takes the food off and grows the snake by one segment.
    pub fn is_eating(&mut self)
        requires
            old(self).wf(),
        ensures
            final(self)@ == old(self)@.fed(),
            final(self).wf(),
    {
        let (snake_pos_x, snake_pos_y) = self.snake.head_position();

        if self.food_placed && (snake_pos_x == self.food_x) && (snake_pos_y == self.food_y) {
            self.food_placed = false;
            self.snake.grow();
        }
    }

    /// Makes one movement step in `direction`, or in the current heading if
    /// none is given. Where the cell ahead is deadly the game is over and
    /// the snake does not move; otherwise the snake moves and eats what it
    /// finds. Either way the clock starts anew.
    pub fn move_snake(&mut self, direction: Option<Direction>)
        requires
            old(self).wf(),
        ensures
            final(self)@ == old(self)@.stepped(direction),
            final(self).wf(),
    {
        if self.snake.is_alive(self.width, self.height, self.snake.next_head(direction)) {
            self.snake.move_forward(direction);
            self.is_eating();
        } else {
            self.is_over = true;
        }
        self.waiting_time = 0;
    }

    /// Puts food on `(x, y)` if that cell lies strictly inside the border
    /// and is free of the snake, and says whether it did. Food that is on
    /// the board already moves to the new cell.
    pub fn place_food_at(&mut self, x: u32, y: u32) -> (placed: bool)
        ensures
            placed == old(self)@.free_interior(cell_of((x, y))),
            placed ==> final(self)@ == old(self)@.with_food(cell_of((x, y))),
            !placed ==> final(self)@ == old(self)@,
            old(self).wf() ==> final(self).wf(),
    {
        if !self.snake.is_alive(self.width, self.height, (x, y)) {
            return false;
        }
        self.food_placed = true;
        self.food_x = x;
        self.food_y = y;
        true
    }

    /// Finds the first cell that can take food, reading the grid row by row
    /// from the top and each row from the left. Returns `None` exactly when
    /// no cell can take food.
    pub fn first_free_cell(&self) -> (found: Option<(u32, u32)>)
        ensures
            found is None <==> !self@.has_free_cell(),
            found matches Some(pos) ==> {
                &&& self@.free_interior(cell_of(pos))
                &&& forall|c: Cell|
                    self@.free_interior(c) ==> !GameView::reads_before(c, cell_of(pos))
            },
    {
        if self.width < 3 || self.height < 3 {
            return None;
        }
        let mut y: u32 = 1;
        while y < self.height - 1
            invariant
                self.width >= 3,
                self.height >= 3,
                1 <= y <= self.height - 1,
                forall|c: Cell| self@.free_interior(c) ==> c.1 >= y,
            decreases self.height - y,
        {
            let mut x: u32 = 1;
            while x < self.width - 1
                invariant
                    self.width >= 3,
                    self.height >= 3,
                    1 <= y < self.height - 1,
                    1 <= x <= self.width - 1,
                    forall|c: Cell|
                        self@.free_interior(c) ==> c.1 > y || (c.1 == y && c.0 >= x),
                decreases self.width - x,
            {
                if !self.snake.is_tail_overlap(x, y) {
                    assert(self@.free_interior(cell_of((x, y))));
                    return Some((x, y));
                }
                x += 1;
            }
            y += 1;
        }
        None
    }

    /// Puts the food on a free cell strictly inside the border. A bounded
    /// number of cells are drawn at random; if none of them is free, the
    /// first free cell of the grid is taken. Where no cell is free, nothing
    /// changes.
    pub fn place_food(&mut self)
        ensures
            old(self)@.food_placement(final(self)@),
            old(self).wf() ==> final(self).wf(),
    {
        if self.width < 3 || self.height < 3 {
            return;
        }
        let mut attempts: u32 = 0;
        while attempts < FOOD_SAMPLES
            invariant
                self.width >= 3,
                self.height >= 3,
                self@ == old(self)@,
            decreases FOOD_SAMPLES - attempts,
        {
            let rnd_x = random_in_range(1, self.width - 1);
            let rnd_y = random_in_range(1, self.height - 1);
            if self.place_food_at(rnd_x, rnd_y) {
                return;
            }
            attempts += 1;
        }
        match self.first_free_cell() {
            Some((x, y)) => {
                self.place_food_at(x, y);
            },
            None => {},
        }
    }

    /// Advances the clock by `delta_time` microseconds and does what is due.
    /// A finished game restarts once more than `RESTART_TIME` has gone by
    /// since the death. A running game first puts missing food back and then
    /// makes one step once more than `UPDATE_TIME` has gone by since the
    /// latest step.
    pub fn update(&mut self, delta_time: u64)
        requires
            old(self).wf(),
        ensures
            old(self)@.update_leads_to(delta_time as int, final(self)@),
            final(self).wf(),
    {
        self.waiting_time = self.waiting_time.saturating_add(delta_time);

        if self.is_over {
            if self.waiting_time > RESTART_TIME {
                self.restart();
            }
            return;
        }
        if !(self.food_placed) {
            self.place_food()
        }
        if self.waiting_time > UPDATE_TIME {
            self.move_snake(None)
        }
    }

    /// Returns the snake.
    pub fn snake(&self) -> (snake: &Snake)
        ensures
            snake@ == self@.snake,
    {
        &self.snake
    }

    /// Returns the cell of the food, or `None` while no food is on the
    /// board.
    pub fn food(&self) -> (food: Option<(u32, u32)>)
        ensures
            food is Some == self@.food_placed,
            food matches Some(pos) ==> cell_of(pos) == self@.food,
    {
        if self.food_placed {
            Some((self.food_x, self.food_y))
        } else {
            None
        }
    }

    /// Returns the number of columns of the grid.
    pub fn width(&self) -> (width: u32)
        ensures
            width == self@.width,
    {
        self.width
    }

    /// Returns the number of rows of the grid.
    pub fn height(&self) -> (height: u32)
        ensures
            height == self@.height,
    {
        self.height
    }

    /// Tells whether the game is over and waits for its restart.
    pub fn is_over(&self) -> (over: bool)
        ensures
            over == self@.is_over,
    {
        self.is_over
    }

    /// Returns the microseconds on the clock.
    pub fn waiting_time(&self) -> (time: u64)
        ensures
            time == self@.waiting_time,
    {
        self.waiting_time
    }

    /// Returns the four edges of the border as rectangles: top, bottom,
    /// left and right. Together they cover the border cells and no others.
    /// A grid without cells has no border.
    pub fn border_rects(&self) -> (rects: Vec<Rect>)
        ensures
            rects@ == self@.border(),
            forall|c: Cell|
                self@.on_border(c) <==> exists|i: int|
                    0 <= i < rects@.len() && (#[trigger] rects@[i]).covers(c),
    {
        if self.width == 0 || self.height == 0 {
            return Vec::new();
        }
        let mut rects: Vec<Rect> = Vec::new();
        rects.push(Rect { x: 0, y: 0, width: self.width, height: 1 });
        rects.push(Rect { x: 0, y: self.height - 1, width: self.width, height: 1 });
        rects.push(Rect { x: 0, y: 0, width: 1, height: self.height });
        rects.push(Rect { x: self.width - 1, y: 0, width: 1, height: self.height });
        assert forall|c: Cell| self@.on_border(c) implies exists|i: int|
            0 <= i < rects@.len() && (#[trigger] rects@[i]).covers(c) by {
            if c.1 == 0 {
                assert(rects@[0].covers(c));
            } else if c.1 == self.height - 1 {
                assert(rects@[1].covers(c));
            } else if c.0 == 0 {
                assert(rects@[2].covers(c));
            } else {
                assert(rects@[3].covers(c));
            }
        }
        rects
    }
}

} // verus!

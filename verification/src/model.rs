//! The game as a mathematical state machine. A state is a [`GameModel`];
//! a tick, a turn and the passing of time are functions from states to
//! states. What chance decides, the cell of new food, is an argument.

use crate::food::{free_count, is_free, lemma_count_zero_iff_covered, placement_allowed};
use crate::grid::{Cell, Direction};
use vstd::prelude::*;

verus! {

/// The time between two moves of the snake, in nanoseconds: a fifth of a
/// second.
pub const MOVE_PERIOD_NANOS: u64 = 200_000_000;

/// The state of a game in mathematical terms.
pub struct GameModel {
    /// The cells that the snake covers, the head first.
    pub snake: Seq<Cell>,
    /// The direction of the last move.
    pub direction: Direction,
    /// The direction that the next move will take.
    pub next_direction: Direction,
    /// The cell that holds food, if the board had room for any.
    pub food: Option<Cell>,
    /// The number of meals so far.
    pub score: nat,
    /// The number of columns of the board.
    pub grid_width: int,
    /// The number of rows of the board.
    pub grid_height: int,
    /// The time gathered since the last move, in nanoseconds.
    pub move_timer: nat,
    /// Whether the game has ended.
    pub game_over: bool,
}

/// What the keyboard can tell the game: one of the four arrow keys, the key
/// that asks for a new game, or any other key.
#[derive(Clone, Copy, PartialEq, Eq, Debug, Structural)]
pub enum Key {
    Up,
    Down,
    Left,
    Right,
    R,
    Other,
}

impl Key {
    /// The direction that an arrow key asks for.
    pub open spec fn arrow(self) -> Option<Direction> {
        match self {
            Key::Up => Some(Direction::Up),
            Key::Down => Some(Direction::Down),
            Key::Left => Some(Direction::Left),
            Key::Right => Some(Direction::Right),
            _ => None,
        }
    }
}

/// The cell on which every game starts: the middle of the board.
pub open spec fn start_cell(grid_width: int, grid_height: int) -> Cell {
    Cell { x: grid_width / 2, y: grid_height / 2 }
}

impl GameModel {
    /// The state in which a game starts on a board of the given size, with
    /// food at `placed`: a snake of one cell in the middle, heading right,
    /// no score, no time gathered. Where the board has no room for food the
    /// game is over at once.
    pub open spec fn fresh(grid_width: int, grid_height: int, placed: Option<Cell>) -> GameModel {
        GameModel {
            snake: seq![start_cell(grid_width, grid_height)],
            direction: Direction::Right,
            next_direction: Direction::Right,
            food: placed,
            score: 0,
            grid_width,
            grid_height,
            move_timer: 0,
            game_over: placed is None,
        }
    }

    /// The states that a game can be in. The board has a cell; the snake is
    /// not empty, lies on the board and covers no cell twice; food lies on a
    /// free cell, and is there as long as the game goes on; the timer has
    /// not passed the period.
    pub open spec fn valid(self) -> bool {
        &&& self.grid_width > 0
        &&& self.grid_height > 0
        &&& self.snake.len() > 0
        &&& forall|i: int|
            0 <= i < self.snake.len() ==> (#[trigger] self.snake[i]).in_grid(
                self.grid_width,
                self.grid_height,
            )
        &&& self.snake.no_duplicates()
        &&& match self.food {
            Some(f) => is_free(self.snake, self.grid_width, self.grid_height, f),
            None => self.game_over,
        }
        &&& self.move_timer <= MOVE_PERIOD_NANOS
    }

    /// The cell that the head enters on the next move.
    pub open spec fn next_head(self) -> Cell {
        self.snake[0].step(self.next_direction)
    }

    /// Whether the next move leaves the board.
    pub open spec fn hits_wall(self) -> bool {
        !self.next_head().in_grid(self.grid_width, self.grid_height)
    }

    /// Whether the next move enters a cell that the snake covers. The cell
    /// of the tail counts: the tail has not left it when the head arrives.
    pub open spec fn hits_body(self) -> bool {
        self.snake.contains(self.next_head())
    }

    /// Whether the next move enters the cell that holds the food.
    pub open spec fn eats(self) -> bool {
        self.food == Some(self.next_head())
    }

    /// Whether the next tick of a running game moves the snake onto the
    /// food, so that new food is placed.
    pub open spec fn tick_places_food(self) -> bool {
        !self.game_over && !self.hits_wall() && !self.hits_body() && self.eats()
    }

    /// The snake after a meal: the new head in front, nothing removed.
    pub open spec fn grown_snake(self) -> Seq<Cell> {
        seq![self.next_head()] + self.snake
    }

    /// The snake after a move without a meal: the new head in front, the
    /// last cell removed.
    pub open spec fn moved_snake(self) -> Seq<Cell> {
        seq![self.next_head()] + self.snake.drop_last()
    }

    /// Whether `placed` may be the food after the next tick. Where the tick
    /// places food, it is a cell that the grown snake leaves free, or none
    /// where the grown snake covers the board. Nothing is asked of it where
    /// the tick places no food.
    pub open spec fn may_place(self, placed: Option<Cell>) -> bool {
        self.tick_places_food() ==> placement_allowed(
            self.grown_snake(),
            self.grid_width,
            self.grid_height,
            placed,
        )
    }

    /// The state after one tick, where `placed` is the new food in case the
    /// tick places any.
    ///
    /// A game that is over stays as it is. Otherwise the pending direction
    /// becomes the direction of travel. A move that leaves the board or
    /// enters the snake ends the game and changes nothing else. A move onto
    /// the food lengthens the snake by the new head, adds one to the score
    /// and places new food; where no cell is left for it, the game ends. Any
    /// other move puts the new head in front and removes the last cell.
    pub open spec fn tick(self, placed: Option<Cell>) -> GameModel {
        if self.game_over {
            self
        } else if self.hits_wall() || self.hits_body() {
            GameModel { direction: self.next_direction, game_over: true, ..self }
        } else if self.eats() {
            GameModel {
                snake: self.grown_snake(),
                direction: self.next_direction,
                food: placed,
                score: self.score + 1,
                game_over: placed is None,
                ..self
            }
        } else {
            GameModel { snake: self.moved_snake(), direction: self.next_direction, ..self }
        }
    }

    /// The state after a request to travel in direction `d`. A request for
    /// the opposite of the direction of the last move is dropped; any other
    /// becomes the pending direction. Nothing else changes.
    pub open spec fn turn(self, d: Direction) -> GameModel {
        if d == self.direction.reversed() {
            self
        } else {
            GameModel { next_direction: d, ..self }
        }
    }

    /// Whether the key starts a new game: it is the key for that, and the
    /// game is over.
    pub open spec fn key_restarts(self, key: Key) -> bool {
        key == Key::R && self.game_over
    }

    /// Whether `placed` may be the food after the key: where the key starts
    /// a new game, it is a cell that the new snake leaves free, or none
    /// where the board has no other cell. Nothing is asked of it otherwise.
    pub open spec fn may_restart_with(self, key: Key, placed: Option<Cell>) -> bool {
        self.key_restarts(key) ==> placement_allowed(
            seq![start_cell(self.grid_width, self.grid_height)],
            self.grid_width,
            self.grid_height,
            placed,
        )
    }

    /// The state after a key has gone down, where `placed` is the food in
    /// case a new game starts. An arrow key asks for a turn. The key for a
    /// new game replaces a game that is over by a fresh one on a board of
    /// the same size, and does nothing to a game that goes on. Any other
    /// key does nothing.
    pub open spec fn key_down(self, key: Key, placed: Option<Cell>) -> GameModel {
        if self.key_restarts(key) {
            GameModel::fresh(self.grid_width, self.grid_height, placed)
        } else {
            match key.arrow() {
                Some(d) => self.turn(d),
                None => self,
            }
        }
    }

    /// Whether a move is due once `elapsed` more nanoseconds have passed:
    /// the time gathered then exceeds the period.
    pub open spec fn move_due(self, elapsed: nat) -> bool {
        self.move_timer + elapsed > MOVE_PERIOD_NANOS
    }

    /// The state with `elapsed` nanoseconds added to the timer.
    pub open spec fn wait(self, elapsed: nat) -> GameModel {
        GameModel { move_timer: self.move_timer + elapsed, ..self }
    }

    /// The state with the timer back at zero.
    pub open spec fn rewind(self) -> GameModel {
        GameModel { move_timer: 0, ..self }
    }

    /// Whether `placed` may be the food after a frame that took `elapsed`
    /// nanoseconds: where a move is due, what the tick allows. Nothing is
    /// asked of it otherwise.
    pub open spec fn frame_may_place(self, elapsed: nat, placed: Option<Cell>) -> bool {
        self.move_due(elapsed) ==> self.rewind().may_place(placed)
    }

    /// The state after a frame that took `elapsed` nanoseconds. Where a
    /// move is due the timer starts again from zero, whatever it had gathered
    /// beyond the period, and one tick follows; otherwise the time is added
    /// to the timer.
    pub open spec fn frame(self, elapsed: nat, placed: Option<Cell>) -> GameModel {
        if self.move_due(elapsed) {
            self.rewind().tick(placed)
        } else {
            self.wait(elapsed)
        }
    }
}

/// A game starts in a valid state, whichever allowed cell the food is on.
pub proof fn lemma_fresh_is_valid(grid_width: int, grid_height: int, placed: Option<Cell>)
    requires
        grid_width > 0,
        grid_height > 0,
        placement_allowed(seq![start_cell(grid_width, grid_height)], grid_width, grid_height, placed),
    ensures
        GameModel::fresh(grid_width, grid_height, placed).valid(),
{
}

/// On a board with a cell, the snake of a fresh game leaves no cell free
/// exactly when the board is that one cell: only there does a game start
/// without food, and over.
pub proof fn lemma_fresh_is_over_only_on_unit_board(grid_width: int, grid_height: int)
    requires
        grid_width > 0,
        grid_height > 0,
    ensures
        free_count(seq![start_cell(grid_width, grid_height)], grid_width, grid_height) == 0 <==> (
        grid_width == 1 && grid_height == 1),
{
    let snake = seq![start_cell(grid_width, grid_height)];
    lemma_count_zero_iff_covered(snake, grid_width, grid_height);
    if grid_width == 1 && grid_height == 1 {
        assert forall|c: Cell| !is_free(snake, grid_width, grid_height, c) by {
            if c.in_grid(grid_width, grid_height) {
                assert(snake[0] == c);
            }
        }
    } else {
        let corner = Cell { x: 0, y: 0 };
        assert(start_cell(grid_width, grid_height) != corner);
        assert(is_free(snake, grid_width, grid_height, corner));
    }
}

/// A tick leads from a valid state to a valid state, whichever allowed cell
/// the new food is on.
pub proof fn lemma_tick_keeps_valid(m: GameModel, placed: Option<Cell>)
    requires
        m.valid(),
        m.may_place(placed),
    ensures
        m.tick(placed).valid(),
{
    let next = m.tick(placed);
    if !m.game_over && !m.hits_wall() && !m.hits_body() {
        let head = m.next_head();
        if m.eats() {
            assert(next.snake.no_duplicates());
        } else {
            assert forall|i: int| 0 <= i < next.snake.len() implies (#[trigger] next.snake[i]).in_grid(
                m.grid_width,
                m.grid_height,
            ) by {
                if i > 0 {
                    assert(next.snake[i] == m.snake[i - 1]);
                }
            }
            assert forall|i: int, j: int|
                0 <= i < next.snake.len() && 0 <= j < next.snake.len() && i != j implies next.snake[i]
                != next.snake[j] by {
                if i > 0 {
                    assert(next.snake[i] == m.snake[i - 1]);
                }
                if j > 0 {
                    assert(next.snake[j] == m.snake[j - 1]);
                }
            }
            assert forall|i: int| 0 <= i < next.snake.len() implies Some(next.snake[i])
                != m.food by {
                if i > 0 {
                    assert(next.snake[i] == m.snake[i - 1]);
                }
            }
        }
    }
}

/// A turn leads from a valid state to a valid state.
pub proof fn lemma_turn_keeps_valid(m: GameModel, d: Direction)
    requires
        m.valid(),
    ensures
        m.turn(d).valid(),
{
}

/// A key leads from a valid state to a valid state, whichever allowed cell
/// the food of a new game is on.
pub proof fn lemma_key_keeps_valid(m: GameModel, key: Key, placed: Option<Cell>)
    requires
        m.valid(),
        m.may_restart_with(key, placed),
    ensures
        m.key_down(key, placed).valid(),
{
}

/// A frame leads from a valid state to a valid state, whichever allowed cell
/// the new food is on.
pub proof fn lemma_frame_keeps_valid(m: GameModel, elapsed: nat, placed: Option<Cell>)
    requires
        m.valid(),
        m.frame_may_place(elapsed, placed),
    ensures
        m.frame(elapsed, placed).valid(),
{
    if m.move_due(elapsed) {
        lemma_tick_keeps_valid(m.rewind(), placed);
    }
}

} // verus!

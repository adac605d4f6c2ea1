//! The running game: the state that a frame loop owns, and the operations
//! that the loop and the keyboard perform on it. Each operation is the
//! corresponding function of the model, carried out on machine values.

use crate::food::{generate_food, placement_allowed};
use crate::grid::{all_distinct, all_in_grid, cell_of, cells, contains_point, Direction, Point};
use crate::model::{
    lemma_fresh_is_over_only_on_unit_board, lemma_fresh_is_valid, lemma_tick_keeps_valid,
    start_cell, GameModel, Key, MOVE_PERIOD_NANOS,
};
use vstd::prelude::*;

verus! {

/// The state of one game. It is made by [`SnakeGame::new`] and changed by
/// the operations below; a new game replaces it as a whole.
pub struct SnakeGame {
    snake: Vec<Point>,
    direction: Direction,
    next_direction: Direction,
    food: Option<Point>,
    score: u32,
    grid_width: i32,
    grid_height: i32,
    move_timer: u64,
    game_over: bool,
}

impl View for SnakeGame {
    type V = GameModel;

    closed spec fn view(&self) -> GameModel {
        GameModel {
            snake: cells(self.snake@),
            direction: self.direction,
            next_direction: self.next_direction,
            food: cell_of(self.food),
            score: self.score as nat,
            grid_width: self.grid_width as int,
            grid_height: self.grid_height as int,
            move_timer: self.move_timer as nat,
            game_over: self.game_over,
        }
    }
}

impl SnakeGame {
    /// The state is one that a game can be in: see [`GameModel::valid`].
    pub open spec fn wf(&self) -> bool {
        self@.valid()
    }

    /// Starts a game on a board of `grid_width` columns and `grid_height`
    /// rows: the snake is one cell in the middle of the board and heads
    /// right, the score is zero, and food lies on a free cell chosen by
    /// chance. On a board of a single cell there is no room for food, and
    /// the game is over from the start.
    pub fn new(grid_width: i32, grid_height: i32) -> (game: SnakeGame)
        requires
            grid_width > 0,
            grid_height > 0,
        ensures
            game.wf(),
            game@ == GameModel::fresh(grid_width as int, grid_height as int, game@.food),
            placement_allowed(
                seq![start_cell(grid_width as int, grid_height as int)],
                grid_width as int,
                grid_height as int,
                game@.food,
            ),
            game@.game_over <==> grid_width == 1 && grid_height == 1,
    {
        let init_pos = Point { x: grid_width / 2, y: grid_height / 2 };
        let mut snake: Vec<Point> = Vec::new();
        snake.push(init_pos);
        assert(cells(snake@) =~= seq![start_cell(grid_width as int, grid_height as int)]);
        let food = generate_food(&snake, grid_width, grid_height);
        proof {
            lemma_fresh_is_over_only_on_unit_board(grid_width as int, grid_height as int);
            lemma_fresh_is_valid(grid_width as int, grid_height as int, cell_of(food));
        }
        SnakeGame {
            snake,
            direction: Direction::Right,
            next_direction: Direction::Right,
            food,
            score: 0,
            grid_width,
            grid_height,
            move_timer: 0,
            game_over: food.is_none(),
        }
    }

    /// Performs one tick: see [`GameModel::tick`]. The one thing that chance
    /// decides is the cell of the new food after a meal; it is a cell that
    /// the grown snake leaves free, and there is none only where the snake
    /// has come to cover the whole board.
    ///
    /// The score must be below the largest `u32`, so that a meal can be
    /// counted.
    pub fn update_snake(&mut self)
        requires
            old(self).wf(),
            old(self)@.score < u32::MAX,
        ensures
            final(self).wf(),
            final(self)@ == old(self)@.tick(final(self)@.food),
            old(self)@.may_place(final(self)@.food),
    {
        if self.game_over {
            return ;
        }
        self.direction = self.next_direction;
        let head = self.snake[0];
        assert(cells(self.snake@)[0] == head@);
        let new_head = head.neighbor(self.direction);
        if !new_head.in_grid(self.grid_width, self.grid_height) {
            self.game_over = true;
            return ;
        }
        if contains_point(&self.snake, new_head) {
            self.game_over = true;
            return ;
        }
        let eats = match self.food {
            Some(f) => f == new_head,
            None => false,
        };
        self.snake.insert(0, new_head);
        assert(cells(self.snake@) =~= old(self)@.grown_snake());
        if eats {
            self.score += 1;
            self.food = generate_food(&self.snake, self.grid_width, self.grid_height);
            if self.food.is_none() {
                self.game_over = true;
            }
        } else {
            self.snake.pop();
            assert(cells(self.snake@) =~= old(self)@.moved_snake());
        }
        proof {
            lemma_tick_keeps_valid(old(self)@, self@.food);
        }
    }

    /// Lets `elapsed_nanos` nanoseconds pass: see [`GameModel::frame`]. The
    /// time is added to the timer; once the timer exceeds the period it
    /// starts again from zero and the snake makes one move.
    ///
    /// The score must be below the largest `u32`, so that a meal can be
    /// counted.
    pub fn update(&mut self, elapsed_nanos: u64)
        requires
            old(self).wf(),
            old(self)@.score < u32::MAX,
        ensures
            final(self).wf(),
            final(self)@ == old(self)@.frame(elapsed_nanos as nat, final(self)@.food),
            old(self)@.frame_may_place(elapsed_nanos as nat, final(self)@.food),
    {
        if elapsed_nanos > MOVE_PERIOD_NANOS - self.move_timer {
            self.move_timer = 0;
            self.update_snake();
        } else {
            self.move_timer = self.move_timer + elapsed_nanos;
        }
    }

    /// Asks for a turn towards `d`: see [`GameModel::turn`]. The request is
    /// dropped where `d` is the opposite of the direction of the last move;
    /// otherwise the next move goes towards `d`.
    pub fn set_direction(&mut self, d: Direction)
        ensures
            final(self)@ == old(self)@.turn(d),
            old(self).wf() ==> final(self).wf(),
    {
        if d != self.direction.opposite() {
            self.next_direction = d;
        }
    }

    /// Handles a key that has gone down: see [`GameModel::key_down`]. An
    /// arrow key asks for a turn. The key `R` starts a new game on a board of
    /// the same size where the game is over, with food on a free cell chosen
    /// by chance. Anything else is without effect.
    pub fn key_down_event(&mut self, key: Key)
        requires
            old(self).wf(),
        ensures
            final(self).wf(),
            final(self)@ == old(self)@.key_down(key, final(self)@.food),
            old(self)@.may_restart_with(key, final(self)@.food),
    {
        match key {
            Key::Up => self.set_direction(Direction::Up),
            Key::Down => self.set_direction(Direction::Down),
            Key::Left => self.set_direction(Direction::Left),
            Key::Right => self.set_direction(Direction::Right),
            Key::R => {
                if self.game_over {
                    *self = SnakeGame::new(self.grid_width, self.grid_height);
                }
            },
            Key::Other => {},
        }
    }

    /// Builds a game from the values that make up its state, with the timer
    /// at zero. Returns `None` exactly when they are not a state that a game
    /// can be in.
    pub fn from_parts(
        snake: Vec<Point>,
        direction: Direction,
        next_direction: Direction,
        food: Option<Point>,
        score: u32,
        grid_width: i32,
        grid_height: i32,
        game_over: bool,
    ) -> (r: Option<SnakeGame>)
        ensures
            r is Some <==> parts_model(
                snake@,
                direction,
                next_direction,
                food,
                score,
                grid_width,
                grid_height,
                game_over,
            ).valid(),
            r matches Some(game) ==> game@ == parts_model(
                snake@,
                direction,
                next_direction,
                food,
                score,
                grid_width,
                grid_height,
                game_over,
            ),
    {
        let game = SnakeGame {
            snake,
            direction,
            next_direction,
            food,
            score,
            grid_width,
            grid_height,
            move_timer: 0,
            game_over,
        };
        if game.is_valid() {
            Some(game)
        } else {
            None
        }
    }

    /// Tells whether the state is one that a game can be in. It is of every
    /// game that [`SnakeGame::new`] or [`SnakeGame::from_parts`] has made,
    /// whatever was done to it since.
    pub fn is_valid(&self) -> (r: bool)
        ensures
            r == self.wf(),
    {
        if self.grid_width <= 0 || self.grid_height <= 0 || self.snake.len() == 0 {
            return false;
        }
        if !all_in_grid(&self.snake, self.grid_width, self.grid_height) || !all_distinct(
            &self.snake,
        ) {
            return false;
        }
        let food_fits = match self.food {
            Some(f) => f.in_grid(self.grid_width, self.grid_height) && !contains_point(
                &self.snake,
                f,
            ),
            None => self.game_over,
        };
        food_fits && self.move_timer <= MOVE_PERIOD_NANOS
    }

    /// The points that the snake covers, the head first.
    pub fn snake(&self) -> (s: &Vec<Point>)
        ensures
            cells(s@) == self@.snake,
    {
        &self.snake
    }

    /// The direction of the last move.
    pub fn direction(&self) -> (d: Direction)
        ensures
            d == self@.direction,
    {
        self.direction
    }

    /// The direction that the next move will take.
    pub fn next_direction(&self) -> (d: Direction)
        ensures
            d == self@.next_direction,
    {
        self.next_direction
    }

    /// The point that holds food, if any does.
    pub fn food(&self) -> (f: Option<Point>)
        ensures
            cell_of(f) == self@.food,
    {
        self.food
    }

    /// The number of meals so far.
    pub fn score(&self) -> (n: u32)
        ensures
            n == self@.score,
    {
        self.score
    }

    /// The number of columns of the board.
    pub fn grid_width(&self) -> (w: i32)
        ensures
            w == self@.grid_width,
    {
        self.grid_width
    }

    /// The number of rows of the board.
    pub fn grid_height(&self) -> (h: i32)
        ensures
            h == self@.grid_height,
    {
        self.grid_height
    }

    /// The time gathered since the last move, in nanoseconds.
    pub fn move_timer(&self) -> (t: u64)
        ensures
            t == self@.move_timer,
    {
        self.move_timer
    }

    /// Whether the game has ended.
    pub fn game_over(&self) -> (over: bool)
        ensures
            over == self@.game_over,
    {
        self.game_over
    }
}

/// The state that the given values make up, with the timer at zero.
pub open spec fn parts_model(
    snake: Seq<Point>,
    direction: Direction,
    next_direction: Direction,
    food: Option<Point>,
    score: u32,
    grid_width: i32,
    grid_height: i32,
    game_over: bool,
) -> GameModel {
    GameModel {
        snake: cells(snake),
        direction,
        next_direction,
        food: cell_of(food),
        score: score as nat,
        grid_width: grid_width as int,
        grid_height: grid_height as int,
        move_timer: 0,
        game_over,
    }
}

} // verus!

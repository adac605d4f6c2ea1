//! What holds of every game: the facts about single steps, and the
//! invariant that every state reached from the start of a game satisfies.

use crate::food::{is_free, placement_allowed};
use crate::grid::{Cell, Direction};
use crate::model::{
    lemma_frame_keeps_valid, lemma_fresh_is_over_only_on_unit_board, lemma_fresh_is_valid,
    lemma_key_keeps_valid, lemma_tick_keeps_valid, lemma_turn_keeps_valid, start_cell, GameModel,
    Key,
};
use vstd::prelude::*;

verus! {

/// One thing that happens to a game, with the cell that chance picks for
/// the food where the step places any.
pub enum Step {
    /// One tick.
    Tick { placed: Option<Cell> },
    /// A request for a turn.
    Turn { towards: Direction },
    /// A key that goes down.
    KeyDown { key: Key, placed: Option<Cell> },
    /// A frame that took some nanoseconds.
    Frame { elapsed: nat, placed: Option<Cell> },
}

impl GameModel {
    /// Whether the step can happen in this state: the food that it places,
    /// if it places any, is where food may go.
    pub open spec fn permits(self, step: Step) -> bool {
        match step {
            Step::Tick { placed } => self.may_place(placed),
            Step::Turn { towards } => true,
            Step::KeyDown { key, placed } => self.may_restart_with(key, placed),
            Step::Frame { elapsed, placed } => self.frame_may_place(elapsed, placed),
        }
    }

    /// The state after the step.
    pub open spec fn after(self, step: Step) -> GameModel {
        match step {
            Step::Tick { placed } => self.tick(placed),
            Step::Turn { towards } => self.turn(towards),
            Step::KeyDown { key, placed } => self.key_down(key, placed),
            Step::Frame { elapsed, placed } => self.frame(elapsed, placed),
        }
    }

    /// The state after the steps, taken in order.
    pub open spec fn after_all(self, steps: Seq<Step>) -> GameModel
        decreases steps.len(),
    {
        if steps.len() == 0 {
            self
        } else {
            self.after_all(steps.drop_last()).after(steps.last())
        }
    }

    /// Whether the steps can happen in order, the first of them in this
    /// state.
    pub open spec fn permits_all(self, steps: Seq<Step>) -> bool
        decreases steps.len(),
    {
        steps.len() == 0 || (self.permits_all(steps.drop_last()) && self.after_all(
            steps.drop_last(),
        ).permits(steps.last()))
    }
}

/// Every step that can happen leads from a valid state to a valid state.
pub proof fn theorem_step_keeps_valid(m: GameModel, step: Step)
    requires
        m.valid(),
        m.permits(step),
    ensures
        m.after(step).valid(),
{
    match step {
        Step::Tick { placed } => lemma_tick_keeps_valid(m, placed),
        Step::Turn { towards } => lemma_turn_keeps_valid(m, towards),
        Step::KeyDown { key, placed } => lemma_key_keeps_valid(m, key, placed),
        Step::Frame { elapsed, placed } => lemma_frame_keeps_valid(m, elapsed, placed),
    }
}

/// Steps that can happen in order lead from a valid state to a valid
/// state.
pub proof fn theorem_steps_keep_valid(m: GameModel, steps: Seq<Step>)
    requires
        m.valid(),
        m.permits_all(steps),
    ensures
        m.after_all(steps).valid(),
    decreases steps.len(),
{
    if steps.len() > 0 {
        theorem_steps_keep_valid(m, steps.drop_last());
        theorem_step_keeps_valid(m.after_all(steps.drop_last()), steps.last());
    }
}

/// In every state that a game reaches from its start, by whatever ticks,
/// turns, keys and frames, the snake is not empty and covers no cell twice,
/// and it lies on the board.
pub proof fn theorem_snake_stays_sound(
    grid_width: int,
    grid_height: int,
    placed: Option<Cell>,
    steps: Seq<Step>,
)
    requires
        grid_width > 0,
        grid_height > 0,
        placement_allowed(seq![start_cell(grid_width, grid_height)], grid_width, grid_height, placed),
        GameModel::fresh(grid_width, grid_height, placed).permits_all(steps),
    ensures
        ({
            let reached = GameModel::fresh(grid_width, grid_height, placed).after_all(steps);
            &&& reached.snake.len() > 0
            &&& reached.snake.no_duplicates()
            &&& forall|i: int|
                0 <= i < reached.snake.len() ==> (#[trigger] reached.snake[i]).in_grid(
                    reached.grid_width,
                    reached.grid_height,
                )
        }),
{
    lemma_fresh_is_valid(grid_width, grid_height, placed);
    theorem_steps_keep_valid(GameModel::fresh(grid_width, grid_height, placed), steps);
}

/// In every state that a game reaches from its start, the food is on no
/// cell that the snake covers, and while the game goes on there is food on
/// the board.
pub proof fn theorem_food_stays_off_snake(
    grid_width: int,
    grid_height: int,
    placed: Option<Cell>,
    steps: Seq<Step>,
)
    requires
        grid_width > 0,
        grid_height > 0,
        placement_allowed(seq![start_cell(grid_width, grid_height)], grid_width, grid_height, placed),
        GameModel::fresh(grid_width, grid_height, placed).permits_all(steps),
    ensures
        ({
            let reached = GameModel::fresh(grid_width, grid_height, placed).after_all(steps);
            &&& reached.food matches Some(f) ==> is_free(
                reached.snake,
                reached.grid_width,
                reached.grid_height,
                f,
            )
            &&& !reached.game_over ==> reached.food is Some
        }),
{
    lemma_fresh_is_valid(grid_width, grid_height, placed);
    theorem_steps_keep_valid(GameModel::fresh(grid_width, grid_height, placed), steps);
}

/// A tick that neither leaves the board nor enters the snake puts the new
/// head in front. Where it reaches the food, the snake grows by one cell,
/// nothing removed, and the score grows by one. Where it does not, the last
/// cell is removed, so the length stays, and score and food stay.
pub proof fn theorem_move_grows_or_keeps_length(m: GameModel, placed: Option<Cell>)
    requires
        m.valid(),
        !m.game_over,
        !m.hits_wall(),
        !m.hits_body(),
    ensures
        m.tick(placed).snake[0] == m.next_head(),
        m.eats() ==> {
            &&& m.tick(placed).snake == seq![m.next_head()] + m.snake
            &&& m.tick(placed).snake.len() == m.snake.len() + 1
            &&& m.tick(placed).score == m.score + 1
        },
        !m.eats() ==> {
            &&& m.tick(placed).snake == seq![m.next_head()] + m.snake.drop_last()
            &&& m.tick(placed).snake.len() == m.snake.len()
            &&& m.tick(placed).score == m.score
            &&& m.tick(placed).food == m.food
            &&& !m.tick(placed).game_over
        },
{
}

/// No tick, turn or frame lowers the score, and no key does but the one
/// that starts a new game.
pub proof fn theorem_score_never_falls(m: GameModel, step: Step)
    requires
        !(step matches Step::KeyDown { key, .. } && m.key_restarts(key)),
    ensures
        m.after(step).score >= m.score,
{
}

/// A request for the opposite of the direction of the last move changes
/// nothing: the pending direction stays what it was.
pub proof fn theorem_reversal_is_ignored(m: GameModel, d: Direction)
    requires
        d == m.direction.reversed(),
    ensures
        m.turn(d) == m,
{
}

/// A request for the direction of the last move, or for one across it,
/// becomes the pending direction, and nothing else changes.
pub proof fn theorem_other_turn_is_accepted(m: GameModel, d: Direction)
    requires
        d != m.direction.reversed(),
    ensures
        m.turn(d).next_direction == d,
        m.turn(d) == (GameModel { next_direction: d, ..m }),
{
}

/// A tick of a running game whose move leaves the board ends the game and
/// leaves snake, food and score as they were.
pub proof fn theorem_wall_ends_game(m: GameModel, placed: Option<Cell>)
    requires
        !m.game_over,
        m.hits_wall(),
    ensures
        m.tick(placed).game_over,
        m.tick(placed).snake == m.snake,
        m.tick(placed).food == m.food,
        m.tick(placed).score == m.score,
{
}

/// A tick of a running game whose move enters a cell that the snake covers
/// ends the game and leaves snake, food and score as they were.
pub proof fn theorem_body_ends_game(m: GameModel, placed: Option<Cell>)
    requires
        !m.game_over,
        m.hits_body(),
    ensures
        m.tick(placed).game_over,
        m.tick(placed).snake == m.snake,
        m.tick(placed).food == m.food,
        m.tick(placed).score == m.score,
{
}

/// A tick does nothing to a game that is over.
pub proof fn theorem_finished_game_stays(m: GameModel, placed: Option<Cell>)
    requires
        m.game_over,
    ensures
        m.tick(placed) == m,
{
}

/// The key for a new game, given to a game that is over, leads to the
/// start of a game on the same board: a snake of one cell in the middle,
/// heading right, with no score and no time gathered. The new game goes on,
/// with food on a free cell, unless the board is a single cell.
pub proof fn theorem_restart_begins_anew(m: GameModel, placed: Option<Cell>)
    requires
        m.valid(),
        m.game_over,
        m.may_restart_with(Key::R, placed),
    ensures
        ({
            let next = m.key_down(Key::R, placed);
            &&& next.snake == seq![start_cell(m.grid_width, m.grid_height)]
            &&& next.direction == Direction::Right
            &&& next.next_direction == Direction::Right
            &&& next.score == 0
            &&& next.move_timer == 0
            &&& next.grid_width == m.grid_width
            &&& next.grid_height == m.grid_height
            &&& next.food == placed
            &&& next.game_over <==> m.grid_width == 1 && m.grid_height == 1
        }),
{
    lemma_fresh_is_over_only_on_unit_board(m.grid_width, m.grid_height);
}

} // verus!

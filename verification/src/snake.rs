//! A snake on a square grid, stepped once per frame.
//!
//! The caller says in a `SnakeInput` which keys are held down and samples its
//! clock once. `evaluate_game` makes every decision of the frame. What a
//! frame does to the game is written down once, as `SnakeModel::step`, and
//! `evaluate_game` is proved against it.

use crate::rand_seed::random_index;
use crate::timestamp::{Duration, Timestamp};
use std::collections::VecDeque;
use vstd::prelude::*;

verus! {

/// The grid is `SQUARES` cells wide and as many high.
pub const SQUARES: i16 = 16;

/// The snake moves one cell every so often: at first every 200
/// milliseconds.
pub const INITIAL_MOVEMENT_TICK_SPEED_NANOS: u64 = 200_000_000;

/// What a fruit is worth.
pub const FRUIT_SCORE: u64 = 100;

/// A cell of the grid, or a place just outside it: column and row, counted
/// from the top left.
pub type Point = (i16, i16);

#[derive(Clone, Copy, Debug, PartialEq, Eq, Structural)]
pub enum Direction {
    Right,
    Left,
    Up,
    Down,
}

impl Direction {
    /// The direction that a snake going this way cannot turn to.
    pub open spec fn opposite(self) -> Direction {
        match self {
            Direction::Right => Direction::Left,
            Direction::Left => Direction::Right,
            Direction::Up => Direction::Down,
            Direction::Down => Direction::Up,
        }
    }

    fn reverse(self) -> (reverse: Direction)
        ensures
            reverse == self.opposite(),
    {
        match self {
            Direction::Right => Direction::Left,
            Direction::Left => Direction::Right,
            Direction::Up => Direction::Down,
            Direction::Down => Direction::Up,
        }
    }
}

/// The keys that are held down in a frame.
#[derive(Clone, Copy, Debug, PartialEq, Eq, Structural)]
pub struct SnakeInput {
    /// The key that starts a new game once this one is over.
    pub restart: bool,
    pub right: bool,
    pub left: bool,
    pub up: bool,
    pub down: bool,
}

impl SnakeInput {
    /// The direction that the keys held down ask for: right goes before
    /// left, left before up, up before down.
    pub open spec fn dir_key_down(self) -> Option<Direction> {
        if self.right {
            Some(Direction::Right)
        } else if self.left {
            Some(Direction::Left)
        } else if self.up {
            Some(Direction::Up)
        } else if self.down {
            Some(Direction::Down)
        } else {
            None
        }
    }
}

/// The direction that the keys held down ask for.
pub fn get_dir_key_down(input: &SnakeInput) -> (dir: Option<Direction>)
    ensures
        dir == input.dir_key_down(),
{
    if input.right {
        Some(Direction::Right)
    } else if input.left {
        Some(Direction::Left)
    } else if input.up {
        Some(Direction::Up)
    } else if input.down {
        Some(Direction::Down)
    } else {
        None
    }
}

/// The place one cell from `point` in the direction `dir`.
pub open spec fn neighbor(point: Point, dir: Direction) -> Point {
    match dir {
        Direction::Right => ((point.0 + 1) as i16, point.1),
        Direction::Left => ((point.0 - 1) as i16, point.1),
        Direction::Up => (point.0, (point.1 - 1) as i16),
        Direction::Down => (point.0, (point.1 + 1) as i16),
    }
}

/// The place is a cell of the grid.
pub open spec fn on_grid(point: Point) -> bool {
    0 <= point.0 < SQUARES && 0 <= point.1 < SQUARES
}

/// The speed of the snake after a fruit: the time between two moves
/// shrinks to nine tenths, cut to a whole nanosecond.
pub open spec fn faster(movement_tick_speed: Duration) -> Duration {
    Duration { nanos: (movement_tick_speed.nanos * 9 / 10) as u64 }
}

/// What a game is: every value that a frame reads or changes.
pub struct SnakeModel {
    pub head: Point,
    /// The cells of the body, the one behind the head first.
    pub body: Seq<Point>,
    /// Where the next move goes.
    pub next_dir: Direction,
    /// Where the move after the next goes, if the player has said so.
    pub queued_dir: Option<Direction>,
    /// The direction of the next move has been chosen since the last move.
    pub next_dir_locked: bool,
    pub fruit: Point,
    pub score: u64,
    /// The time between two moves.
    pub movement_tick_speed: Duration,
    /// When the snake last moved.
    pub last_update: Timestamp,
    pub game_over: bool,
}

impl SnakeModel {
    /// The fruit lies on the grid, and so does the head while the game
    /// is on.
    pub open spec fn wf(self) -> bool {
        &&& on_grid(self.fruit)
        &&& !self.game_over ==> on_grid(self.head)
    }

    /// A game that has just begun at `now`, with the fruit at `fruit`.
    pub open spec fn initial(now: Timestamp, fruit: Point) -> SnakeModel {
        SnakeModel {
            head: (0, 0),
            body: Seq::empty(),
            next_dir: Direction::Right,
            queued_dir: None,
            next_dir_locked: false,
            fruit,
            score: 0,
            movement_tick_speed: Duration { nanos: INITIAL_MOVEMENT_TICK_SPEED_NANOS },
            last_update: now,
            game_over: false,
        }
    }

    /// What the keys held down do to the directions of the snake.
    ///
    /// Until a direction is chosen for the next move, the key chooses it,
    /// unless it would turn the snake back on itself. Once the next move is
    /// chosen, the key is kept for the move after it, under the same
    /// condition. Both happen in the frame in which the key chooses.
    pub open spec fn after_turn_keys(self, input: SnakeInput) -> SnakeModel {
        let chosen = if !self.next_dir_locked {
            match input.dir_key_down() {
                Some(dir) => if self.next_dir != dir.opposite() {
                    SnakeModel { next_dir: dir, next_dir_locked: true, ..self }
                } else {
                    self
                },
                None => self,
            }
        } else {
            self
        };
        if chosen.next_dir_locked {
            match input.dir_key_down() {
                Some(dir) => if chosen.next_dir != dir.opposite() {
                    SnakeModel { queued_dir: Some(dir), ..chosen }
                } else {
                    chosen
                },
                None => chosen,
            }
        } else {
            chosen
        }
    }

    /// The snake is due to move: more time has passed since its last move
    /// than its speed allows between two moves.
    pub open spec fn moves(self, now: Timestamp) -> bool {
        now.nanos - self.last_update.nanos > self.movement_tick_speed.nanos
    }

    /// The next move takes the head onto the fruit.
    pub open spec fn eats(self) -> bool {
        neighbor(self.head, self.next_dir) == self.fruit
    }

    /// The game after a move of the snake at `now`. `new_fruit` is where
    /// the next fruit comes to lie if the snake eats this one.
    ///
    /// The head goes one cell on and the body follows; with a fruit eaten
    /// the body grows by the cell that would otherwise be given up. The game
    /// is over if the head leaves the grid or runs into the body.
    pub open spec fn after_move(self, now: Timestamp, new_fruit: Point) -> SnakeModel {
        let head = neighbor(self.head, self.next_dir);
        let grown = seq![self.head] + self.body;
        let body = if self.eats() {
            grown
        } else {
            grown.drop_last()
        };
        SnakeModel {
            head,
            body,
            next_dir: match self.queued_dir {
                Some(dir) => dir,
                None => self.next_dir,
            },
            queued_dir: None,
            next_dir_locked: false,
            fruit: if self.eats() {
                new_fruit
            } else {
                self.fruit
            },
            score: if self.eats() {
                (self.score + FRUIT_SCORE) as u64
            } else {
                self.score
            },
            movement_tick_speed: if self.eats() {
                faster(self.movement_tick_speed)
            } else {
                self.movement_tick_speed
            },
            last_update: now,
            game_over: !on_grid(head) || body.contains(head),
        }
    }

    /// A frame can be stepped while the game is on if the clock has not
    /// gone backwards and the score still fits.
    pub open spec fn can_step(self, now: Timestamp, input: SnakeInput) -> bool {
        !self.game_over ==> {
            &&& self.last_update.nanos <= now.nanos
            &&& self.moves(now) && self.after_turn_keys(input).eats() ==> self.score + FRUIT_SCORE
                <= u64::MAX
        }
    }

    /// A frame that draws a place for a fruit.
    pub open spec fn draws_fruit(self, now: Timestamp, input: SnakeInput) -> bool {
        if self.game_over {
            input.restart
        } else {
            self.moves(now) && self.after_turn_keys(input).eats()
        }
    }

    /// The game after a frame at `now` with the input `input`. `new_fruit`
    /// is the place that the generator gives if the frame draws one; it is
    /// not looked at otherwise.
    pub open spec fn step(self, now: Timestamp, input: SnakeInput, new_fruit: Point) -> SnakeModel {
        if self.game_over {
            if input.restart {
                SnakeModel::initial(now, new_fruit)
            } else {
                self
            }
        } else {
            let turned = self.after_turn_keys(input);
            if turned.moves(now) {
                turned.after_move(now, new_fruit)
            } else {
                turned
            }
        }
    }
}

/// The rules of a game hold after a frame if they held before it, as long
/// as a place drawn for a fruit lies on the grid.
pub proof fn lemma_step_wf(model: SnakeModel, now: Timestamp, input: SnakeInput, new_fruit: Point)
    requires
        model.wf(),
        on_grid(new_fruit),
    ensures
        model.step(now, input, new_fruit).wf(),
{
}

/// A snake never turns back on itself: no key sets the direction of the
/// next move to the opposite of what it was, and a direction kept for the
/// move after it is not the opposite of the next move's.
pub proof fn lemma_no_turning_back(model: SnakeModel, input: SnakeInput)
    ensures
        model.after_turn_keys(input).next_dir != model.next_dir.opposite(),
        model.after_turn_keys(input).queued_dir != model.queued_dir ==> (model.after_turn_keys(
            input,
        ).queued_dir matches Some(dir) && dir != model.after_turn_keys(
            input,
        ).next_dir.opposite()),
{
}

struct Snake {
    head: Point,
    // the cell behind the head first
    body: VecDeque<Point>,
    next_dir: Direction,
    queued_dir: Option<Direction>,
    next_dir_locked: bool,
}

/// A game of snake.
pub struct SnakeGameState {
    snake: Snake,
    fruit: Point,
    score: u64,
    movement_tick_speed: Duration,
    last_update: Timestamp,
    game_over: bool,
}

impl View for SnakeGameState {
    type V = SnakeModel;

    closed spec fn view(&self) -> SnakeModel {
        SnakeModel {
            head: self.snake.head,
            body: self.snake.body@,
            next_dir: self.snake.next_dir,
            queued_dir: self.snake.queued_dir,
            next_dir_locked: self.snake.next_dir_locked,
            fruit: self.fruit,
            score: self.score,
            movement_tick_speed: self.movement_tick_speed,
            last_update: self.last_update,
            game_over: self.game_over,
        }
    }
}

/// The cell that two draws stand for: the first names the column, the
/// second the row.
pub fn fruit_at(column: usize, row: usize) -> (fruit: Point)
    requires
        column < SQUARES,
        row < SQUARES,
    ensures
        fruit.0 == column,
        fruit.1 == row,
        on_grid(fruit),
{
    (column as i16, row as i16)
}

/// A place on the grid for a fruit, drawn from the shared generator: first
/// the column, then the row.
fn random_fruit() -> (fruit: Point)
    ensures
        on_grid(fruit),
{
    let column = random_index(SQUARES as usize);
    let row = random_index(SQUARES as usize);
    fruit_at(column, row)
}

fn neighbor_of(point: Point, dir: Direction) -> (next: Point)
    requires
        -1 <= point.0 <= SQUARES,
        -1 <= point.1 <= SQUARES,
    ensures
        next == neighbor(point, dir),
{
    match dir {
        Direction::Right => (point.0 + 1, point.1),
        Direction::Left => (point.0 - 1, point.1),
        Direction::Up => (point.0, point.1 - 1),
        Direction::Down => (point.0, point.1 + 1),
    }
}

impl SnakeGameState {
    /// A game that begins at `now`: the snake is a head in the top left
    /// corner, bound to the right, and a fruit lies somewhere on the grid.
    pub fn new(now: Timestamp) -> (state: SnakeGameState)
        ensures
            state@ == SnakeModel::initial(now, state@.fruit),
            state@.wf(),
    {
        let state = SnakeGameState {
            snake: Snake {
                head: (0, 0),
                body: VecDeque::new(),
                next_dir: Direction::Right,
                queued_dir: None,
                next_dir_locked: false,
            },
            fruit: random_fruit(),
            score: 0,
            movement_tick_speed: Duration::from_nanos(INITIAL_MOVEMENT_TICK_SPEED_NANOS),
            last_update: now,
            game_over: false,
        };
        state
    }

    pub fn head(&self) -> (head: Point)
        ensures
            head == self@.head,
    {
        self.snake.head
    }

    /// The cells of the body, the one behind the head first.
    pub fn body(&self) -> (body: &VecDeque<Point>)
        ensures
            body@ == self@.body,
    {
        &self.snake.body
    }

    pub fn fruit(&self) -> (fruit: Point)
        ensures
            fruit == self@.fruit,
    {
        self.fruit
    }

    pub fn score(&self) -> (score: u64)
        ensures
            score == self@.score,
    {
        self.score
    }

    pub fn movement_tick_speed(&self) -> (speed: Duration)
        ensures
            speed == self@.movement_tick_speed,
    {
        self.movement_tick_speed
    }

    pub fn game_over(&self) -> (over: bool)
        ensures
            over == self@.game_over,
    {
        self.game_over
    }

    fn apply_turn_keys(&mut self, input: &SnakeInput)
        ensures
            final(self)@ == old(self)@.after_turn_keys(*input),
    {
        let dir_key_down = get_dir_key_down(input);
        if !self.snake.next_dir_locked {
            // check for change direction
            if let Some(dir) = dir_key_down {
                if self.snake.next_dir != dir.reverse() {
                    self.snake.next_dir = dir;
                    self.snake.next_dir_locked = true;
                }
            }
        }

        // Store the queued direction if the next move is already locked in
        if self.snake.next_dir_locked {
            if let Some(dir) = dir_key_down {
                if self.snake.next_dir != dir.reverse() {
                    self.snake.queued_dir = Some(dir);
                }
            }
        }
    }

    fn head_hits_body(&self) -> (hit: bool)
        ensures
            hit == self@.body.contains(self@.head),
    {
        let mut i: usize = 0;
        while i < self.snake.body.len()
            invariant
                i <= self.snake.body@.len(),
                forall|k: int| 0 <= k < i ==> self.snake.body@[k] != self.snake.head,
            decreases self.snake.body@.len() - i,
        {
            let cell = self.snake.body[i];
            if cell.0 == self.snake.head.0 && cell.1 == self.snake.head.1 {
                return true;
            }
            i = i + 1;
        }
        false
    }
}

/// Whether `evaluate_game` may be called for this frame.
pub fn can_evaluate_game(state: &SnakeGameState, now: Timestamp, input: &SnakeInput) -> (ok: bool)
    requires
        state@.wf(),
    ensures
        ok == state@.can_step(now, *input),
{
    if state.game_over {
        return true;
    }
    if state.last_update.nanos > now.nanos {
        return false;
    }
    if now.nanos - state.last_update.nanos > state.movement_tick_speed.nanos {
        let dir_key_down = get_dir_key_down(input);
        let mut next_dir = state.snake.next_dir;
        if !state.snake.next_dir_locked {
            if let Some(dir) = dir_key_down {
                if next_dir != dir.reverse() {
                    next_dir = dir;
                }
            }
        }
        let head = neighbor_of(state.snake.head, next_dir);
        if head.0 == state.fruit.0 && head.1 == state.fruit.1 {
            return state.score <= u64::MAX - FRUIT_SCORE;
        }
    }
    true
}

/// Steps the game through one frame: the clock reads `now`, and `input`
/// says which keys are held down.
///
/// The game after the frame is `step` of the game before it. Only the place
/// of a fruit drawn in this frame is left to chance, and it lies on the grid.
pub fn evaluate_game(state: &mut SnakeGameState, now: Timestamp, input: &SnakeInput)
    requires
        old(state)@.wf(),
        old(state)@.can_step(now, *input),
    ensures
        final(state)@ == old(state)@.step(now, *input, final(state)@.fruit),
        final(state)@.wf(),
{
    if state.game_over {
        if input.restart {
            *state = SnakeGameState::new(now);
        }
        return ;
    }
    state.apply_turn_keys(input);

    // apply movement if time has elapsed
    if now.elapsed_since(state.last_update).nanos > state.movement_tick_speed.nanos {
        state.last_update = now;
        state.snake.body.push_front(state.snake.head);
        state.snake.head = neighbor_of(state.snake.head, state.snake.next_dir);
        if state.snake.head.0 == state.fruit.0 && state.snake.head.1 == state.fruit.1 {
            // Grow!
            state.fruit = random_fruit();
            state.score = state.score + FRUIT_SCORE;
            let nanos = state.movement_tick_speed.nanos as u128 * 9 / 10;
            state.movement_tick_speed = Duration::from_nanos(nanos as u64);
        } else {
            // Normal movement.
            state.snake.body.pop_back();
        }

        // Apply the queued direction, which is known to be valid for the direction
        // just applied.
        if let Some(qd) = state.snake.queued_dir {
            state.snake.next_dir = qd;
            state.snake.queued_dir = None;
        }

        // Check for wall collision
        let mut game_over = false;
        if state.snake.head.0 < 0 || state.snake.head.1 < 0 || state.snake.head.0 >= SQUARES
            || state.snake.head.1 >= SQUARES {
            game_over = true;
        }

        // Check for body collision
        if state.head_hits_body() {
            game_over = true;
        }
        state.game_over = game_over;
        state.snake.next_dir_locked = false;
    }
}

} // verus!

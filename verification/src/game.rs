//! The game: phase, snake and food, advanced one frame at a time.

use crate::chain::{
    advanced, advanced_handles, head_index_of, self_hit, Snake, GROWTH, INITIAL_LENGTH,
};
use crate::collision::{food_collision_check, leftovers, lemma_leftovers, wall_collision_check};
use crate::food::{draw_cell, place_food, spawn_cell, with_food};
use crate::geometry::{Direction, Keys, Position, Viewport};
use crate::phase::{Controls, GameState};
use vstd::prelude::*;

verus! {

/// What one frame brings from outside: the keys, the timers that fired and
/// the size of the viewport.
#[derive(Clone, Copy, Debug, PartialEq, Eq, Structural)]
pub struct FrameInput {
    pub keys: Keys,
    pub controls: Controls,
    /// Whether the move timer fired in this frame.
    pub move_due: bool,
    pub viewport: Viewport,
}

/// What one frame asks of sound and of the host.
#[derive(Clone, Copy, Debug, PartialEq, Eq, Structural)]
pub struct FrameReport {
    /// A run has started.
    pub started: bool,
    /// Food was laid in this frame; it is the last piece on the board.
    pub spawned: bool,
    /// How many pieces of food the head ate in this frame.
    pub meals: usize,
    /// The head hit a wall or the body.
    pub crashed: bool,
    /// The player asked to leave.
    pub exit: bool,
}

/// Time between two move ticks, in milliseconds.
pub const MOVE_PERIOD_MS: u64 = 300;

/// Time between two spawn ticks, in milliseconds.
pub const SPAWN_PERIOD_MS: u64 = 1000;

/// The game as contracts see it.
pub struct Board {
    pub state: GameState,
    /// Positions of the segments, oldest first.
    pub cells: Seq<Position>,
    /// Handles of the segments, oldest first.
    pub handles: Seq<usize>,
    /// How many body parts this run has handed out.
    pub allocated: nat,
    pub desired: nat,
    pub heading: Direction,
    /// Positions of the food, oldest first.
    pub foods: Seq<Position>,
}

/// The largest viewport there is.
pub open spec fn widest() -> Viewport {
    Viewport { width: u32::MAX, height: u32::MAX }
}

impl Board {
    /// Position of the head.
    pub open spec fn head(self) -> Position {
        self.cells[head_index_of(self.desired, self.cells.len()) as int]
    }

    /// The board that a run starts with: one segment at the origin, heading
    /// north, and no food.
    pub open spec fn fresh(state: GameState) -> Board {
        Board {
            state,
            cells: seq![Position { x: 0, y: 0 }],
            handles: seq![0usize],
            allocated: 1,
            desired: INITIAL_LENGTH as nat,
            heading: Direction::North,
            foods: Seq::empty(),
        }
    }

    /// The same board in another phase.
    pub open spec fn in_state(self, state: GameState) -> Board {
        Board { state, ..self }
    }

    /// The segments after the move step of a playing frame, with the heading
    /// that this frame's keys give.
    pub open spec fn moved(self, input: FrameInput) -> Seq<Position> {
        if input.move_due {
            advanced(self.cells, self.desired, self.heading.steered(input.keys))
        } else {
            self.cells
        }
    }

    /// The handles after the move step of a playing frame: a move reuses the
    /// oldest handle unless the chain grows.
    pub open spec fn moved_handles(self, input: FrameInput) -> Seq<usize> {
        if input.move_due {
            advanced_handles(self.handles, self.desired, self.allocated)
        } else {
            self.handles
        }
    }

    /// The head after the move step of a playing frame.
    pub open spec fn moved_head(self, input: FrameInput) -> Position {
        self.moved(input)[head_index_of(self.desired, self.moved(input).len()) as int]
    }

    /// The food after the spawn step of a playing frame.
    pub open spec fn laid(self, input: FrameInput, spawn: Option<Position>) -> Seq<Position> {
        match spawn {
            Some(candidate) => with_food(self.foods, self.moved(input), candidate),
            None => self.foods,
        }
    }

    /// Whether a playing frame ends in a crash: after the move the head is
    /// outside the viewport or on another segment.
    pub open spec fn crashes(self, input: FrameInput) -> bool {
        self.moved_head(input).outside(input.viewport) || self_hit(
            self.moved(input),
            head_index_of(self.desired, self.moved(input).len()) as int,
        )
    }

    /// Whether the head eats in a playing frame.
    pub open spec fn eats(self, input: FrameInput, spawn: Option<Position>) -> bool {
        self.laid(input, spawn).contains(self.moved_head(input))
    }

    /// The board after a playing frame: steer, move, lay food, test for wall,
    /// body and food, then settle phase and growth.
    pub open spec fn played(self, input: FrameInput, spawn: Option<Position>) -> Board {
        Board {
            state: self.state.followed_by(input.controls, self.crashes(input)),
            cells: self.moved(input),
            handles: self.moved_handles(input),
            allocated: if input.move_due && self.cells.len() < self.desired {
                self.allocated + 1
            } else {
                self.allocated
            },
            desired: if self.eats(input, spawn) {
                self.desired + GROWTH as nat
            } else {
                self.desired
            },
            heading: self.heading.steered(input.keys),
            foods: leftovers(self.laid(input, spawn), self.moved_head(input)),
        }
    }

    /// The board after one frame. `spawn` is the cell that the spawner drew,
    /// if its timer fired; it counts only while playing.
    pub open spec fn framed(self, input: FrameInput, spawn: Option<Position>) -> Board {
        match self.state {
            GameState::StartGame => Board::fresh(GameState::InGame),
            GameState::InGame => self.played(input, spawn),
            _ => self.in_state(self.state.followed_by(input.controls, false)),
        }
    }

    /// What one frame reports.
    pub open spec fn reported(self, input: FrameInput, spawn: Option<Position>) -> FrameReport {
        FrameReport {
            started: self.state == GameState::StartGame,
            spawned: self.state == GameState::InGame && self.laid(input, spawn).len()
                > self.foods.len(),
            meals: if self.state == GameState::InGame {
                (self.laid(input, spawn).len() - self.played(input, spawn).foods.len()) as usize
            } else {
                0
            },
            crashed: self.state == GameState::InGame && self.crashes(input),
            exit: self.state == GameState::GameOver && input.controls.quit,
        }
    }
}

/// However many pieces of food lie under the head in a playing frame, the
/// desired length grows by `GROWTH` once, and it grows only if the head eats.
pub proof fn lemma_one_growth_per_frame(board: Board, input: FrameInput, spawn: Option<Position>)
    ensures
        board.played(input, spawn).desired == if board.eats(input, spawn) {
            board.desired + GROWTH
        } else {
            board.desired as int
        },
        board.eats(input, spawn) <==> board.played(input, spawn).foods.len() < board.laid(
            input,
            spawn,
        ).len(),
{
    let laid = board.laid(input, spawn);
    let head = board.moved_head(input);
    lemma_leftovers(laid, head);
}

/// In a playing frame no food is laid on a cell that the snake covers after
/// its move, and no other food is touched by the spawner.
pub proof fn lemma_no_food_on_the_snake(board: Board, input: FrameInput, candidate: Position)
    ensures
        board.moved(input).contains(candidate) ==> board.laid(input, Some(candidate))
            == board.foods,
        !board.moved(input).contains(candidate) ==> board.laid(input, Some(candidate))
            == board.foods.push(candidate),
        board.laid(input, None) == board.foods,
{
}

/// A game of snake.
pub struct Game {
    state: GameState,
    snake: Snake,
    foods: Vec<Position>,
}

impl View for Game {
    type V = Board;

    closed spec fn view(&self) -> Board {
        Board {
            state: self.state,
            cells: self.snake.cells(),
            handles: self.snake.handles(),
            allocated: self.snake.allocated(),
            desired: self.snake.desired(),
            heading: self.snake.heading(),
            foods: self.foods@,
        }
    }
}

impl Game {
    /// The snake is well formed and no longer than it wants to be, and while
    /// a run is on or paused its head is inside the largest viewport.
    pub closed spec fn wf(&self) -> bool {
        &&& self.snake.wf()
        &&& self.snake.cells().len() <= self.snake.desired()
        &&& self.state == GameState::InGame || self.state == GameState::Pause
            ==> !self@.head().outside(widest())
    }

    /// What holds of the board of every game, in every phase: the chain is
    /// never empty and never longer than it wants to be, so its head is its
    /// last segment; each segment has a handle of its own; and while a run is
    /// on or paused the head is inside the largest viewport.
    pub proof fn lemma_board_invariants(&self)
        requires
            self.wf(),
        ensures
            0 < self@.cells.len() <= self@.desired,
            self@.head() == self@.cells.last(),
            self@.handles.len() == self@.cells.len(),
            self@.handles.no_duplicates(),
            forall|i: int|
                0 <= i < self@.handles.len() ==> (#[trigger] self@.handles[i]) < self@.allocated,
            self@.state == GameState::InGame || self@.state == GameState::Pause
                ==> !self@.head().outside(widest()),
    {
        self.snake.lemma_never_empty();
        self.snake.lemma_handles_distinct();
    }

    /// A game at the menu.
    pub fn new() -> (g: Game)
        ensures
            g.wf(),
            g@ == Board::fresh(GameState::Menu),
    {
        Game { state: GameState::Menu, snake: Snake::new(), foods: Vec::new() }
    }

    pub fn state(&self) -> (s: GameState)
        ensures
            s == self@.state,
    {
        self.state
    }

    /// The snake of the current run.
    pub fn snake(&self) -> (s: &Snake)
        requires
            self.wf(),
        ensures
            s.wf(),
            s.cells() == self@.cells,
            s.handles() == self@.handles,
            s.allocated() == self@.allocated,
            s.desired() == self@.desired,
            s.heading() == self@.heading,
    {
        &self.snake
    }

    /// The food on the board, oldest first.
    pub fn foods(&self) -> (f: &Vec<Position>)
        ensures
            f@ == self@.foods,
    {
        &self.foods
    }

    /// One frame with the spawner's draw given: `spawn` holds the cell that it
    /// drew if its timer fired in this frame.
    pub fn frame(&mut self, input: FrameInput, spawn: Option<Position>) -> (report: FrameReport)
        requires
            old(self).wf(),
            old(self)@.desired + GROWTH <= u64::MAX,
        ensures
            final(self).wf(),
            final(self)@ == old(self)@.framed(input, spawn),
            report == old(self)@.reported(input, spawn),
    {
        let ghost before = self@;
        proof {
            self.snake.lemma_never_empty();
        }
        let mut report = FrameReport {
            started: false,
            spawned: false,
            meals: 0,
            crashed: false,
            exit: false,
        };
        match self.state {
            GameState::StartGame => {
                self.snake = Snake::new();
                self.foods = Vec::new();
                self.state = GameState::InGame;
                report.started = true;
                assert(self@.foods =~= Board::fresh(GameState::InGame).foods);
            },
            GameState::InGame => {
                self.snake.steer(input.keys);
                if input.move_due {
                    self.snake.advance();
                }
                report.spawned = match spawn {
                    Some(candidate) => place_food(&self.snake, &mut self.foods, candidate),
                    None => false,
                };
                let ghost laid = self.foods@;
                let head = self.snake.head();
                let wall: bool = wall_collision_check(head, input.viewport);
                let own: bool = self.snake.hits_self();
                report.meals = food_collision_check(&mut self.foods, head);
                report.crashed = wall || own;
                self.state = self.state.next(input.controls, report.crashed);
                self.snake.grow(report.meals);
                assert(laid == before.laid(input, spawn));
                assert(head == before.moved_head(input));
            },
            _ => {
                report.exit = self.state == GameState::GameOver && input.controls.quit;
                self.state = self.state.next(input.controls, false);
            },
        }
        report
    }

    /// One frame. If the spawn timer fired while a run is on, the spawner
    /// draws a cell of the viewport; the frame then goes as `frame` says for
    /// that draw.
    pub fn tick(&mut self, input: FrameInput, spawn_due: bool) -> (report: FrameReport)
        requires
            old(self).wf(),
            old(self)@.desired + GROWTH <= u64::MAX,
        ensures
            final(self).wf(),
            exists|spawn: Option<Position>|
                {
                    &&& spawn.is_some() <==> spawn_due && old(self)@.state == GameState::InGame
                    &&& spawn matches Some(c) ==> spawn_cell(c, input.viewport)
                    &&& final(self)@ == #[trigger] old(self)@.framed(input, spawn)
                    &&& report == old(self)@.reported(input, spawn)
                },
    {
        let spawn = if spawn_due && self.state == GameState::InGame {
            Some(draw_cell(input.viewport))
        } else {
            None
        };
        self.frame(input, spawn)
    }
}

} // verus!

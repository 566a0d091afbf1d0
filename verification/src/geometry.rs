//! Directions, positions and the viewport, all in whole world units.

use vstd::prelude::*;

verus! {

/// Side length of one grid cell, in world units.
pub const CELL_SIZE: i64 = 10;

/// The heading of a chain.
#[derive(Clone, Copy, Debug, PartialEq, Eq, Structural)]
pub enum Direction {
    North,
    East,
    West,
    South,
}

/// The arrow keys that were newly pressed in one frame.
#[derive(Clone, Copy, Debug, PartialEq, Eq, Structural)]
pub struct Keys {
    pub left: bool,
    pub right: bool,
    pub up: bool,
    pub down: bool,
}

impl Direction {
    /// Horizontal component of the unit vector of this heading.
    pub open spec fn dx(self) -> int {
        match self {
            Direction::North => 0,
            Direction::East => 1,
            Direction::West => -1,
            Direction::South => 0,
        }
    }

    /// Vertical component of the unit vector of this heading.
    pub open spec fn dy(self) -> int {
        match self {
            Direction::North => 1,
            Direction::East => 0,
            Direction::West => 0,
            Direction::South => -1,
        }
    }

    /// The heading that points the other way.
    pub open spec fn reversed(self) -> Direction {
        match self {
            Direction::North => Direction::South,
            Direction::East => Direction::West,
            Direction::West => Direction::East,
            Direction::South => Direction::North,
        }
    }

    /// The heading after one frame of input. The keys are tried in the order
    /// left, right, up, down; the first pressed key whose heading is not the
    /// reverse of the current one wins, and without one the heading stays.
    pub open spec fn steered(self, keys: Keys) -> Direction {
        if keys.left && self != Direction::East {
            Direction::West
        } else if keys.right && self != Direction::West {
            Direction::East
        } else if keys.up && self != Direction::South {
            Direction::North
        } else if keys.down && self != Direction::North {
            Direction::South
        } else {
            self
        }
    }

    pub fn to_x(&self) -> (r: i64)
        ensures
            r == self.dx(),
    {
        match self {
            Direction::North => 0,
            Direction::East => 1,
            Direction::West => -1,
            Direction::South => 0,
        }
    }

    pub fn to_y(&self) -> (r: i64)
        ensures
            r == self.dy(),
    {
        match self {
            Direction::North => 1,
            Direction::East => 0,
            Direction::West => 0,
            Direction::South => -1,
        }
    }

    pub fn reverse(&self) -> (r: Direction)
        ensures
            r == self.reversed(),
    {
        match self {
            Direction::North => Direction::South,
            Direction::East => Direction::West,
            Direction::West => Direction::East,
            Direction::South => Direction::North,
        }
    }

    /// Applies one frame of arrow-key input to this heading.
    pub fn steer(&self, keys: Keys) -> (r: Direction)
        ensures
            r == self.steered(keys),
            r != self.reversed(),
    {
        if keys.left && *self != Direction::East {
            Direction::West
        } else if keys.right && *self != Direction::West {
            Direction::East
        } else if keys.up && *self != Direction::South {
            Direction::North
        } else if keys.down && *self != Direction::North {
            Direction::South
        } else {
            *self
        }
    }
}

/// A point of the plane in world units.
#[derive(Clone, Copy, Debug, PartialEq, Eq, Structural)]
pub struct Position {
    pub x: i64,
    pub y: i64,
}

impl Position {
    /// Whether the point one cell further in `dir` still has machine
    /// coordinates.
    pub open spec fn can_step(self, dir: Direction) -> bool {
        &&& i64::MIN <= self.x + dir.dx() * CELL_SIZE <= i64::MAX
        &&& i64::MIN <= self.y + dir.dy() * CELL_SIZE <= i64::MAX
    }

    /// The point one cell further in `dir`.
    pub open spec fn stepped(self, dir: Direction) -> Position {
        Position {
            x: (self.x + dir.dx() * CELL_SIZE) as i64,
            y: (self.y + dir.dy() * CELL_SIZE) as i64,
        }
    }

    /// Whether the point lies strictly outside the viewport, which is centred
    /// on the origin. A point on the border is inside.
    pub open spec fn outside(self, viewport: Viewport) -> bool {
        ||| 2 * self.x > viewport.width
        ||| 2 * self.x < -(viewport.width as int)
        ||| 2 * self.y > viewport.height
        ||| 2 * self.y < -(viewport.height as int)
    }

    pub fn new(x: i64, y: i64) -> (r: Position)
        ensures
            r.x == x,
            r.y == y,
    {
        Position { x, y }
    }

    /// Moves one cell in `dir`.
    pub fn step(self, dir: Direction) -> (r: Position)
        requires
            self.can_step(dir),
        ensures
            r == self.stepped(dir),
            r.x == self.x + dir.dx() * CELL_SIZE,
            r.y == self.y + dir.dy() * CELL_SIZE,
    {
        let dx: i64 = dir.to_x();
        let dy: i64 = dir.to_y();
        Position { x: self.x + dx * CELL_SIZE, y: self.y + dy * CELL_SIZE }
    }
}

/// Width and height of the visible area, in world units.
#[derive(Clone, Copy, Debug, PartialEq, Eq, Structural)]
pub struct Viewport {
    pub width: u32,
    pub height: u32,
}

} // verus!

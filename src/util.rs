use vstd::prelude::*;

verus! {

/// Units in one screen unit; the board spans `-UNITS_PER_SCREEN..=UNITS_PER_SCREEN`.
pub const UNITS_PER_SCREEN: i64 = 100_000;

/// Units in one hundredth of a screen unit, the grain at which grid math rounds.
pub const UNITS_PER_HUNDREDTH: i64 = 1_000;

/// Distance the snake moves per tick after a reset (0.005 screen units).
pub const STARTING_SNAKE_SPEED: i64 = 500;

/// Speed gained with each pellet eaten (0.00075 screen units).
pub const SNAKE_SPEED_INC: i64 = 75;

/// Heading of the snake. Discrete, so that motion stays on the grid axes.
#[derive(Debug, Clone, Copy, PartialEq, Eq, Structural)]
pub enum Direction {
    Idle,
    Up,
    Down,
    Left,
    Right,
}

impl Direction {
    /// The heading that points straight back; `Idle` has none.
    pub open spec fn is_opposite(self, other: Direction) -> bool {
        match (self, other) {
            (Direction::Up, Direction::Down) => true,
            (Direction::Down, Direction::Up) => true,
            (Direction::Left, Direction::Right) => true,
            (Direction::Right, Direction::Left) => true,
            _ => false,
        }
    }

    /// Unit step along the heading, as (dx, dy) in {-1, 0, 1}; up is +y.
    pub open spec fn step_spec(self) -> (int, int) {
        match self {
            Direction::Idle => (0, 0),
            Direction::Up => (0, 1),
            Direction::Down => (0, -1),
            Direction::Left => (-1, 0),
            Direction::Right => (1, 0),
        }
    }

    pub fn is_reversal_of(&self, other: &Direction) -> (r: bool)
        ensures
            r == self.is_opposite(*other),
    {
        match (self, other) {
            (Direction::Up, Direction::Down) => true,
            (Direction::Down, Direction::Up) => true,
            (Direction::Left, Direction::Right) => true,
            (Direction::Right, Direction::Left) => true,
            _ => false,
        }
    }

    pub fn step(&self) -> (r: (i64, i64))
        ensures
            r.0 as int == self.step_spec().0,
            r.1 as int == self.step_spec().1,
    {
        match self {
            Direction::Idle => (0, 0),
            Direction::Up => (0, 1),
            Direction::Down => (0, -1),
            Direction::Left => (-1, 0),
            Direction::Right => (1, 0),
        }
    }
}

} // verus!

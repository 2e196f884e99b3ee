//! Grid coordinates, headings, and the simulation's error kinds.

use vstd::prelude::*;

verus! {

/// A lattice point of the 3-dimensional grid. Equality is exact; there is no
/// invariant beyond being a triple of signed integers.
#[derive(Clone, Copy, Debug, PartialEq, Eq, Structural)]
pub struct GridPosition {
    pub x: i32,
    pub y: i32,
    pub z: i32,
}

/// The errors the simulation core can report.
#[derive(Clone, Copy, Debug, PartialEq, Eq, Structural)]
pub enum SnakeError {
    /// A vector that is not one of the six axis-aligned unit deltas was asked
    /// to name a heading; a programming error, never a silent default.
    InvalidDirection,
    /// Growth was invoked without a pending tail position captured by the
    /// most recent movement step; an orchestration-order defect.
    GrowthWithoutPendingPosition,
    /// No free cell is left inside the bounds for the food to respawn on.
    BoardFull,
}

impl GridPosition {
    /// Whether the component-wise sum of `self` and `other` fits the
    /// machine's integer range on every axis.
    pub open spec fn can_add(self, other: GridPosition) -> bool {
        &&& i32::MIN <= self.x + other.x <= i32::MAX
        &&& i32::MIN <= self.y + other.y <= i32::MAX
        &&& i32::MIN <= self.z + other.z <= i32::MAX
    }

    /// Component-wise addition.
    pub fn add(self, other: GridPosition) -> (r: GridPosition)
        requires
            self.can_add(other),
        ensures
            r.x == self.x + other.x,
            r.y == self.y + other.y,
            r.z == self.z + other.z,
    {
        GridPosition { x: self.x + other.x, y: self.y + other.y, z: self.z + other.z }
    }
}

/// One of the six axis-aligned headings a snake head can travel in.
#[derive(Clone, Copy, Debug, PartialEq, Eq, Structural)]
pub enum Direction {
    Up,
    Down,
    Left,
    Right,
    Forward,
    Backward,
}

impl Direction {
    /// The unit grid vector this heading stands for.
    pub open spec fn delta_spec(self) -> GridPosition {
        match self {
            Direction::Up => GridPosition { x: 0, y: 1, z: 0 },
            Direction::Down => GridPosition { x: 0, y: -1i32, z: 0 },
            Direction::Right => GridPosition { x: 1, y: 0, z: 0 },
            Direction::Left => GridPosition { x: -1i32, y: 0, z: 0 },
            Direction::Forward => GridPosition { x: 0, y: 0, z: 1 },
            Direction::Backward => GridPosition { x: 0, y: 0, z: -1i32 },
        }
    }

    /// The unit grid vector this heading stands for.
    pub fn delta(self) -> (r: GridPosition)
        ensures
            r == self.delta_spec(),
    {
        match self {
            Direction::Up => GridPosition { x: 0, y: 1, z: 0 },
            Direction::Down => GridPosition { x: 0, y: -1, z: 0 },
            Direction::Right => GridPosition { x: 1, y: 0, z: 0 },
            Direction::Left => GridPosition { x: -1, y: 0, z: 0 },
            Direction::Forward => GridPosition { x: 0, y: 0, z: 1 },
            Direction::Backward => GridPosition { x: 0, y: 0, z: -1 },
        }
    }

    /// Names the heading whose unit vector is `v`. A vector that is not one
    /// of the six unit deltas is a programming error and is rejected.
    pub fn from_delta(v: GridPosition) -> (r: Result<Direction, SnakeError>)
        ensures
            match r {
                Ok(d) => d.delta_spec() == v,
                Err(e) => {
                    &&& e == SnakeError::InvalidDirection
                    &&& forall|d: Direction| d.delta_spec() != v
                },
            },
    {
        if v == (GridPosition { x: 0, y: 1, z: 0 }) {
            Ok(Direction::Up)
        } else if v == (GridPosition { x: 0, y: -1, z: 0 }) {
            Ok(Direction::Down)
        } else if v == (GridPosition { x: 1, y: 0, z: 0 }) {
            Ok(Direction::Right)
        } else if v == (GridPosition { x: -1, y: 0, z: 0 }) {
            Ok(Direction::Left)
        } else if v == (GridPosition { x: 0, y: 0, z: 1 }) {
            Ok(Direction::Forward)
        } else if v == (GridPosition { x: 0, y: 0, z: -1 }) {
            Ok(Direction::Backward)
        } else {
            proof {
                assert forall|d: Direction| d.delta_spec() != v by {
                    match d {
                        Direction::Up => {},
                        Direction::Down => {},
                        Direction::Right => {},
                        Direction::Left => {},
                        Direction::Forward => {},
                        Direction::Backward => {},
                    }
                }
            }
            Err(SnakeError::InvalidDirection)
        }
    }
}

/// The mapping between headings and unit vectors is injective, so together
/// with `from_delta`'s contract it is a total bijection between `Direction`
/// and the six unit grid vectors.
pub proof fn lemma_direction_delta_injective(a: Direction, b: Direction)
    requires
        a.delta_spec() == b.delta_spec(),
    ensures
        a == b,
{
}

} // verus!

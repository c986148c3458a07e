//! Grid coordinates.

use vstd::prelude::*;

verus! {

/// A cell of the grid. `x` grows to the right and `y` grows downwards.
#[derive(Clone, Copy, Debug, PartialEq, Eq, Hash, Structural)]
pub struct Position {
    pub x: isize,
    pub y: isize,
}

impl Position {
    pub fn new(x: isize, y: isize) -> (position: Position)
        ensures
            position == (Position { x, y }),
    {
        Position { x, y }
    }

    /// The sum of two positions, coordinate by coordinate, as integers.
    pub open spec fn plus(self, other: Position) -> (int, int) {
        (self.x + other.x, self.y + other.y)
    }

    /// The product of two positions, coordinate by coordinate, as integers.
    pub open spec fn times(self, other: Position) -> (int, int) {
        (self.x * other.x, self.y * other.y)
    }

    /// Whether a pair of integers can be held as a position.
    pub open spec fn representable(pair: (int, int)) -> bool {
        isize::MIN <= pair.0 <= isize::MAX && isize::MIN <= pair.1 <= isize::MAX
    }

    /// Adds two positions; `None` where a coordinate of the sum cannot be held.
    pub fn checked_add(self, other: Position) -> (sum: Option<Position>)
        ensures
            sum is Some <==> Self::representable(self.plus(other)),
            sum matches Some(p) ==> (p.x as int, p.y as int) == self.plus(other),
    {
        match (self.x.checked_add(other.x), self.y.checked_add(other.y)) {
            (Some(x), Some(y)) => Some(Position { x, y }),
            _ => None,
        }
    }
}

impl core::ops::Add for Position {
    type Output = Position;

    fn add(self, other: Position) -> (sum: Position) {
        Position { x: self.x + other.x, y: self.y + other.y }
    }
}

impl vstd::std_specs::ops::AddSpecImpl for Position {
    open spec fn obeys_add_spec() -> bool {
        true
    }

    open spec fn add_req(self, other: Position) -> bool {
        Position::representable(self.plus(other))
    }

    open spec fn add_spec(self, other: Position) -> Position {
        Position { x: (self.x + other.x) as isize, y: (self.y + other.y) as isize }
    }
}

impl core::ops::Mul for Position {
    type Output = Position;

    fn mul(self, other: Position) -> (product: Position) {
        Position { x: self.x * other.x, y: self.y * other.y }
    }
}

impl vstd::std_specs::ops::MulSpecImpl for Position {
    open spec fn obeys_mul_spec() -> bool {
        true
    }

    open spec fn mul_req(self, other: Position) -> bool {
        Position::representable(self.times(other))
    }

    open spec fn mul_spec(self, other: Position) -> Position {
        Position { x: (self.x * other.x) as isize, y: (self.y * other.y) as isize }
    }
}

} // verus!

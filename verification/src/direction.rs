//! The four headings, their fixed order, their opposites and the cell each one
//! leads to.

use vstd::prelude::*;

verus! {

/// A heading of the snake.
///
/// The variants are listed in their fixed total order, smallest first. The
/// order carries no meaning of its own: it only serves to put an unordered
/// pair of headings into one canonical form.
#[derive(Clone, Copy, Debug, PartialEq, Eq, Structural)]
pub enum Direction {
    Left,
    Down,
    Up,
    Right,
}

impl Direction {
    /// Place of this heading in the total order `Left < Down < Up < Right`.
    pub open spec fn rank(self) -> int {
        match self {
            Direction::Left => 0,
            Direction::Down => 1,
            Direction::Up => 2,
            Direction::Right => 3,
        }
    }

    /// The heading paired with this one: `Left` with `Right`, `Up` with `Down`.
    pub open spec fn spec_opposite(self) -> Direction {
        match self {
            Direction::Left => Direction::Right,
            Direction::Right => Direction::Left,
            Direction::Up => Direction::Down,
            Direction::Down => Direction::Up,
        }
    }

    /// Change of the column when moving one cell along this heading.
    ///
    /// `Left` runs towards larger columns and `Right` towards smaller ones.
    pub open spec fn dx(self) -> int {
        match self {
            Direction::Left => 1,
            Direction::Right => -1,
            Direction::Up | Direction::Down => 0,
        }
    }

    /// Change of the row when moving one cell along this heading.
    ///
    /// `Up` runs towards smaller rows and `Down` towards larger ones.
    pub open spec fn dy(self) -> int {
        match self {
            Direction::Down => 1,
            Direction::Up => -1,
            Direction::Left | Direction::Right => 0,
        }
    }

    /// Computes [`Direction::rank`].
    pub fn ordinal(self) -> (r: u8)
        ensures
            r == self.rank(),
    {
        match self {
            Direction::Left => 0,
            Direction::Down => 1,
            Direction::Up => 2,
            Direction::Right => 3,
        }
    }

    /// Returns the opposite heading.
    #[verifier::when_used_as_spec(spec_opposite)]
    pub fn opposite(self) -> (r: Direction)
        ensures
            r == self.spec_opposite(),
    {
        match self {
            Direction::Left => Direction::Right,
            Direction::Right => Direction::Left,
            Direction::Up => Direction::Down,
            Direction::Down => Direction::Up,
        }
    }
}

/// The cell reached from `from` by one step along `heading`, as mathematical
/// integers.
pub open spec fn step(from: (i32, i32), heading: Direction) -> (int, int) {
    (from.0 + heading.dx(), from.1 + heading.dy())
}

/// The heading whose unit step leads from `from` to `to`, if the two cells
/// are neighbours along an axis.
pub open spec fn heading_between(from: (i32, i32), to: (i32, i32)) -> Option<Direction> {
    if to.0 - from.0 == -1 && to.1 == from.1 {
        Some(Direction::Right)
    } else if to.0 - from.0 == 1 && to.1 == from.1 {
        Some(Direction::Left)
    } else if to.0 == from.0 && to.1 - from.1 == -1 {
        Some(Direction::Up)
    } else if to.0 == from.0 && to.1 - from.1 == 1 {
        Some(Direction::Down)
    } else {
        None
    }
}

/// Taking the opposite twice gives the heading back, and no heading is its
/// own opposite.
pub proof fn lemma_opposite_involution(d: Direction)
    ensures
        d.opposite().opposite() == d,
        d.opposite() != d,
{
}

} // verus!

use vstd::prelude::*;

verus! {

/// A 1-indexed (column, row) address of a board cell.
///
/// Both components are at least 1. The fields are private and the only
/// constructor demands it, so every `Position` that verified code holds
/// satisfies this.
#[derive(Copy, Clone, Debug, Hash, PartialEq, Eq, Structural)]
pub struct Position(u32, u32);

impl Position {
    #[verifier::type_invariant]
    spec fn one_indexed(self) -> bool {
        self.0 >= 1 && self.1 >= 1
    }

    /// The column, counted from 1.
    pub closed spec fn col(self) -> int {
        self.0 as int
    }

    /// The row, counted from 1.
    pub closed spec fn row(self) -> int {
        self.1 as int
    }

    /// The position with the given column and row.
    pub closed spec fn at(col: int, row: int) -> Position {
        Position(col as u32, row as u32)
    }

    /// Builds the position `(x, y)`. Both components must be at least 1.
    pub fn new(x: u32, y: u32) -> (r: Position)
        requires
            x >= 1,
            y >= 1,
        ensures
            r.col() == x,
            r.row() == y,
            r == Position::at(x as int, y as int),
    {
        Position(x, y)
    }

    /// The column, counted from 1.
    pub fn x(&self) -> (r: u32)
        ensures
            r == self.col(),
            r >= 1,
    {
        proof {
            use_type_invariant(self);
        }
        self.0
    }

    /// The row, counted from 1.
    pub fn y(&self) -> (r: u32)
        ensures
            r == self.row(),
            r >= 1,
    {
        proof {
            use_type_invariant(self);
        }
        self.1
    }

    /// Hands both components to `f` and returns what `f` returns.
    pub fn map<T, F: FnOnce(u32, u32) -> T>(&self, f: F) -> (r: T)
        requires
            call_requires(f, (self.col() as u32, self.row() as u32)),
        ensures
            call_ensures(f, (self.col() as u32, self.row() as u32), r),
    {
        f(self.0, self.1)
    }

    /// The components of `Position::at(col, row)` are `col` and `row`,
    /// as long as both fit the component type.
    pub proof fn lemma_at_components(col: int, row: int)
        requires
            0 <= col <= u32::MAX,
            0 <= row <= u32::MAX,
        ensures
            Position::at(col, row).col() == col,
            Position::at(col, row).row() == row,
    {
    }

    /// Components are never negative and fit in 32 bits, and a position is
    /// the one that `Position::at` gives for its components: two positions
    /// with the same column and row are equal.
    pub proof fn lemma_component_range(p: Position)
        ensures
            0 <= p.col() <= u32::MAX,
            0 <= p.row() <= u32::MAX,
            p == Position::at(p.col(), p.row()),
    {
    }
}

} // verus!

use vstd::prelude::*;
use crate::board::{BOARD_SIZE_X, BOARD_SIZE_Y};
use crate::position::Position;

verus! {

/// Width of the window, in pixels.
pub const SCREEN_PIXELS_X: u32 = 800;

/// Height of the window, in pixels.
pub const SCREEN_PIXELS_Y: u32 = 500;

/// Width of one board cell on screen, in pixels. Screen pixels beyond a
/// whole multiple of the board's extent belong to no cell.
pub const CELL_SIZE_X: u32 = SCREEN_PIXELS_X / BOARD_SIZE_X;

/// Height of one board cell on screen, in pixels.
pub const CELL_SIZE_Y: u32 = SCREEN_PIXELS_Y / BOARD_SIZE_Y;

/// An exact fraction `num / den`.
#[derive(Copy, Clone, Debug, PartialEq, Eq, Structural)]
pub struct Ratio {
    pub num: i64,
    pub den: i64,
}

impl Ratio {
    /// The denominator is positive.
    pub open spec fn valid(self) -> bool {
        self.den > 0
    }

    /// Whether the fraction lies in the closed interval from -1 to 1.
    pub open spec fn within_unit(self) -> bool {
        -self.den <= self.num <= self.den
    }
}

/// A point in normalized device coordinates: the visible square spans -1 to
/// 1 on both axes, and y grows upwards.
#[derive(Copy, Clone, Debug, PartialEq, Eq, Structural)]
pub struct CanvasPoint {
    pub x: Ratio,
    pub y: Ratio,
}

/// Numerator, over `BOARD_SIZE_X`, of the canvas x coordinate of column
/// `col` (counted from 1): `col / Bx * 2 - 1 - 1 / Bx`.
pub open spec fn canvas_x_num(col: int) -> int {
    2 * col - BOARD_SIZE_X - 1
}

/// Numerator, over `BOARD_SIZE_Y`, of the canvas y coordinate of row `row`
/// (counted from 1): `-(row / By * 2 - 1 - 1 / By)`.
pub open spec fn canvas_y_num(row: int) -> int {
    -(2 * row - BOARD_SIZE_Y - 1)
}

/// The canvas point of the cell in column `col` and row `row`.
pub open spec fn canvas_point(col: int, row: int) -> CanvasPoint {
    CanvasPoint {
        x: Ratio { num: canvas_x_num(col) as i64, den: BOARD_SIZE_X as i64 },
        y: Ratio { num: canvas_y_num(row) as i64, den: BOARD_SIZE_Y as i64 },
    }
}

impl Position {
    /// The canvas point at which this cell's sprite is anchored: the centre
    /// of the cell, with the vertical axis flipped so that a greater row lies
    /// lower on screen.
    pub fn as_canvas(&self) -> (r: CanvasPoint)
        ensures
            r == canvas_point(self.col(), self.row()),
            r.x.num == canvas_x_num(self.col()),
            r.y.num == canvas_y_num(self.row()),
            r.x.den == BOARD_SIZE_X,
            r.y.den == BOARD_SIZE_Y,
    {
        let col: i64 = self.x() as i64;
        let row: i64 = self.y() as i64;
        CanvasPoint {
            x: Ratio { num: 2 * col - (BOARD_SIZE_X as i64) - 1, den: BOARD_SIZE_X as i64 },
            y: Ratio { num: -(2 * row - (BOARD_SIZE_Y as i64) - 1), den: BOARD_SIZE_Y as i64 },
        }
    }
}

/// The canvas x coordinate grows strictly with the column, whatever the
/// rows, and the y coordinate falls strictly as the row grows, whatever the
/// columns; both over a denominator that does not depend on the cell.
pub proof fn lemma_canvas_monotonic(p: Position, q: Position)
    ensures
        canvas_point(p.col(), p.row()).x.den == canvas_point(q.col(), q.row()).x.den,
        canvas_point(p.col(), p.row()).y.den == canvas_point(q.col(), q.row()).y.den,
        p.col() < q.col() <==> canvas_point(p.col(), p.row()).x.num < canvas_point(
            q.col(),
            q.row(),
        ).x.num,
        p.row() < q.row() <==> canvas_point(p.col(), p.row()).y.num > canvas_point(
            q.col(),
            q.row(),
        ).y.num,
{
    Position::lemma_component_range(p);
    Position::lemma_component_range(q);
}

/// Cells that are neighbours along an axis lie exactly `2 / extent` apart
/// on that axis: the numerators differ by 2 over the extent as denominator.
pub proof fn lemma_canvas_step(p: Position, q: Position)
    ensures
        q.col() == p.col() + 1 ==> canvas_point(q.col(), q.row()).x.num - canvas_point(
            p.col(),
            p.row(),
        ).x.num == 2 && canvas_point(q.col(), q.row()).x.den == BOARD_SIZE_X,
        q.row() == p.row() + 1 ==> canvas_point(p.col(), p.row()).y.num - canvas_point(
            q.col(),
            q.row(),
        ).y.num == 2 && canvas_point(q.col(), q.row()).y.den == BOARD_SIZE_Y,
{
    Position::lemma_component_range(p);
    Position::lemma_component_range(q);
}

/// A cell of the board maps into the visible square, to the centre of the
/// cell: with columns and rows counted from 0, cell `i` of `n` spans
/// `2i / n - 1` to `2(i + 1) / n - 1`, and its centre is `(2i + 1 - n) / n`.
pub proof fn lemma_canvas_is_cell_centre(p: Position)
    requires
        crate::board::within_board(p),
    ensures
        canvas_point(p.col(), p.row()).x.within_unit(),
        canvas_point(p.col(), p.row()).y.within_unit(),
        canvas_point(p.col(), p.row()).x.num == 2 * (p.col() - 1) + 1 - BOARD_SIZE_X,
        canvas_point(p.col(), p.row()).y.num == -(2 * (p.row() - 1) + 1 - BOARD_SIZE_Y),
{
}

/// The cell that holds pixel `(px, py)`, for cells of `cell_px_x` by
/// `cell_px_y` pixels: columns and rows are counted from 1, and nothing is
/// clamped, so a pixel beyond the board gives a position beyond it.
pub fn pixel_to_cell(px: u32, py: u32, cell_px_x: u32, cell_px_y: u32) -> (r: Position)
    requires
        cell_px_x > 0,
        cell_px_y > 0,
        px / cell_px_x < u32::MAX,
        py / cell_px_y < u32::MAX,
    ensures
        r.col() == px / cell_px_x + 1,
        r.row() == py / cell_px_y + 1,
        r == Position::at(px / cell_px_x + 1, py / cell_px_y + 1),
{
    Position::new(px / cell_px_x + 1, py / cell_px_y + 1)
}

/// The cell that holds pixel `(x, y)` of the window.
pub fn pixels_to_grid(x: u32, y: u32) -> (r: Position)
    ensures
        r.col() == x / CELL_SIZE_X + 1,
        r.row() == y / CELL_SIZE_Y + 1,
        r == Position::at(x / CELL_SIZE_X + 1, y / CELL_SIZE_Y + 1),
{
    pixel_to_cell(x, y, CELL_SIZE_X, CELL_SIZE_Y)
}

/// A pixel lies in a cell of the board exactly if it lies within the part
/// of the window that the cells cover: pixels beyond a whole multiple of the
/// cell size, and beyond the window, give a position beyond the board.
pub proof fn lemma_pixel_within_board(x: u32, y: u32)
    ensures
        crate::board::within_board(Position::at(x / CELL_SIZE_X + 1, y / CELL_SIZE_Y + 1)) <==> x
            < CELL_SIZE_X * BOARD_SIZE_X && y < CELL_SIZE_Y * BOARD_SIZE_Y,
{
    assert(CELL_SIZE_X == 100 && CELL_SIZE_Y == 100);
    Position::lemma_at_components(x / CELL_SIZE_X + 1, y / CELL_SIZE_Y + 1);
}

/// One line of the grid layer, from `from` to `to`.
#[derive(Copy, Clone, Debug, PartialEq, Eq, Structural)]
pub struct GridLine {
    pub from: CanvasPoint,
    pub to: CanvasPoint,
}

/// Number of lines of the grid layer: one per inner boundary between
/// neighbouring columns, and one per inner boundary between neighbouring rows.
pub open spec fn grid_line_count() -> int {
    (BOARD_SIZE_X - 1) + (BOARD_SIZE_Y - 1)
}

/// The vertical line on the boundary between columns `k` and `k + 1`
/// (counted from 1): from the bottom edge to the top edge at `x = 2k / Bx - 1`.
pub open spec fn column_boundary(k: int) -> GridLine {
    GridLine {
        from: CanvasPoint {
            x: Ratio { num: (2 * k - BOARD_SIZE_X) as i64, den: BOARD_SIZE_X as i64 },
            y: Ratio { num: -1i64, den: 1 },
        },
        to: CanvasPoint {
            x: Ratio { num: (2 * k - BOARD_SIZE_X) as i64, den: BOARD_SIZE_X as i64 },
            y: Ratio { num: 1, den: 1 },
        },
    }
}

/// The horizontal line on the boundary between two neighbouring rows, the
/// `k`-th from the bottom edge: from the left edge to the right edge at
/// `y = 2k / By - 1`.
pub open spec fn row_boundary(k: int) -> GridLine {
    GridLine {
        from: CanvasPoint {
            x: Ratio { num: -1i64, den: 1 },
            y: Ratio { num: (2 * k - BOARD_SIZE_Y) as i64, den: BOARD_SIZE_Y as i64 },
        },
        to: CanvasPoint {
            x: Ratio { num: 1, den: 1 },
            y: Ratio { num: (2 * k - BOARD_SIZE_Y) as i64, den: BOARD_SIZE_Y as i64 },
        },
    }
}

/// The `i`-th line of the grid layer: first the column boundaries, left to
/// right, then the row boundaries, bottom to top.
pub open spec fn grid_line(i: int) -> GridLine {
    if i < BOARD_SIZE_X - 1 {
        column_boundary(i + 1)
    } else {
        row_boundary(i - (BOARD_SIZE_X - 1) + 1)
    }
}

/// The geometry of the grid layer. It depends on the board's extent alone,
/// not on what the board holds.
pub fn grid_lines() -> (r: Vec<GridLine>)
    ensures
        r@.len() == grid_line_count(),
        forall|i: int| 0 <= i < r@.len() ==> #[trigger] r@[i] == grid_line(i),
{
    let mut lines: Vec<GridLine> = Vec::new();
    let mut k: u32 = 1;
    while k < BOARD_SIZE_X
        invariant
            1 <= k <= BOARD_SIZE_X,
            lines@.len() == k - 1,
            forall|i: int| 0 <= i < lines@.len() ==> #[trigger] lines@[i] == grid_line(i),
        decreases BOARD_SIZE_X - k,
    {
        let x = Ratio { num: 2 * (k as i64) - (BOARD_SIZE_X as i64), den: BOARD_SIZE_X as i64 };
        lines.push(
            GridLine {
                from: CanvasPoint { x, y: Ratio { num: -1, den: 1 } },
                to: CanvasPoint { x, y: Ratio { num: 1, den: 1 } },
            },
        );
        k = k + 1;
    }
    let mut k: u32 = 1;
    while k < BOARD_SIZE_Y
        invariant
            1 <= k <= BOARD_SIZE_Y,
            lines@.len() == (BOARD_SIZE_X - 1) + (k - 1),
            forall|i: int| 0 <= i < lines@.len() ==> #[trigger] lines@[i] == grid_line(i),
        decreases BOARD_SIZE_Y - k,
    {
        let y = Ratio { num: 2 * (k as i64) - (BOARD_SIZE_Y as i64), den: BOARD_SIZE_Y as i64 };
        lines.push(
            GridLine {
                from: CanvasPoint { x: Ratio { num: -1, den: 1 }, y },
                to: CanvasPoint { x: Ratio { num: 1, den: 1 }, y },
            },
        );
        k = k + 1;
    }
    lines
}

} // verus!

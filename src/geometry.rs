//! Cells of the logical grid, rectangles of cells, and the mapping from
//! panel coordinates to cells.

use vstd::prelude::*;

verus! {

/// Columns of the logical grid.
pub const WIDTH: u16 = 40;
/// Rows of the logical grid.
pub const HEIGHT: u16 = 32;
/// Extent of the panel's raw X axis.
pub const PANEL_WIDTH: u16 = 240;
/// Extent of the panel's raw Y axis.
pub const PANEL_HEIGHT: u16 = 320;

/// A cell of the logical grid.
#[derive(Debug, Clone, Copy, PartialEq, Eq, Structural)]
pub struct Position {
    pub x: u16,
    pub y: u16,
}

impl Position {
    pub fn new(x: u16, y: u16) -> (p: Position)
        ensures
            p.x == x,
            p.y == y,
    {
        Position { x, y }
    }
}

/// A rectangle of cells; its right and bottom edges saturate at `u16::MAX`.
#[derive(Debug, Clone, Copy, PartialEq, Eq, Structural)]
pub struct Rect {
    pub x: u16,
    pub y: u16,
    pub width: u16,
    pub height: u16,
}

/// `a + b`, saturated at `u16::MAX`.
pub open spec fn sat_add(a: u16, b: u16) -> int {
    if a + b > u16::MAX {
        u16::MAX as int
    } else {
        a + b
    }
}

impl Rect {
    pub fn new(x: u16, y: u16, width: u16, height: u16) -> (r: Rect)
        ensures
            r == (Rect { x, y, width, height }),
    {
        Rect { x, y, width, height }
    }

    /// Whether the cell lies inside the rectangle.
    pub open spec fn spec_contains(self, p: Position) -> bool {
        &&& self.x <= p.x < sat_add(self.x, self.width)
        &&& self.y <= p.y < sat_add(self.y, self.height)
    }

    pub fn right(&self) -> (r: u16)
        ensures
            r == sat_add(self.x, self.width),
    {
        self.x.saturating_add(self.width)
    }

    pub fn bottom(&self) -> (r: u16)
        ensures
            r == sat_add(self.y, self.height),
    {
        self.y.saturating_add(self.height)
    }

    pub fn contains(&self, p: Position) -> (r: bool)
        ensures
            r == self.spec_contains(p),
    {
        p.x >= self.x && p.x < self.right() && p.y >= self.y && p.y < self.bottom()
    }
}

/// Clamps `v` into `[0, dim - 1]`.
pub open spec fn clamp_cell(v: int, dim: int) -> int {
    if v >= dim {
        dim - 1
    } else if v < 0 {
        0
    } else {
        v
    }
}

/// Column of the logical grid for a raw X coordinate; the X axis is flipped.
pub open spec fn logical_x(raw: u16) -> int {
    clamp_cell(WIDTH - raw * WIDTH / PANEL_WIDTH as int, WIDTH as int)
}

/// Row of the logical grid for a raw Y coordinate; the Y axis is flipped.
pub open spec fn logical_y(raw: u16) -> int {
    clamp_cell(HEIGHT - 1 - raw * HEIGHT / PANEL_HEIGHT as int, HEIGHT as int)
}

/// Maps raw panel coordinates to a cell of the logical grid.
pub fn map_to_grid(raw_x: u16, raw_y: u16) -> (p: Position)
    ensures
        p.x == logical_x(raw_x),
        p.y == logical_y(raw_y),
{
    assert(raw_x * 40 <= 65535 * 40 && raw_y * 32 <= 65535 * 32) by (nonlinear_arith);
    let sx: u32 = (raw_x as u32) * (WIDTH as u32) / (PANEL_WIDTH as u32);
    let x: u16 = if sx >= WIDTH as u32 {
        0
    } else {
        let v = WIDTH - sx as u16;
        if v >= WIDTH {
            WIDTH - 1
        } else {
            v
        }
    };
    let sy: u32 = (raw_y as u32) * (HEIGHT as u32) / (PANEL_HEIGHT as u32);
    let y: u16 = if sy >= HEIGHT as u32 {
        0
    } else {
        HEIGHT - 1 - sy as u16
    };
    Position { x, y }
}

/// The mapping reverses each axis monotonically, stays inside the grid,
/// sends raw X 0 to the last column and raw X 239 to the second column.
pub proof fn lemma_mapping_bounded_monotone(a: u16, b: u16)
    ensures
        0 <= logical_x(a) < WIDTH,
        0 <= logical_y(a) < HEIGHT,
        a <= b ==> logical_x(b) <= logical_x(a),
        a <= b ==> logical_y(b) <= logical_y(a),
        logical_x(0) == WIDTH - 1,
        logical_x(239) == 1,
        logical_y(0) == HEIGHT - 1,
{
    if a <= b {
        assert(a * 40 <= b * 40) by (nonlinear_arith)
            requires
                a <= b,
        ;
        assert((a * 40) / 240 <= (b * 40) / 240) by (nonlinear_arith)
            requires
                a * 40 <= b * 40,
        ;
        assert(a * 32 <= b * 32) by (nonlinear_arith)
            requires
                a <= b,
        ;
        assert((a * 32) / 320 <= (b * 32) / 320) by (nonlinear_arith)
            requires
                a * 32 <= b * 32,
        ;
    }
    assert(a * 40 >= 0 && (a * 40) / 240 >= 0) by (nonlinear_arith);
    assert(a * 32 >= 0 && (a * 32) / 320 >= 0) by (nonlinear_arith);
}

} // verus!

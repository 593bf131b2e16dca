//! Points, rectangles and cell padding on the console grid.

use vstd::prelude::*;

verus! {

/// A position on a grid of cells or pixels.
#[derive(Clone, Copy, Debug, PartialEq, Eq, Structural)]
pub struct Point {
    pub x: i32,
    pub y: i32,
}

impl Point {
    /// The point at column `x` and row `y`.
    pub fn new(x: i32, y: i32) -> (p: Point)
        ensures
            p == (Point { x, y }),
    {
        Point { x, y }
    }

    /// The point whose column and row are the two parts of `t`.
    pub fn from_tuple(t: (i32, i32)) -> (p: Point)
        ensures
            p == (Point { x: t.0, y: t.1 }),
    {
        Point { x: t.0, y: t.1 }
    }
}

/// A position in thousandths: of a cell for a place, of the natural size
/// for a scale.
#[derive(Clone, Copy, Debug, PartialEq, Eq, Structural)]
pub struct PointF {
    pub x: i64,
    pub y: i64,
}

impl PointF {
    /// The position with the given parts.
    pub fn new(x: i64, y: i64) -> (p: PointF)
        ensures
            p == (PointF { x, y }),
    {
        PointF { x, y }
    }
}

/// A rectangle of cells: columns from `x1` up to but not including `x2`,
/// rows from `y1` up to but not including `y2`.
#[derive(Clone, Copy, Debug, PartialEq, Eq, Structural)]
pub struct Rect {
    pub x1: i32,
    pub x2: i32,
    pub y1: i32,
    pub y2: i32,
}

impl Rect {
    /// The rectangle between two corners.
    pub fn with_exact(x1: i32, y1: i32, x2: i32, y2: i32) -> (r: Rect)
        ensures
            r == (Rect { x1, x2, y1, y2 }),
    {
        Rect { x1, x2, y1, y2 }
    }
}

/// Extra room around each glyph, in thousandths of a cell: `x1` to its
/// left, `x2` to its right, `y1` above and `y2` below.
#[derive(Clone, Copy, Debug, PartialEq, Eq, Structural)]
pub struct Padding {
    pub x1: u16,
    pub x2: u16,
    pub y1: u16,
    pub y2: u16,
}

impl Padding {
    /// No padding on any side.
    pub open spec fn spec_zero() -> Padding {
        Padding { x1: 0, x2: 0, y1: 0, y2: 0 }
    }

    /// The padding to the left and right of one glyph together.
    pub open spec fn horizontal(self) -> nat {
        (self.x1 + self.x2) as nat
    }

    /// The padding above and below one glyph together.
    pub open spec fn vertical(self) -> nat {
        (self.y1 + self.y2) as nat
    }

    /// No padding on any side.
    pub fn zero() -> (p: Padding)
        ensures
            p == Padding::spec_zero(),
    {
        Padding { x1: 0, x2: 0, y1: 0, y2: 0 }
    }
}

/// A number if it is positive, else 0.
pub open spec fn at_least_zero(v: int) -> int {
    if v > 0 {
        v
    } else {
        0
    }
}

/// The quotient of `a` by `b` with its fraction cut off, so rounded towards
/// zero; 0 where `b` is 0.
pub open spec fn truncated_quotient(a: int, b: int) -> int {
    if b == 0 {
        0
    } else if (a < 0) == (b < 0) {
        abs(a) / abs(b)
    } else {
        -(abs(a) / abs(b))
    }
}

/// The magnitude of a number.
pub open spec fn abs(a: int) -> int {
    if a < 0 {
        -a
    } else {
        a
    }
}

/// The number nearest to `v` from `low` to `high`.
pub open spec fn clamped(v: int, low: int, high: int) -> int {
    if v < low {
        low
    } else if v > high {
        high
    } else {
        v
    }
}

/// The whole cells that the padding of `count` glyphs takes when each glyph
/// is padded by `per_mille` thousandths of a cell: the exact amount rounded
/// up.
pub open spec fn padding_cells(count: nat, per_mille: nat) -> nat {
    (count * per_mille + 999) / 1000
}

/// The whole cells that `count` glyphs take together with their padding.
pub open spec fn padded_len(count: nat, per_mille: nat) -> nat {
    count + padding_cells(count, per_mille)
}

/// The largest padding that two sides of a glyph can add up to.
pub const MAX_PADDING: u32 = 131070;

/// Computes the cells that `count` glyphs take together with their padding.
pub fn padded(count: usize, per_mille: u32) -> (cells: u128)
    requires
        per_mille <= MAX_PADDING,
    ensures
        cells == padded_len(count as nat, per_mille as nat),
        count <= cells <= count as int * 133 + 1,
{
    let n: u128 = count as u128;
    let p: u128 = per_mille as u128;
    assert(0 <= n * p <= n * 131070) by (nonlinear_arith)
        requires
            0 <= n,
            0 <= p <= 131070,
    ;
    let product: u128 = n * p;
    n + (product + 999) / 1000
}

/// A cell inside a grid has an index below the number of cells.
pub proof fn lemma_cell_index(x: int, y: int, width: int, height: int)
    requires
        0 <= x < width,
        0 <= y < height,
    ensures
        0 <= y * width + x < width * height,
{
    assert(0 <= y * width && y * width + width <= height * width && height * width == width
        * height) by (nonlinear_arith)
        requires
            0 <= y < height,
            0 <= width,
    ;
}

} // verus!

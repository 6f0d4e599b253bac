//! Coordinates, sizes and rectangles of the cell grid.

use vstd::prelude::*;

verus! {

/// A pair of coordinates: a position, or an extent, in two dimensions.
#[derive(Clone, Copy, Debug, Default, PartialEq, Eq, Structural)]
pub struct Coords<T> {
    pub x: T,
    pub y: T,
}

impl<T> Coords<T> {
    pub fn new(x: T, y: T) -> (c: Self)
        ensures
            c.x == x,
            c.y == y,
    {
        Coords { x, y }
    }
}

impl<T> From<(T, T)> for Coords<T> {
    fn from(pair: (T, T)) -> (c: Self) {
        Coords { x: pair.0, y: pair.1 }
    }
}

impl<T> vstd::std_specs::convert::FromSpecImpl<(T, T)> for Coords<T> {
    open spec fn obeys_from_spec() -> bool {
        true
    }

    open spec fn from_spec(pair: (T, T)) -> Self {
        Coords { x: pair.0, y: pair.1 }
    }
}

/// A position on the grid: column `x`, row `y`.
pub type Point = Coords<u16>;

/// The extent of a grid: `x` columns, `y` rows.
pub type Size = Coords<u16>;

impl Point {
    /// The row-major index of this position on a grid `size.x` columns wide.
    pub open spec fn index_in(self, size: Size) -> int {
        self.y * size.x + self.x
    }

    /// The position that a row-major index stands for on a grid `size.x`
    /// columns wide. Rows beyond 65535 wrap around.
    pub open spec fn at_index(index: int, size: Size) -> Point {
        Coords { x: (index % (size.x as int)) as u16, y: ((index / (size.x as int)) % 0x1_0000) as u16 }
    }

    /// Whether this position lies on a grid of the given size.
    pub open spec fn within(self, size: Size) -> bool {
        self.x < size.x && self.y < size.y
    }

    pub fn from_index(index: usize, size: Size) -> (p: Point)
        requires
            size.x > 0,
        ensures
            p == Point::at_index(index as int, size),
            p.x == index % (size.x as usize),
            p.y == (index / (size.x as usize)) % 0x1_0000,
    {
        let width: usize = size.x as usize;
        let row: usize = index / width;
        let column: usize = index % width;
        Coords { x: column as u16, y: (row % 0x1_0000) as u16 }
    }

    pub fn to_index(self, size: Size) -> (index: usize)
        ensures
            index == self.index_in(size),
    {
        let row: u32 = self.y as u32;
        let width: u32 = size.x as u32;
        assert(row * width <= 65535 * 65535) by (nonlinear_arith)
            requires
                0 <= row <= 65535,
                0 <= width <= 65535,
        ;
        (row * width + self.x as u32) as usize
    }
}

/// A position on a grid converts to an index and back to itself.
pub proof fn lemma_index_round_trip(p: Point, size: Size)
    requires
        p.within(size),
    ensures
        0 <= p.index_in(size) < size.x * size.y,
        Point::at_index(p.index_in(size), size) == p,
{
    let w = size.x as int;
    let i = p.index_in(size);
    assert(i / w == p.y as int && i % w == p.x as int) by (nonlinear_arith)
        requires
            i == p.y * w + p.x,
            0 <= p.x < w,
            0 <= p.y,
    ;
    assert(i < size.x * size.y) by (nonlinear_arith)
        requires
            i == p.y * w + p.x,
            0 <= p.x < w,
            0 <= p.y < size.y,
            w == size.x,
    ;
    assert(0 <= i) by (nonlinear_arith)
        requires
            i == p.y * w + p.x,
            0 <= p.x,
            0 <= p.y,
            0 <= w,
    ;
}

/// An index below the area of a grid converts to a position on it and back
/// to itself.
pub proof fn lemma_position_round_trip(index: int, size: Size)
    requires
        0 <= index < size.x * size.y,
    ensures
        Point::at_index(index, size).within(size),
        Point::at_index(index, size).index_in(size) == index,
{
    let w = size.x as int;
    let h = size.y as int;
    assert(w > 0) by (nonlinear_arith)
        requires
            0 <= index < w * h,
            0 <= w,
    ;
    assert(0 <= index / w < h && 0 <= index % w < w && index == (index / w) * w + index % w)
        by (nonlinear_arith)
        requires
            0 <= index < w * h,
            0 < w,
    ;
}

/// A rectangle on the grid: its top-left corner and its extent.
#[derive(Clone, Copy, Debug, Default, PartialEq, Eq, Structural)]
pub struct Rect {
    pub point: Point,
    pub width: u16,
    pub height: u16,
}

impl std::ops::Deref for Rect {
    type Target = Point;

    /// A rectangle stands for its top-left corner where a position is asked
    /// for.
    fn deref(&self) -> (p: &Point)
        ensures
            *p == self.point,
    {
        &self.point
    }
}

impl Rect {
    /// Whether the cell in column `x`, row `y` belongs to the rectangle.
    pub open spec fn covers(self, x: int, y: int) -> bool {
        &&& self.point.x <= x < self.point.x + self.width
        &&& self.point.y <= y < self.point.y + self.height
    }

    /// Whether the rectangle lies wholly on a grid of the given size whose
    /// top-left corner is the origin.
    pub open spec fn fits(self, size: Size) -> bool {
        &&& self.point.x + self.width <= size.x
        &&& self.point.y + self.height <= size.y
    }

    /// The position of the `k`-th cell of the rectangle, counted row by row
    /// from its top-left corner.
    pub open spec fn point_of(self, k: int) -> Point {
        Coords {
            x: (self.point.x + k % (self.width as int)) as u16,
            y: (self.point.y + k / (self.width as int)) as u16,
        }
    }

    /// The place of the cell in column `x`, row `y` among the cells of the
    /// rectangle, counted row by row from its top-left corner.
    pub open spec fn offset_of(self, x: int, y: int) -> int {
        (y - self.point.y) * self.width + (x - self.point.x)
    }

    /// Whether the two rectangles overlap: on each axis, each begins before
    /// the other ends.
    pub open spec fn overlaps(self, other: Rect) -> bool {
        &&& self.point.x < other.point.x + other.width
        &&& other.point.x < self.point.x + self.width
        &&& self.point.y < other.point.y + other.height
        &&& other.point.y < self.point.y + self.height
    }

    /// The number of cells the rectangle covers.
    pub fn area(&self) -> (a: usize)
        ensures
            a == self.width * self.height,
    {
        let w: u32 = self.width as u32;
        let h: u32 = self.height as u32;
        assert(w * h <= 65535 * 65535) by (nonlinear_arith)
            requires
                0 <= w <= 65535,
                0 <= h <= 65535,
        ;
        (w * h) as usize
    }

    pub fn size(&self) -> (s: Size)
        ensures
            s.x == self.width,
            s.y == self.height,
    {
        Coords { x: self.width, y: self.height }
    }

    /// Whether the position is one of the rectangle's cells.
    pub fn contains(&self, point: Point) -> (b: bool)
        ensures
            b == self.covers(point.x as int, point.y as int),
    {
        let x: u32 = point.x as u32;
        let y: u32 = point.y as u32;
        let left: u32 = self.point.x as u32;
        let top: u32 = self.point.y as u32;
        left <= x && x < left + self.width as u32 && top <= y && y < top + self.height as u32
    }

    pub fn intersects(&self, rect: &Self) -> (b: bool)
        ensures
            b == self.overlaps(*rect),
    {
        let ax: u32 = self.point.x as u32;
        let ay: u32 = self.point.y as u32;
        let bx: u32 = rect.point.x as u32;
        let by: u32 = rect.point.y as u32;
        ax < bx + rect.width as u32 && bx < ax + self.width as u32 && ay < by
            + rect.height as u32 && by < ay + self.height as u32
    }
}

/// One of the four directions in which a cursor moves.
#[derive(Clone, Copy, Debug, PartialEq, Eq, Structural)]
pub enum Direction {
    Up,
    Right,
    Down,
    Left,
}

/// A cursor movement: a direction and a number of cells.
#[derive(Clone, Copy, Debug, PartialEq, Eq, Structural)]
pub struct Distance(pub Direction, pub u16);

} // verus!

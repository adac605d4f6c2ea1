//! Cells of the board and the four directions of travel.

use vstd::prelude::*;

verus! {

/// A position in the plane, in unbounded integers. This is the mathematical
/// value of a [`Point`]; the model of the game is stated over cells.
pub struct Cell {
    pub x: int,
    pub y: int,
}

/// One of the four directions in which the snake travels. `Up` is towards
/// smaller `y`, `Left` towards smaller `x`.
#[derive(Clone, Copy, PartialEq, Eq, Debug, Structural)]
pub enum Direction {
    Up,
    Down,
    Left,
    Right,
}

impl Direction {
    /// The direction that points the other way: `Up` and `Down` are
    /// opposites, and so are `Left` and `Right`.
    pub open spec fn reversed(self) -> Direction {
        match self {
            Direction::Up => Direction::Down,
            Direction::Down => Direction::Up,
            Direction::Left => Direction::Right,
            Direction::Right => Direction::Left,
        }
    }

    /// The change of `x` that one step in this direction makes.
    pub open spec fn dx(self) -> int {
        match self {
            Direction::Left => -1,
            Direction::Right => 1,
            _ => 0,
        }
    }

    /// The change of `y` that one step in this direction makes.
    pub open spec fn dy(self) -> int {
        match self {
            Direction::Up => -1,
            Direction::Down => 1,
            _ => 0,
        }
    }

    /// Returns the opposite direction.
    pub fn opposite(self) -> (r: Direction)
        ensures
            r == self.reversed(),
    {
        match self {
            Direction::Up => Direction::Down,
            Direction::Down => Direction::Up,
            Direction::Left => Direction::Right,
            Direction::Right => Direction::Left,
        }
    }
}

impl Cell {
    /// The cell one step away in direction `d`.
    pub open spec fn step(self, d: Direction) -> Cell {
        Cell { x: self.x + d.dx(), y: self.y + d.dy() }
    }

    /// Whether the cell lies on a board of `width` columns and `height` rows.
    pub open spec fn in_grid(self, width: int, height: int) -> bool {
        0 <= self.x < width && 0 <= self.y < height
    }
}

/// A position on the board, as the running game holds it.
#[derive(Clone, Copy, PartialEq, Eq, Debug, Structural)]
pub struct Point {
    pub x: i32,
    pub y: i32,
}

impl View for Point {
    type V = Cell;

    open spec fn view(&self) -> Cell {
        Cell { x: self.x as int, y: self.y as int }
    }
}

impl Point {
    /// Tells whether the point lies on a board of `width` columns and
    /// `height` rows.
    pub fn in_grid(&self, width: i32, height: i32) -> (r: bool)
        ensures
            r == self@.in_grid(width as int, height as int),
    {
        0 <= self.x && self.x < width && 0 <= self.y && self.y < height
    }

    /// Returns the point one step away in direction `d`. The step must stay
    /// within the range of `i32`.
    pub fn neighbor(&self, d: Direction) -> (r: Point)
        requires
            i32::MIN <= self.x + d.dx() <= i32::MAX,
            i32::MIN <= self.y + d.dy() <= i32::MAX,
        ensures
            r@ == self@.step(d),
    {
        match d {
            Direction::Up => Point { x: self.x, y: self.y - 1 },
            Direction::Down => Point { x: self.x, y: self.y + 1 },
            Direction::Left => Point { x: self.x - 1, y: self.y },
            Direction::Right => Point { x: self.x + 1, y: self.y },
        }
    }
}

/// A rectangle of pixels: its left upper corner, its width and its height.
#[derive(Clone, Copy, PartialEq, Eq, Debug, Structural)]
pub struct PixelRect {
    pub x: i32,
    pub y: i32,
    pub w: i32,
    pub h: i32,
}

impl Point {
    /// Returns the square that the cell takes on a screen where each cell is
    /// `cell_size` pixels wide and high and the cell at the origin lies in
    /// the left upper corner. The corner must be within the range of `i32`.
    pub fn pixel_rect(&self, cell_size: i32) -> (r: PixelRect)
        requires
            i32::MIN <= self.x * cell_size <= i32::MAX,
            i32::MIN <= self.y * cell_size <= i32::MAX,
        ensures
            r.x == self.x * cell_size,
            r.y == self.y * cell_size,
            r.w == cell_size,
            r.h == cell_size,
    {
        PixelRect { x: self.x * cell_size, y: self.y * cell_size, w: cell_size, h: cell_size }
    }
}

/// The cells that a sequence of points stands for, in the same order.
pub open spec fn cells(points: Seq<Point>) -> Seq<Cell> {
    points.map_values(|p: Point| p@)
}

/// The cell that an optional point stands for.
pub open spec fn cell_of(point: Option<Point>) -> Option<Cell> {
    match point {
        Some(p) => Some(p@),
        None => None,
    }
}

/// Tells whether `p` occurs in `points`.
pub fn contains_point(points: &Vec<Point>, p: Point) -> (r: bool)
    ensures
        r == cells(points@).contains(p@),
{
    let mut i: usize = 0;
    while i < points.len()
        invariant
            i <= points.len(),
            forall|j: int| 0 <= j < i ==> cells(points@)[j] != p@,
        decreases points.len() - i,
    {
        if points[i] == p {
            assert(cells(points@)[i as int] == p@);
            return true;
        }
        i += 1;
    }
    false
}

/// Tells whether every point of `points` lies on a board of `width` columns
/// and `height` rows.
pub fn all_in_grid(points: &Vec<Point>, width: i32, height: i32) -> (r: bool)
    ensures
        r == forall|i: int|
            0 <= i < points@.len() ==> (#[trigger] cells(points@)[i]).in_grid(
                width as int,
                height as int,
            ),
{
    let mut i: usize = 0;
    while i < points.len()
        invariant
            i <= points.len(),
            forall|j: int|
                0 <= j < i ==> (#[trigger] cells(points@)[j]).in_grid(width as int, height as int),
        decreases points.len() - i,
    {
        if !points[i].in_grid(width, height) {
            assert(!cells(points@)[i as int].in_grid(width as int, height as int));
            return false;
        }
        i += 1;
    }
    true
}

/// Tells whether no point occurs twice in `points`.
pub fn all_distinct(points: &Vec<Point>) -> (r: bool)
    ensures
        r == cells(points@).no_duplicates(),
{
    let mut i: usize = 0;
    while i < points.len()
        invariant
            i <= points.len(),
            forall|a: int, b: int|
                0 <= a < i && 0 <= b < points@.len() && a != b ==> cells(points@)[a] != cells(
                    points@,
                )[b],
        decreases points.len() - i,
    {
        let mut j: usize = i + 1;
        while j < points.len()
            invariant
                i < j <= points.len(),
                forall|b: int| i < b < j ==> cells(points@)[i as int] != cells(points@)[b],
            decreases points.len() - j,
        {
            if points[i] == points[j] {
                assert(cells(points@)[i as int] == cells(points@)[j as int]);
                return false;
            }
            j += 1;
        }
        i += 1;
    }
    true
}

} // verus!

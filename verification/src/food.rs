//! Where food may go: the cells of the board that the snake does not cover,
//! counted and numbered row by row, and the choice of one of them by chance.

use crate::grid::{cells, cell_of, contains_point, Cell, Point};
use crate::random::draw_below;
use vstd::prelude::*;

verus! {

/// A cell is free when it lies on the board and the snake does not cover it.
pub open spec fn is_free(snake: Seq<Cell>, width: int, height: int, c: Cell) -> bool {
    c.in_grid(width, height) && !snake.contains(c)
}

/// The number of cells in row `y`, among the columns before `upto`, that the
/// snake does not cover.
pub open spec fn free_in_row(snake: Seq<Cell>, y: int, upto: int) -> nat
    decreases upto,
{
    if upto <= 0 {
        0
    } else if snake.contains(Cell { x: upto - 1, y }) {
        free_in_row(snake, y, upto - 1)
    } else {
        free_in_row(snake, y, upto - 1) + 1
    }
}

/// The number of cells in the rows before `upto`, each `width` columns wide,
/// that the snake does not cover.
pub open spec fn free_in_rows(snake: Seq<Cell>, width: int, upto: int) -> nat
    decreases upto,
{
    if upto <= 0 {
        0
    } else {
        free_in_rows(snake, width, upto - 1) + free_in_row(snake, upto - 1, width)
    }
}

/// The number of free cells on the whole board.
pub open spec fn free_count(snake: Seq<Cell>, width: int, height: int) -> nat {
    free_in_rows(snake, width, height)
}

/// The number of free cells that come before `c` when the board is read row
/// by row, each row from left to right. A free cell is found again by this
/// number.
pub open spec fn free_before(snake: Seq<Cell>, width: int, c: Cell) -> nat {
    free_in_rows(snake, width, c.y) + free_in_row(snake, c.y, c.x)
}

/// What a placement of food may be: a free cell, or none where the board has
/// no free cell left.
pub open spec fn placement_allowed(
    snake: Seq<Cell>,
    width: int,
    height: int,
    placed: Option<Cell>,
) -> bool {
    match placed {
        Some(c) => is_free(snake, width, height, c),
        None => free_count(snake, width, height) == 0,
    }
}

/// A row holds no more free cells than columns.
pub proof fn lemma_free_in_row_bound(snake: Seq<Cell>, y: int, upto: int)
    requires
        0 <= upto,
    ensures
        free_in_row(snake, y, upto) <= upto,
    decreases upto,
{
    if upto > 0 {
        lemma_free_in_row_bound(snake, y, upto - 1);
    }
}

/// The rows before `upto` hold no more free cells than cells.
pub proof fn lemma_free_in_rows_bound(snake: Seq<Cell>, width: int, upto: int)
    requires
        0 <= width,
        0 <= upto,
    ensures
        free_in_rows(snake, width, upto) <= upto * width,
    decreases upto,
{
    if upto > 0 {
        lemma_free_in_rows_bound(snake, width, upto - 1);
        lemma_free_in_row_bound(snake, upto - 1, width);
        assert((upto - 1) * width + width == upto * width) by (nonlinear_arith);
    } else {
        assert(upto * width == 0) by (nonlinear_arith)
            requires
                upto == 0,
        ;
    }
}

/// The count within a row grows with the number of columns read.
pub proof fn lemma_free_in_row_grows(snake: Seq<Cell>, y: int, a: int, b: int)
    requires
        a <= b,
    ensures
        free_in_row(snake, y, a) <= free_in_row(snake, y, b),
    decreases b - a,
{
    if a < b {
        lemma_free_in_row_grows(snake, y, a, b - 1);
    }
}

/// The count over rows grows with the number of rows read.
pub proof fn lemma_free_in_rows_grows(snake: Seq<Cell>, width: int, a: int, b: int)
    requires
        a <= b,
    ensures
        free_in_rows(snake, width, a) <= free_in_rows(snake, width, b),
    decreases b - a,
{
    if a < b {
        lemma_free_in_rows_grows(snake, width, a, b - 1);
    }
}

/// A free cell has fewer free cells before it than the board has in all.
pub proof fn lemma_free_before_below_count(snake: Seq<Cell>, width: int, height: int, c: Cell)
    requires
        is_free(snake, width, height, c),
    ensures
        free_before(snake, width, c) < free_count(snake, width, height),
{
    lemma_free_in_row_grows(snake, c.y, c.x + 1, width);
    lemma_free_in_rows_grows(snake, width, c.y + 1, height);
}

/// Two free cells with the same number of free cells before them are the
/// same cell: the number identifies the cell.
pub proof fn lemma_free_before_identifies(
    snake: Seq<Cell>,
    width: int,
    height: int,
    c: Cell,
    d: Cell,
)
    requires
        is_free(snake, width, height, c),
        is_free(snake, width, height, d),
        free_before(snake, width, c) == free_before(snake, width, d),
    ensures
        c == d,
{
    if c.y < d.y {
        lemma_free_in_row_grows(snake, c.y, c.x + 1, width);
        lemma_free_in_rows_grows(snake, width, c.y + 1, d.y);
    } else if d.y < c.y {
        lemma_free_in_row_grows(snake, d.y, d.x + 1, width);
        lemma_free_in_rows_grows(snake, width, d.y + 1, c.y);
    } else if c.x < d.x {
        lemma_free_in_row_grows(snake, c.y, c.x + 1, d.x);
    } else if d.x < c.x {
        lemma_free_in_row_grows(snake, c.y, d.x + 1, c.x);
    }
}

proof fn lemma_covered_row_counts_zero(snake: Seq<Cell>, width: int, height: int, y: int, upto: int)
    requires
        0 <= y < height,
        upto <= width,
        forall|c: Cell| !is_free(snake, width, height, c),
    ensures
        free_in_row(snake, y, upto) == 0,
    decreases upto,
{
    if upto > 0 {
        lemma_covered_row_counts_zero(snake, width, height, y, upto - 1);
        assert(!is_free(snake, width, height, Cell { x: upto - 1, y }));
    }
}

proof fn lemma_covered_rows_count_zero(snake: Seq<Cell>, width: int, height: int, upto: int)
    requires
        upto <= height,
        forall|c: Cell| !is_free(snake, width, height, c),
    ensures
        free_in_rows(snake, width, upto) == 0,
    decreases upto,
{
    if upto > 0 {
        lemma_covered_rows_count_zero(snake, width, height, upto - 1);
        lemma_covered_row_counts_zero(snake, width, height, upto - 1, width);
    }
}

/// The count of free cells is zero exactly when the board has no free cell:
/// when the snake covers every cell of it, or the board has no cell at all.
pub proof fn lemma_count_zero_iff_covered(snake: Seq<Cell>, width: int, height: int)
    ensures
        free_count(snake, width, height) == 0 <==> forall|c: Cell|
            !is_free(snake, width, height, c),
{
    if forall|c: Cell| !is_free(snake, width, height, c) {
        lemma_covered_rows_count_zero(snake, width, height, height);
    } else {
        let c = choose|c: Cell| is_free(snake, width, height, c);
        lemma_free_before_below_count(snake, width, height, c);
    }
}

/// Counts the cells of the board that `snake` does not cover.
pub fn count_free_cells(snake: &Vec<Point>, grid_width: i32, grid_height: i32) -> (n: u64)
    ensures
        n == free_count(cells(snake@), grid_width as int, grid_height as int),
{
    let mut total: u64 = 0;
    let mut y: i32 = 0;
    while y < grid_height
        invariant
            0 <= y,
            y <= grid_height || y == 0,
            total == free_in_rows(cells(snake@), grid_width as int, y as int),
        decreases grid_height - y,
    {
        let ghost above = total;
        let mut x: i32 = 0;
        while x < grid_width
            invariant
                0 <= y < grid_height,
                0 <= x,
                x <= grid_width || x == 0,
                above == free_in_rows(cells(snake@), grid_width as int, y as int),
                total == above + free_in_row(cells(snake@), y as int, x as int),
            decreases grid_width - x,
        {
            proof {
                lemma_free_in_rows_bound(cells(snake@), grid_width as int, y as int);
                lemma_free_in_row_bound(cells(snake@), y as int, x as int);
                assert(y * grid_width <= 0x7fff_ffff * 0x7fff_ffff) by (nonlinear_arith)
                    requires
                        0 <= y <= 0x7fff_ffff,
                        0 <= grid_width <= 0x7fff_ffff,
                ;
            }
            if !contains_point(snake, Point { x, y }) {
                total += 1;
            }
            x += 1;
        }
        y += 1;
    }
    total
}

/// Finds the free cell that has exactly `n` free cells before it, the board
/// read row by row and each row from left to right. There is one exactly
/// when `n` is less than the number of free cells.
pub fn nth_free_cell(snake: &Vec<Point>, grid_width: i32, grid_height: i32, n: u64) -> (r: Option<
    Point,
>)
    ensures
        r is Some <==> n < free_count(cells(snake@), grid_width as int, grid_height as int),
        r matches Some(p) ==> is_free(cells(snake@), grid_width as int, grid_height as int, p@)
            && free_before(cells(snake@), grid_width as int, p@) == n,
{
    let mut seen: u64 = 0;
    let mut y: i32 = 0;
    while y < grid_height
        invariant
            0 <= y,
            y <= grid_height || y == 0,
            seen <= n,
            seen == free_in_rows(cells(snake@), grid_width as int, y as int),
        decreases grid_height - y,
    {
        let ghost above = seen;
        let mut x: i32 = 0;
        while x < grid_width
            invariant
                0 <= y < grid_height,
                0 <= x,
                x <= grid_width || x == 0,
                seen <= n,
                above == free_in_rows(cells(snake@), grid_width as int, y as int),
                seen == above + free_in_row(cells(snake@), y as int, x as int),
            decreases grid_width - x,
        {
            let p = Point { x, y };
            if !contains_point(snake, p) {
                if seen == n {
                    proof {
                        lemma_free_before_below_count(
                            cells(snake@),
                            grid_width as int,
                            grid_height as int,
                            p@,
                        );
                    }
                    return Some(p);
                }
                seen += 1;
            }
            x += 1;
        }
        y += 1;
    }
    None
}

/// Chooses by chance a cell for new food among the cells of the board that
/// `snake` does not cover. Returns `None` exactly when there is no such cell.
///
/// The free cells are counted, one number below the count is drawn, and the
/// free cell with that number is taken, so each free cell is as likely as any
/// other and the search always ends.
pub fn generate_food(snake: &Vec<Point>, grid_width: i32, grid_height: i32) -> (food: Option<Point>)
    ensures
        food is Some <==> free_count(cells(snake@), grid_width as int, grid_height as int) > 0,
        placement_allowed(cells(snake@), grid_width as int, grid_height as int, cell_of(food)),
{
    let free = count_free_cells(snake, grid_width, grid_height);
    if free == 0 {
        return None;
    }
    let mut rng = rand::thread_rng();
    let k = draw_below(&mut rng, free);
    nth_free_cell(snake, grid_width, grid_height, k)
}

} // verus!

//! Where the squares lie on the screen.
//!
//! The board is a grid of eight by eight cells of `cell` pixels each, set in
//! by half a cell on every side. Seen from White's side, file `a` is the
//! leftmost column and the eighth rank the topmost row; reversed, both axes
//! are turned round.

use crate::board::Square;
use vstd::prelude::*;

verus! {

/// The cell size of a board that has not been resized.
pub const DEFAULT_CELL_SIZE: u32 = 50;

/// The largest cell size a board takes.
pub const MAX_CELL_SIZE: u32 = 0x0100_0000;

/// A cell size that the geometry can work with.
pub open spec fn cell_size_ok(cell: u32) -> bool {
    1 <= cell <= MAX_CELL_SIZE
}

/// The screen column of a file.
pub open spec fn column_of(reversed: bool, file: u8) -> int {
    if reversed {
        7 - file
    } else {
        file as int
    }
}

/// The screen row of a rank.
pub open spec fn row_of_rank(reversed: bool, rank: u8) -> int {
    if reversed {
        rank as int
    } else {
        7 - rank
    }
}

/// The square under the pixel `(px, py)`, or `None` outside the grid.
pub open spec fn screen_to_cell_spec(cell: u32, reversed: bool, px: int, py: int) -> Option<Square> {
    let half = (cell / 2) as int;
    let col = (px - half) / (cell as int);
    let row = (py - half) / (cell as int);
    if px < half || py < half || col >= 8 || row >= 8 {
        None
    } else if reversed {
        Some(Square { file: (7 - col) as u8, rank: row as u8 })
    } else {
        Some(Square { file: col as u8, rank: (7 - row) as u8 })
    }
}

/// The top left pixel of a square.
pub open spec fn cell_to_screen_spec(cell: u32, reversed: bool, sq: Square) -> (int, int) {
    let half = (cell / 2) as int;
    (half + column_of(reversed, sq.file) * cell, half + row_of_rank(reversed, sq.rank) * cell)
}

/// A square is light where the sum of its file and rank is even.
pub open spec fn is_light(sq: Square) -> bool {
    (sq.file + sq.rank) % 2 == 0
}

/// The square shown at a screen column and row.
pub open spec fn square_shown(reversed: bool, col: int, row: int) -> Square {
    if reversed {
        Square { file: (7 - col) as u8, rank: row as u8 }
    } else {
        Square { file: col as u8, rank: (7 - row) as u8 }
    }
}

proof fn lemma_cell_of_offset(cell: int, k: int, d: int)
    requires
        cell >= 1,
        0 <= k,
        0 <= d < cell,
    ensures
        (k * cell + d) / cell == k,
{
    vstd::arithmetic::div_mod::lemma_fundamental_div_mod_converse(k * cell + d, cell, k, d);
}

/// Every pixel of a cell, its top left corner included, lies on the square
/// of that cell, whichever way the board is turned.
pub proof fn law_pixel_of_cell(cell: u32, reversed: bool, sq: Square, dx: int, dy: int)
    requires
        cell_size_ok(cell),
        sq.on_board(),
        0 <= dx < cell,
        0 <= dy < cell,
    ensures
        screen_to_cell_spec(
            cell,
            reversed,
            cell_to_screen_spec(cell, reversed, sq).0 + dx,
            cell_to_screen_spec(cell, reversed, sq).1 + dy,
        ) == Some(sq),
{
    let col = column_of(reversed, sq.file);
    let row = row_of_rank(reversed, sq.rank);
    lemma_cell_of_offset(cell as int, col, dx);
    lemma_cell_of_offset(cell as int, row, dy);
    assert(col * cell >= 0) by (nonlinear_arith)
        requires
            col >= 0,
            cell >= 1,
    ;
    assert(row * cell >= 0) by (nonlinear_arith)
        requires
            row >= 0,
            cell >= 1,
    ;
}

/// Turning the board round does not change the pattern on the screen: the
/// cell at a screen column and row is light or dark as before.
pub proof fn law_pattern_keeps(col: int, row: int)
    requires
        0 <= col < 8,
        0 <= row < 8,
    ensures
        is_light(square_shown(true, col, row)) == is_light(square_shown(false, col, row)),
        is_light(square_shown(false, col, row)) == ((col + row) % 2 == 1),
{
}

/// The square under a pixel.
pub fn screen_to_cell(cell: u32, reversed: bool, px: i32, py: i32) -> (r: Option<Square>)
    requires
        cell_size_ok(cell),
    ensures
        r == screen_to_cell_spec(cell, reversed, px as int, py as int),
        r matches Some(sq) ==> sq.on_board(),
{
    let half: i64 = (cell / 2) as i64;
    let x: i64 = px as i64 - half;
    let y: i64 = py as i64 - half;
    if x < 0 || y < 0 {
        return None;
    }
    let col: i64 = x / (cell as i64);
    let row: i64 = y / (cell as i64);
    if col >= 8 || row >= 8 {
        return None;
    }
    if reversed {
        Some(Square { file: (7 - col) as u8, rank: row as u8 })
    } else {
        Some(Square { file: col as u8, rank: (7 - row) as u8 })
    }
}

/// The top left pixel of a square.
pub fn cell_to_screen(cell: u32, reversed: bool, sq: Square) -> (r: (i32, i32))
    requires
        cell_size_ok(cell),
        sq.on_board(),
    ensures
        (r.0 as int, r.1 as int) == cell_to_screen_spec(cell, reversed, sq),
{
    let half: i64 = (cell / 2) as i64;
    let col: i64 = if reversed {
        7 - sq.file as i64
    } else {
        sq.file as i64
    };
    let row: i64 = if reversed {
        sq.rank as i64
    } else {
        7 - sq.rank as i64
    };
    assert(col * cell <= 7 * cell && col * cell >= 0) by (nonlinear_arith)
        requires
            0 <= col <= 7,
            cell >= 1,
    ;
    assert(row * cell <= 7 * cell && row * cell >= 0) by (nonlinear_arith)
        requires
            0 <= row <= 7,
            cell >= 1,
    ;
    ((half + col * (cell as i64)) as i32, (half + row * (cell as i64)) as i32)
}

} // verus!

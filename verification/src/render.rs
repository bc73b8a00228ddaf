//! The picture of a board view, as lists of things to paint in pixels.
//!
//! Painted from the bottom up: the 64 cells, the pieces at rest, the piece
//! being dragged, the labels of files and ranks, and the disc that shows
//! whose turn it is. Lengths are whole pixels; a fraction of a cell is
//! rounded down.

use crate::board::{Color, Piece, Square};
use crate::chessboard::{BoardView, ChessBoard};
use crate::decimal::{char_of_digit, digit_char};
use crate::geometry::{cell_size_ok, is_light, square_shown};
use vstd::prelude::*;
use vstd::string::StringExecFns;

verus! {

/// A cell to fill: its top left pixel and whether it is light.
#[derive(Clone, Copy, Debug, PartialEq, Eq, Structural)]
pub struct CellPaint {
    pub x: i64,
    pub y: i64,
    pub light: bool,
}

/// A piece image to paint: the letter of the piece and the top left pixel.
#[derive(Clone, Copy, Debug, PartialEq, Eq, Structural)]
pub struct Sprite {
    pub key: char,
    pub x: i64,
    pub y: i64,
}

/// A label to write: its character and the pixel of its base line's start.
#[derive(Clone, Copy, Debug, PartialEq, Eq, Structural)]
pub struct Label {
    pub text: char,
    pub x: i64,
    pub y: i64,
}

/// The disc that shows whose turn it is.
#[derive(Clone, Copy, Debug, PartialEq, Eq, Structural)]
pub struct Disc {
    pub x: i64,
    pub y: i64,
    pub radius: i64,
    pub white: bool,
}

/// All there is to paint.
#[derive(Debug)]
pub struct Scene {
    pub cells: Vec<CellPaint>,
    pub pieces: Vec<Sprite>,
    pub floating: Option<Sprite>,
    pub labels: Vec<Label>,
    pub disc: Disc,
}

/// The images of the pieces: where each is kept and how large it is drawn.
pub struct PieceImages {}

/// The letter that tells the images of the two sides apart: `l` for the
/// light pieces, `d` for the dark ones.
pub open spec fn shade(color: Color) -> char {
    match color {
        Color::White => 'l',
        Color::Black => 'd',
    }
}

/// The name of the file that holds the image of a piece, such as
/// `Chess_pl.png` for a white pawn.
pub open spec fn image_file(piece: Piece) -> Seq<char> {
    "Chess_"@.push(piece.role.letter()).push(shade(piece.color)) + ".png"@
}

impl PieceImages {
    /// The name of the file that holds the image of a piece.
    pub fn file_name(piece: Piece) -> (name: String)
        ensures
            name@ == image_file(piece),
    {
        let mut name = "Chess_".to_owned();
        name.push(piece.role.char());
        name.push(
            match piece.color {
                Color::White => 'l',
                Color::Black => 'd',
            },
        );
        name.append(".png");
        name
    }

    /// The side of a piece image on a board with cells of `cell` pixels:
    /// four fifths of a cell.
    pub fn size_for(cell: u32) -> (size: u32)
        ensures
            size == scaled(cell, 80),
    {
        ((cell as u64) * 80 / 100) as u32
    }
}

/// So many hundredths of a cell, in pixels.
pub open spec fn scaled(cell: u32, hundredths: int) -> int {
    cell * hundredths / 100
}

/// The cell at place `k` of the screen, counted row by row from the top
/// left: light or dark as the square shown there.
pub open spec fn cell_paint(b: BoardView, k: int) -> CellPaint {
    CellPaint {
        x: scaled(b.cells_size, 50 + 100 * (k % 8)) as i64,
        y: scaled(b.cells_size, 50 + 100 * (k / 8)) as i64,
        light: is_light(square_shown(b.reversed, k % 8, k / 8)),
    }
}

/// The 64 cells.
pub open spec fn cells_of(b: BoardView) -> Seq<CellPaint> {
    Seq::new(64, |k: int| cell_paint(b, k))
}

/// The piece to paint at place `k` of the screen: the piece on the square
/// shown there, unless it is the one being dragged.
pub open spec fn sprite_at(b: BoardView, k: int) -> Option<Sprite> {
    let sq = square_shown(b.reversed, k % 8, k / 8);
    match b.game.at(sq) {
        Some(piece) => if b.drag is Some && b.drag->0.origin() == sq {
            None
        } else {
            Some(
                Sprite {
                    key: piece.letter(),
                    x: scaled(b.cells_size, 60 + 100 * (k % 8)) as i64,
                    y: scaled(b.cells_size, 60 + 100 * (k / 8)) as i64,
                },
            )
        },
        None => None,
    }
}

/// The pieces to paint on the first `k` places of the screen.
pub open spec fn sprites_upto(b: BoardView, k: int) -> Seq<Sprite>
    decreases k,
{
    if k <= 0 {
        Seq::<Sprite>::empty()
    } else {
        match sprite_at(b, k - 1) {
            Some(s) => sprites_upto(b, k - 1).push(s),
            None => sprites_upto(b, k - 1),
        }
    }
}

/// The piece being dragged, centred on the pointer.
pub open spec fn floating_of(b: BoardView) -> Option<Sprite> {
    match b.drag {
        Some(m) => Some(
            Sprite {
                key: m.piece_type.letter(),
                x: (m.coords_x - scaled(b.cells_size, 40)) as i64,
                y: (m.coords_y - scaled(b.cells_size, 40)) as i64,
            },
        ),
        None => None,
    }
}

/// The capital letter of a file.
pub open spec fn file_label(file: int) -> char {
    if file == 0 {
        'A'
    } else if file == 1 {
        'B'
    } else if file == 2 {
        'C'
    } else if file == 3 {
        'D'
    } else if file == 4 {
        'E'
    } else if file == 5 {
        'F'
    } else if file == 6 {
        'G'
    } else {
        'H'
    }
}

/// The file shown in a screen column.
pub open spec fn file_shown(reversed: bool, col: int) -> int {
    if reversed {
        7 - col
    } else {
        col
    }
}

/// The rank shown in a screen row.
pub open spec fn rank_shown(reversed: bool, row: int) -> int {
    if reversed {
        row
    } else {
        7 - row
    }
}

/// The label at place `k`: for `k` below 16 the letter of the file shown in
/// column `k / 2`, above the grid for even `k` and below it for odd; from 16
/// on the digit of the rank shown in row `(k - 16) / 2`, left of the grid
/// for even `k` and right of it for odd.
pub open spec fn label_at(b: BoardView, k: int) -> Label {
    if k < 16 {
        Label {
            text: file_label(file_shown(b.reversed, k / 2)),
            x: scaled(b.cells_size, 90 + 100 * (k / 2)) as i64,
            y: scaled(
                b.cells_size,
                if k % 2 == 0 {
                    40
                } else {
                    890
                },
            ) as i64,
        }
    } else {
        Label {
            text: digit_char((rank_shown(b.reversed, (k - 16) / 2) + 1) as nat),
            x: scaled(
                b.cells_size,
                if k % 2 == 0 {
                    10
                } else {
                    860
                },
            ) as i64,
            y: scaled(b.cells_size, 120 + 100 * ((k - 16) / 2)) as i64,
        }
    }
}

/// The 32 labels.
pub open spec fn labels_of(b: BoardView) -> Seq<Label> {
    Seq::new(32, |k: int| label_at(b, k))
}

/// The disc in the bottom right corner, white where White is to move.
pub open spec fn disc_of(b: BoardView) -> Disc {
    Disc {
        x: scaled(b.cells_size, 875) as i64,
        y: scaled(b.cells_size, 875) as i64,
        radius: scaled(b.cells_size, 25) as i64,
        white: b.game.turn == Color::White,
    }
}

/// So many hundredths of a cell, in pixels.
fn scale(cell: u32, hundredths: u32) -> (r: i64)
    requires
        cell_size_ok(cell),
        hundredths <= 1000,
    ensures
        r == scaled(cell, hundredths as int),
        0 <= r <= 10 * cell,
{
    assert(0 <= cell * hundredths <= cell * 1000) by (nonlinear_arith)
        requires
            0 <= hundredths <= 1000,
            cell >= 0,
    ;
    (cell as i64 * hundredths as i64) / 100
}

/// The square shown at a screen column and row.
fn shown(reversed: bool, col: u8, row: u8) -> (sq: Square)
    requires
        col < 8,
        row < 8,
    ensures
        sq == square_shown(reversed, col as int, row as int),
        sq.on_board(),
{
    if reversed {
        Square { file: 7 - col, rank: row }
    } else {
        Square { file: col, rank: 7 - row }
    }
}

/// The 64 cells, row by row from the top left.
pub fn draw_cells(board: &ChessBoard) -> (cells: Vec<CellPaint>)
    ensures
        cells@ == cells_of(board@),
{
    let cell = board.cells_size();
    let reversed = board.is_reversed();
    let mut cells: Vec<CellPaint> = Vec::new();
    let mut k: u8 = 0;
    while k < 64
        invariant
            k <= 64,
            cell == board@.cells_size,
            reversed == board@.reversed,
            cell_size_ok(cell),
            cells@ == cells_of(board@).take(k as int),
        decreases 64 - k,
    {
        let col: u8 = k % 8;
        let row: u8 = k / 8;
        let sq = shown(reversed, col, row);
        let paint = CellPaint {
            x: scale(cell, 50 + 100 * col as u32),
            y: scale(cell, 50 + 100 * row as u32),
            light: (sq.file + sq.rank) % 2 == 0,
        };
        cells.push(paint);
        assert(cells@ =~= cells_of(board@).take(k + 1));
        k += 1;
    }
    assert(cells_of(board@).take(64) =~= cells_of(board@));
    cells
}

/// The pieces at rest, row by row from the top left; the piece being
/// dragged is left out.
pub fn draw_pieces(board: &ChessBoard) -> (pieces: Vec<Sprite>)
    ensures
        pieces@ == sprites_upto(board@, 64),
{
    let cell = board.cells_size();
    let reversed = board.is_reversed();
    let drag = board.moved_piece();
    let mut pieces: Vec<Sprite> = Vec::new();
    let mut k: u8 = 0;
    while k < 64
        invariant
            k <= 64,
            cell == board@.cells_size,
            reversed == board@.reversed,
            drag == board@.drag,
            cell_size_ok(cell),
            pieces@ == sprites_upto(board@, k as int),
        decreases 64 - k,
    {
        let col: u8 = k % 8;
        let row: u8 = k / 8;
        let sq = shown(reversed, col, row);
        let held = match drag {
            Some(m) => m.start_file == sq.file && m.start_rank == sq.rank,
            None => false,
        };
        match board.game().piece_at_cell(sq) {
            Some(piece) => {
                if !held {
                    pieces.push(
                        Sprite {
                            key: piece.char(),
                            x: scale(cell, 60 + 100 * col as u32),
                            y: scale(cell, 60 + 100 * row as u32),
                        },
                    );
                }
            },
            None => {},
        }
        k += 1;
    }
    pieces
}

/// The piece being dragged, if any, centred on the pointer.
pub fn draw_moved_piece(board: &ChessBoard) -> (floating: Option<Sprite>)
    ensures
        floating == floating_of(board@),
{
    let cell = board.cells_size();
    match board.moved_piece() {
        Some(m) => {
            let lift = scale(cell, 40);
            Some(
                Sprite {
                    key: m.piece_type.char(),
                    x: m.coords_x as i64 - lift,
                    y: m.coords_y as i64 - lift,
                },
            )
        },
        None => None,
    }
}

/// The labels of the files above and below the grid and of the ranks left
/// and right of it.
pub fn draw_coordinates(board: &ChessBoard) -> (labels: Vec<Label>)
    ensures
        labels@ == labels_of(board@),
{
    let cell = board.cells_size();
    let reversed = board.is_reversed();
    let mut labels: Vec<Label> = Vec::new();
    let mut k: u8 = 0;
    while k < 32
        invariant
            k <= 32,
            cell == board@.cells_size,
            reversed == board@.reversed,
            cell_size_ok(cell),
            labels@ == labels_of(board@).take(k as int),
        decreases 32 - k,
    {
        let label = if k < 16 {
            let col: u8 = k / 2;
            let file: u8 = if reversed {
                7 - col
            } else {
                col
            };
            let text = match file {
                0 => 'A',
                1 => 'B',
                2 => 'C',
                3 => 'D',
                4 => 'E',
                5 => 'F',
                6 => 'G',
                _ => 'H',
            };
            Label {
                text,
                x: scale(cell, 90 + 100 * col as u32),
                y: scale(
                    cell,
                    if k % 2 == 0 {
                        40
                    } else {
                        890
                    },
                ),
            }
        } else {
            let row: u8 = (k - 16) / 2;
            let rank: u8 = if reversed {
                row
            } else {
                7 - row
            };
            Label {
                text: char_of_digit(rank + 1),
                x: scale(
                    cell,
                    if k % 2 == 0 {
                        10
                    } else {
                        860
                    },
                ),
                y: scale(cell, 120 + 100 * row as u32),
            }
        };
        labels.push(label);
        assert(labels@ =~= labels_of(board@).take(k + 1));
        k += 1;
    }
    assert(labels_of(board@).take(32) =~= labels_of(board@));
    labels
}

/// The disc that shows whose turn it is.
pub fn draw_player_turn(board: &ChessBoard) -> (disc: Disc)
    ensures
        disc == disc_of(board@),
{
    let cell = board.cells_size();
    let at = scale(cell, 875);
    Disc { x: at, y: at, radius: scale(cell, 25), white: board.game().is_white_turn() }
}

/// All there is to paint of a board view.
pub fn paint(board: &ChessBoard) -> (scene: Scene)
    ensures
        scene.cells@ == cells_of(board@),
        scene.pieces@ == sprites_upto(board@, 64),
        scene.floating == floating_of(board@),
        scene.labels@ == labels_of(board@),
        scene.disc == disc_of(board@),
{
    Scene {
        cells: draw_cells(board),
        pieces: draw_pieces(board),
        floating: draw_moved_piece(board),
        labels: draw_coordinates(board),
        disc: draw_player_turn(board),
    }
}

/// Turning the board round changes no cell: where a cell was light it is
/// light, where it was dark it is dark.
pub proof fn law_reversal_keeps_pattern(b: BoardView)
    ensures
        cells_of(BoardView { reversed: !b.reversed, ..b }) == cells_of(b),
{
    let turned = BoardView { reversed: !b.reversed, ..b };
    assert forall|k: int| 0 <= k < 64 implies cell_paint(turned, k) == cell_paint(b, k) by {
        crate::geometry::law_pattern_keeps(k % 8, k / 8);
    }
    assert(cells_of(turned) =~= cells_of(b));
}

/// The piece being dragged is never painted at rest: no piece at rest
/// stands on the cell of the square it was taken from.
pub proof fn law_dragged_piece_not_at_rest(b: BoardView, k: int)
    requires
        0 <= k < 64,
        b.drag is Some,
        square_shown(b.reversed, k % 8, k / 8) == b.drag->0.origin(),
    ensures
        sprite_at(b, k) is None,
{
}

} // verus!

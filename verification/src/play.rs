//! What a move does to a position.
//!
//! The piece leaves its origin and lands on the target, as the piece it is
//! promoted to where the move says so. In castling the rook hops over the
//! king; in a capture en passant the pawn passed is taken off. The turn
//! passes to the other side. A king that moves loses both castling rights of
//! its side, a rook that leaves a corner or is taken in one loses the right
//! of that corner. A double push leaves the square skipped as the en-passant
//! target. The halfmove clock starts again at a pawn's move or a capture and
//! counts on otherwise; the fullmove number counts on after Black's move.
//! Both stop at the largest number of 32 bits.

use crate::board::{Color, Move, MoveKind, Piece, Role, Square};
use crate::fen::{Castling, Setup, SetupView};
use crate::placement::Cells;
use vstd::prelude::*;

verus! {

/// The rights without the one that belongs to the corner `sq`, if `sq` is a
/// corner.
pub open spec fn without_corner(c: Castling, sq: Square) -> Castling {
    Castling {
        white_king: c.white_king && !(sq.file == 7 && sq.rank == 0),
        white_queen: c.white_queen && !(sq.file == 0 && sq.rank == 0),
        black_king: c.black_king && !(sq.file == 7 && sq.rank == 7),
        black_queen: c.black_queen && !(sq.file == 0 && sq.rank == 7),
    }
}

/// The rights without those of one side.
pub open spec fn without_side(c: Castling, color: Color) -> Castling {
    match color {
        Color::White => Castling { white_king: false, white_queen: false, ..c },
        Color::Black => Castling { black_king: false, black_queen: false, ..c },
    }
}

/// The castling rights after the move.
pub open spec fn rights_after(v: SetupView, m: Move) -> Castling {
    let kept = match v.at(m.origin) {
        Some(p) => if p.role == Role::King {
            without_side(v.castling, v.turn)
        } else if p.role == Role::Rook {
            without_corner(v.castling, m.origin)
        } else {
            v.castling
        },
        None => v.castling,
    };
    match v.at(m.target) {
        Some(taken) => if taken.role == Role::Rook {
            without_corner(kept, m.target)
        } else {
            kept
        },
        None => kept,
    }
}

/// The piece that stands on the target after the move.
pub open spec fn piece_placed(v: SetupView, m: Move) -> Option<Piece> {
    match m.promotion {
        Some(role) => Some(Piece { color: v.turn, role }),
        None => v.at(m.origin),
    }
}

/// The place of a square in the list of all 64.
pub open spec fn place(file: int, rank: int) -> int {
    file + 8 * rank
}

/// The squares after the move.
pub open spec fn cells_after(v: SetupView, m: Move) -> Cells {
    let moved = v.cells.update(m.origin.index(), None).update(
        m.target.index(),
        piece_placed(v, m),
    );
    match m.kind {
        MoveKind::Castle => {
            let rook = Some(Piece { color: v.turn, role: Role::Rook });
            if m.target.file > m.origin.file {
                moved.update(place(7, m.origin.rank as int), None).update(
                    place(5, m.origin.rank as int),
                    rook,
                )
            } else {
                moved.update(place(0, m.origin.rank as int), None).update(
                    place(3, m.origin.rank as int),
                    rook,
                )
            }
        },
        MoveKind::EnPassant => moved.update(
            place(m.target.file as int, m.origin.rank as int),
            None,
        ),
        _ => moved,
    }
}

/// The en-passant target after the move: the square skipped by a double
/// push.
pub open spec fn target_after(m: Move) -> Option<Square> {
    if m.kind == MoveKind::DoublePawnPush {
        Some(Square { file: m.origin.file, rank: ((m.origin.rank + m.target.rank) / 2) as u8 })
    } else {
        None
    }
}

/// Whether the move starts the halfmove clock again: a pawn moves or a
/// piece is taken.
pub open spec fn restarts_clock(v: SetupView, m: Move) -> bool {
    (v.at(m.origin) matches Some(p) && p.role == Role::Pawn) || v.at(m.target) is Some || m.kind
        == MoveKind::EnPassant
}

/// One more, up to the largest number.
pub open spec fn count_on(n: u32) -> u32 {
    if n == u32::MAX {
        n
    } else {
        (n + 1) as u32
    }
}

/// The position after the move.
pub open spec fn step_spec(v: SetupView, m: Move) -> SetupView {
    SetupView {
        cells: cells_after(v, m),
        turn: v.turn.flip(),
        castling: rights_after(v, m),
        en_passant: target_after(m),
        halfmove: if restarts_clock(v, m) {
            0
        } else {
            count_on(v.halfmove)
        },
        fullmove: if v.turn == Color::Black {
            count_on(v.fullmove)
        } else {
            v.fullmove
        },
    }
}

/// A copy of the squares.
fn copy_cells(cells: &Vec<Option<Piece>>) -> (out: Vec<Option<Piece>>)
    ensures
        out@ == cells@,
{
    let mut out: Vec<Option<Piece>> = Vec::new();
    let mut i: usize = 0;
    while i < cells.len()
        invariant
            i <= cells.len(),
            out@ == cells@.take(i as int),
        decreases cells.len() - i,
    {
        out.push(cells[i]);
        assert(out@ =~= cells@.take(i + 1));
        i += 1;
    }
    assert(cells@.take(cells.len() as int) =~= cells@);
    out
}

/// The rights without the one of the corner `sq`.
fn drop_corner(c: Castling, sq: Square) -> (r: Castling)
    ensures
        r == without_corner(c, sq),
{
    Castling {
        white_king: c.white_king && !(sq.file == 7 && sq.rank == 0),
        white_queen: c.white_queen && !(sq.file == 0 && sq.rank == 0),
        black_king: c.black_king && !(sq.file == 7 && sq.rank == 7),
        black_queen: c.black_queen && !(sq.file == 0 && sq.rank == 7),
    }
}

/// One more, up to the largest number.
fn next_count(n: u32) -> (r: u32)
    ensures
        r == count_on(n),
{
    if n == u32::MAX {
        n
    } else {
        n + 1
    }
}

impl Clone for Setup {
    fn clone(&self) -> (r: Setup)
        ensures
            r@ == self@,
    {
        Setup {
            cells: copy_cells(&self.cells),
            turn: self.turn,
            castling: self.castling,
            en_passant: self.en_passant,
            halfmove: self.halfmove,
            fullmove: self.fullmove,
        }
    }
}

impl Setup {
    /// Whether two positions hold the same values.
    pub fn same(&self, other: &Setup) -> (r: bool)
        ensures
            r == (self@ == other@),
    {
        if self.turn != other.turn || self.castling != other.castling || self.en_passant
            != other.en_passant || self.halfmove != other.halfmove || self.fullmove
            != other.fullmove || self.cells.len() != other.cells.len() {
            return false;
        }
        let mut i: usize = 0;
        while i < self.cells.len()
            invariant
                i <= self.cells.len(),
                self.cells.len() == other.cells.len(),
                forall|j: int| 0 <= j < i ==> self.cells@[j] == other.cells@[j],
            decreases self.cells.len() - i,
        {
            if self.cells[i] != other.cells[i] {
                return false;
            }
            i += 1;
        }
        assert(self.cells@ =~= other.cells@);
        true
    }

    /// The position after the move `m` of the piece on its origin.
    pub fn step(&self, m: Move) -> (r: Setup)
        requires
            self@.wf(),
            m.origin.on_board(),
            m.target.on_board(),
        ensures
            r@ == step_spec(self@, m),
            r@.wf(),
    {
        let from = m.origin.to_index();
        let to = m.target.to_index();
        let mover = self.cells[from];
        let taken = self.cells[to];
        let mut cells = copy_cells(&self.cells);
        cells[from] = None;
        cells[to] = match m.promotion {
            Some(role) => Some(Piece { color: self.turn, role }),
            None => mover,
        };
        let row: usize = 8 * (m.origin.rank as usize);
        match m.kind {
            MoveKind::Castle => {
                let rook = Some(Piece { color: self.turn, role: Role::Rook });
                if m.target.file > m.origin.file {
                    cells[7 + row] = None;
                    cells[5 + row] = rook;
                } else {
                    cells[row] = None;
                    cells[3 + row] = rook;
                }
            },
            MoveKind::EnPassant => {
                cells[m.target.file as usize + row] = None;
            },
            _ => {},
        }
        let kept = match mover {
            Some(p) => if p.role == Role::King {
                match self.turn {
                    Color::White => Castling {
                        white_king: false,
                        white_queen: false,
                        black_king: self.castling.black_king,
                        black_queen: self.castling.black_queen,
                    },
                    Color::Black => Castling {
                        white_king: self.castling.white_king,
                        white_queen: self.castling.white_queen,
                        black_king: false,
                        black_queen: false,
                    },
                }
            } else if p.role == Role::Rook {
                drop_corner(self.castling, m.origin)
            } else {
                self.castling
            },
            None => self.castling,
        };
        let castling = match taken {
            Some(t) => if t.role == Role::Rook {
                drop_corner(kept, m.target)
            } else {
                kept
            },
            None => kept,
        };
        let en_passant = if m.kind == MoveKind::DoublePawnPush {
            Some(Square { file: m.origin.file, rank: (m.origin.rank + m.target.rank) / 2 })
        } else {
            None
        };
        let pawn = match mover {
            Some(p) => p.role == Role::Pawn,
            None => false,
        };
        let restarts = pawn || taken.is_some() || m.kind == MoveKind::EnPassant;
        Setup {
            cells,
            turn: self.turn.other(),
            castling,
            en_passant,
            halfmove: if restarts {
                0
            } else {
                next_count(self.halfmove)
            },
            fullmove: match self.turn {
                Color::Black => next_count(self.fullmove),
                Color::White => self.fullmove,
            },
        }
    }
}

} // verus!

//! How the pieces move.
//!
//! A knight, bishop, rook, queen or king moves to a square that it attacks
//! and that holds no piece of its own side. A pawn steps one square forward
//! onto an empty square, two from its home rank where both squares are
//! empty, or one square diagonally forward to take: a piece standing there,
//! or en passant the pawn that has just passed it. A king castles from its
//! home square where the right is left, the squares between king and rook
//! are empty, and neither the king's square, the square it crosses nor the
//! square it lands on is attacked.

use crate::attack::{attacked_from, attacks, size, square_at, square_of};
use crate::board::{Color, Move, MoveKind, Piece, Role, Square};
use crate::fen::{Setup, SetupView};
use crate::placement::Cells;
use crate::play::place;
use vstd::prelude::*;

verus! {

/// One rank up for White, one down for Black.
pub open spec fn forward(color: Color) -> int {
    match color {
        Color::White => 1,
        Color::Black => -1,
    }
}

/// The rank on which the pieces of a side start.
pub open spec fn home_rank(color: Color) -> int {
    match color {
        Color::White => 0,
        Color::Black => 7,
    }
}

/// The rank on which the pawns of a side start.
pub open spec fn pawn_rank(color: Color) -> int {
    match color {
        Color::White => 1,
        Color::Black => 6,
    }
}

/// Whether the piece at place `a` belongs to `by` and attacks `target`.
pub open spec fn threatens(cells: Cells, by: Color, a: int, target: Square) -> bool {
    (cells[a] matches Some(p) && p.color == by) && attacks(cells, square_at(a), target)
}

/// Whether some piece of `by` attacks `target`.
pub open spec fn square_attacked(cells: Cells, target: Square, by: Color) -> bool {
    exists|a: int| 0 <= a < 64 && #[trigger] threatens(cells, by, a, target)
}

/// Whether the square holds a piece of the side that is not to move.
pub open spec fn enemy_on(v: SetupView, sq: Square) -> bool {
    v.at(sq) matches Some(p) && p.color != v.turn
}

/// Whether the square holds a piece of the side to move.
pub open spec fn own_on(v: SetupView, sq: Square) -> bool {
    v.at(sq) matches Some(p) && p.color == v.turn
}

/// Whether a pawn on the origin may make the move.
pub open spec fn pawn_moves(v: SetupView, m: Move) -> bool {
    let df = m.target.file - m.origin.file;
    let dr = m.target.rank - m.origin.rank;
    let fwd = forward(v.turn);
    match m.kind {
        MoveKind::Normal => dr == fwd && ((df == 0 && v.at(m.target) is None) || (size(df) == 1
            && enemy_on(v, m.target))),
        MoveKind::DoublePawnPush => df == 0 && dr == 2 * fwd && m.origin.rank == pawn_rank(
            v.turn,
        ) && v.at(m.target) is None && v.cells[place(
            m.origin.file as int,
            m.origin.rank + fwd,
        )] is None,
        MoveKind::EnPassant => size(df) == 1 && dr == fwd && v.at(m.target) is None
            && v.en_passant == Some(m.target) && v.cells[place(
            m.target.file as int,
            m.origin.rank as int,
        )] == Some(Piece { color: v.turn.flip(), role: Role::Pawn }),
        MoveKind::Castle => false,
    }
}

/// Whether the side to move still has the right to castle towards the
/// target of the move.
pub open spec fn has_right(v: SetupView, m: Move) -> bool {
    match v.turn {
        Color::White => if m.target.file == 6 {
            v.castling.white_king
        } else {
            v.castling.white_queen
        },
        Color::Black => if m.target.file == 6 {
            v.castling.black_king
        } else {
            v.castling.black_queen
        },
    }
}

/// Whether the king may castle as the move says.
pub open spec fn king_castles(v: SetupView, m: Move) -> bool {
    let rank = home_rank(v.turn);
    let enemy = v.turn.flip();
    let crossed = Square { file: ((m.origin.file + m.target.file) / 2) as u8, rank: m.origin.rank };
    &&& m.origin.file == 4 && m.origin.rank == rank && m.target.rank == rank
    &&& m.target.file == 6 || m.target.file == 2
    &&& has_right(v, m)
    &&& v.at(crossed) is None && v.at(m.target) is None
    &&& m.target.file == 2 ==> v.cells[place(1, rank)] is None
    &&& !square_attacked(v.cells, m.origin, enemy)
    &&& !square_attacked(v.cells, crossed, enemy)
    &&& !square_attacked(v.cells, m.target, enemy)
}

/// Whether the piece on the origin may make the move, check apart.
pub open spec fn follows_rules(v: SetupView, m: Move) -> bool {
    m.origin.on_board() && m.target.on_board() && v.cells.len() == 64 && match v.at(m.origin) {
        Some(p) => match p.role {
            Role::Pawn => pawn_moves(v, m),
            Role::King => if m.kind == MoveKind::Castle {
                king_castles(v, m)
            } else {
                m.kind == MoveKind::Normal && attacks(v.cells, m.origin, m.target) && !own_on(
                    v,
                    m.target,
                )
            },
            _ => m.kind == MoveKind::Normal && attacks(v.cells, m.origin, m.target) && !own_on(
                v,
                m.target,
            ),
        },
        None => false,
    }
}

/// Whether some piece of `by` attacks `target`.
pub fn is_attacked(cells: &Vec<Option<Piece>>, target: Square, by: Color) -> (r: bool)
    requires
        cells.len() == 64,
        target.on_board(),
    ensures
        r == square_attacked(cells@, target, by),
{
    let mut a: usize = 0;
    while a < 64
        invariant
            a <= 64,
            cells.len() == 64,
            target.on_board(),
            forall|b: int| 0 <= b < a ==> !#[trigger] threatens(cells@, by, b, target),
        decreases 64 - a,
    {
        let theirs = match cells[a] {
            Some(p) => p.color == by,
            None => false,
        };
        if theirs && attacked_from(cells, square_of(a), target) {
            assert(threatens(cells@, by, a as int, target));
            return true;
        }
        a += 1;
    }
    false
}

impl Setup {
    /// Whether a pawn on the origin may make the move.
    fn pawn_moves(&self, m: Move) -> (r: bool)
        requires
            self@.wf(),
            m.origin.on_board(),
            m.target.on_board(),
        ensures
            r == pawn_moves(self@, m),
    {
        let df: i8 = m.target.file as i8 - m.origin.file as i8;
        let dr: i8 = m.target.rank as i8 - m.origin.rank as i8;
        let fwd: i8 = match self.turn {
            Color::White => 1,
            Color::Black => -1,
        };
        let start: u8 = match self.turn {
            Color::White => 1,
            Color::Black => 6,
        };
        let target = self.cells[m.target.to_index()];
        let target_enemy = match target {
            Some(p) => p.color != self.turn,
            None => false,
        };
        match m.kind {
            MoveKind::Normal => dr == fwd && ((df == 0 && target.is_none()) || ((df == 1 || df
                == -1) && target_enemy)),
            MoveKind::DoublePawnPush => {
                if df == 0 && dr == 2 * fwd && m.origin.rank == start && target.is_none() {
                    let between: usize = m.origin.file as usize + 8 * ((m.origin.rank as i8
                        + fwd) as usize);
                    self.cells[between].is_none()
                } else {
                    false
                }
            },
            MoveKind::EnPassant => {
                let beside: usize = m.target.file as usize + 8 * (m.origin.rank as usize);
                (df == 1 || df == -1) && dr == fwd && target.is_none() && self.en_passant
                    == Some(m.target) && self.cells[beside] == Some(
                    Piece { color: self.turn.other(), role: Role::Pawn },
                )
            },
            MoveKind::Castle => false,
        }
    }

    /// Whether the king may castle as the move says.
    fn king_castles(&self, m: Move) -> (r: bool)
        requires
            self@.wf(),
            m.origin.on_board(),
            m.target.on_board(),
        ensures
            r == king_castles(self@, m),
    {
        let rank: u8 = match self.turn {
            Color::White => 0,
            Color::Black => 7,
        };
        if !(m.origin.file == 4 && m.origin.rank == rank && m.target.rank == rank && (
        m.target.file == 6 || m.target.file == 2)) {
            return false;
        }
        let right = match self.turn {
            Color::White => if m.target.file == 6 {
                self.castling.white_king
            } else {
                self.castling.white_queen
            },
            Color::Black => if m.target.file == 6 {
                self.castling.black_king
            } else {
                self.castling.black_queen
            },
        };
        let crossed = Square { file: (m.origin.file + m.target.file) / 2, rank };
        let enemy = self.turn.other();
        right && self.cells[crossed.to_index()].is_none() && self.cells[m.target.to_index()].is_none()
            && (m.target.file != 2 || self.cells[1 + 8 * (rank as usize)].is_none())
            && !is_attacked(&self.cells, m.origin, enemy) && !is_attacked(
            &self.cells,
            crossed,
            enemy,
        ) && !is_attacked(&self.cells, m.target, enemy)
    }

    /// Whether the piece on the origin may make the move, check apart.
    pub fn obeys(&self, m: Move) -> (r: bool)
        requires
            self@.wf(),
        ensures
            r == follows_rules(self@, m),
    {
        if !(m.origin.file < 8 && m.origin.rank < 8 && m.target.file < 8 && m.target.rank < 8) {
            return false;
        }
        let own_target = match self.cells[m.target.to_index()] {
            Some(p) => p.color == self.turn,
            None => false,
        };
        match self.cells[m.origin.to_index()] {
            Some(p) => match p.role {
                Role::Pawn => self.pawn_moves(m),
                Role::King => if m.kind == MoveKind::Castle {
                    self.king_castles(m)
                } else {
                    m.kind == MoveKind::Normal && attacked_from(&self.cells, m.origin, m.target)
                        && !own_target
                },
                _ => m.kind == MoveKind::Normal && attacked_from(&self.cells, m.origin, m.target)
                    && !own_target,
            },
            None => false,
        }
    }
}

} // verus!

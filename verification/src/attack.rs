//! Which squares the pieces attack, and what holds of every position of a
//! game: each side has exactly one king, no pawn stands on the first or the
//! eighth rank, a castling right has its king and rook on their home
//! squares, an en-passant target lies behind a pawn that has just made a
//! double step, and the side that has just moved is not in check.

use crate::board::{Color, Piece, Role, Square};
use crate::fen::{Setup, SetupView};
use crate::placement::Cells;
use crate::play::place;
use vstd::prelude::*;

verus! {

/// Minus one, zero or one, as `d` is negative, zero or positive.
pub open spec fn sign(d: int) -> int {
    if d > 0 {
        1
    } else if d < 0 {
        -1
    } else {
        0
    }
}

/// The size of `d`.
pub open spec fn size(d: int) -> int {
    if d < 0 {
        -d
    } else {
        d
    }
}

/// The number of king's steps from `a` to `b`.
pub open spec fn span(a: Square, b: Square) -> int {
    if size(b.file - a.file) >= size(b.rank - a.rank) {
        size(b.file - a.file)
    } else {
        size(b.rank - a.rank)
    }
}

/// The place of the square `t` steps from `a` towards `b`.
pub open spec fn toward(a: Square, b: Square, t: int) -> int {
    place(a.file + t * sign(b.file - a.file), a.rank + t * sign(b.rank - a.rank))
}

/// Every square strictly between `a` and `b` is empty.
pub open spec fn clear_between(cells: Cells, a: Square, b: Square) -> bool {
    forall|t: int| 1 <= t < span(a, b) ==> cells[#[trigger] toward(a, b, t)] is None
}

/// Whether `b` lies where a piece `p` on `a` strikes, on an empty board.
pub open spec fn reaches(p: Piece, a: Square, b: Square) -> bool {
    let df = b.file - a.file;
    let dr = b.rank - a.rank;
    match p.role {
        Role::Pawn => size(df) == 1 && dr == (if p.color == Color::White {
            1int
        } else {
            -1int
        }),
        Role::Knight => (size(df) == 1 && size(dr) == 2) || (size(df) == 2 && size(dr) == 1),
        Role::King => span(a, b) == 1,
        Role::Bishop => size(df) == size(dr) && df != 0,
        Role::Rook => (df == 0) != (dr == 0),
        Role::Queen => (size(df) == size(dr) && df != 0) || ((df == 0) != (dr == 0)),
    }
}

/// Whether the piece runs along a line until something stands in its way.
pub open spec fn slides(role: Role) -> bool {
    role == Role::Bishop || role == Role::Rook || role == Role::Queen
}

/// Whether the piece on `a` attacks the square `b`.
pub open spec fn attacks(cells: Cells, a: Square, b: Square) -> bool {
    cells[a.index()] matches Some(p) && reaches(p, a, b) && (slides(p.role) ==> clear_between(
        cells,
        a,
        b,
    ))
}

/// The square at a place of the list of all 64.
pub open spec fn square_at(i: int) -> Square {
    Square { file: (i % 8) as u8, rank: (i / 8) as u8 }
}

/// Whether the square at place `k` holds the king of `color` and the piece at
/// place `a` is an enemy that attacks it.
pub open spec fn strikes_king(cells: Cells, color: Color, a: int, k: int) -> bool {
    cells[k] == Some(Piece { color, role: Role::King }) && (cells[a] matches Some(p) && p.color
        != color) && attacks(cells, square_at(a), square_at(k))
}

/// Whether the king of `color` is attacked.
pub open spec fn in_check(cells: Cells, color: Color) -> bool {
    exists|a: int, k: int| 0 <= a < 64 && 0 <= k < 64 && #[trigger] strikes_king(cells, color, a, k)
}

/// How many of the first `n` squares hold the king of `color`.
pub open spec fn kings_among(cells: Cells, color: Color, n: int) -> int
    decreases n,
{
    if n <= 0 {
        0
    } else {
        kings_among(cells, color, n - 1) + if cells[n - 1] == Some(
            Piece { color, role: Role::King },
        ) {
            1int
        } else {
            0int
        }
    }
}

/// Whether a pawn stands at place `i`.
pub open spec fn pawn_at(cells: Cells, i: int) -> bool {
    cells[i] matches Some(p) && p.role == Role::Pawn
}

/// No pawn stands on the first or the eighth rank.
pub open spec fn back_ranks_free(cells: Cells) -> bool {
    forall|i: int| (0 <= i < 8 || 56 <= i < 64) ==> !#[trigger] pawn_at(cells, i)
}

/// Each castling right has its king and its rook on their home squares.
pub open spec fn castling_at_home(v: SetupView) -> bool {
    let wk = Some(Piece { color: Color::White, role: Role::King });
    let wr = Some(Piece { color: Color::White, role: Role::Rook });
    let bk = Some(Piece { color: Color::Black, role: Role::King });
    let br = Some(Piece { color: Color::Black, role: Role::Rook });
    &&& v.castling.white_king ==> v.cells[4] == wk && v.cells[7] == wr
    &&& v.castling.white_queen ==> v.cells[4] == wk && v.cells[0] == wr
    &&& v.castling.black_king ==> v.cells[60] == bk && v.cells[63] == br
    &&& v.castling.black_queen ==> v.cells[60] == bk && v.cells[56] == br
}

/// The en-passant target, if any, is empty and lies on the sixth rank as
/// the side to move counts them; the square beyond it, from which the pawn
/// came, is empty as well, and a pawn of the opponent stands on the square
/// before it.
pub open spec fn en_passant_behind_pawn(v: SetupView) -> bool {
    match v.en_passant {
        Some(sq) => {
            let back: int = if v.turn == Color::White {
                1
            } else {
                -1
            };
            &&& sq.rank == (if v.turn == Color::White {
                5int
            } else {
                2int
            })
            &&& v.cells[sq.index()] is None
            &&& v.cells[place(sq.file as int, sq.rank + back)] is None
            &&& v.cells[place(sq.file as int, sq.rank - back)] == Some(
                Piece { color: v.turn.flip(), role: Role::Pawn },
            )
        },
        None => true,
    }
}

/// What holds of every position of a game.
pub open spec fn sound(v: SetupView) -> bool {
    &&& kings_among(v.cells, Color::White, 64) == 1
    &&& kings_among(v.cells, Color::Black, 64) == 1
    &&& back_ranks_free(v.cells)
    &&& castling_at_home(v)
    &&& en_passant_behind_pawn(v)
    &&& !in_check(v.cells, v.turn.flip())
}

/// Whether every square strictly between `a` and `b` is empty.
fn is_clear(cells: &Vec<Option<Piece>>, a: Square, b: Square) -> (r: bool)
    requires
        cells.len() == 64,
        a.on_board(),
        b.on_board(),
        size(b.file - a.file) == size(b.rank - a.rank) || b.file == a.file || b.rank == a.rank,
    ensures
        r == clear_between(cells@, a, b),
{
    let df: i8 = b.file as i8 - a.file as i8;
    let dr: i8 = b.rank as i8 - a.rank as i8;
    let sf: i8 = if df > 0 {
        1
    } else if df < 0 {
        -1
    } else {
        0
    };
    let sr: i8 = if dr > 0 {
        1
    } else if dr < 0 {
        -1
    } else {
        0
    };
    let adf: i8 = if df < 0 {
        -df
    } else {
        df
    };
    let adr: i8 = if dr < 0 {
        -dr
    } else {
        dr
    };
    let n: i8 = if adf >= adr {
        adf
    } else {
        adr
    };
    let mut t: i8 = 1;
    while t < n
        invariant
            1 <= t,
            n == span(a, b),
            n <= 7,
            sf == sign(b.file - a.file),
            sr == sign(b.rank - a.rank),
            size(b.file - a.file) == size(b.rank - a.rank) || b.file == a.file || b.rank
                == a.rank,
            cells.len() == 64,
            a.on_board(),
            b.on_board(),
            forall|u: int| 1 <= u < t ==> cells@[#[trigger] toward(a, b, u)] is None,
        decreases n - t,
    {
        assert(t * sf == if sf == 1 {
            t as int
        } else if sf == 0 {
            0
        } else {
            -(t as int)
        }) by (nonlinear_arith)
            requires
                sf == 1 || sf == 0 || sf == -1,
        ;
        assert(t * sr == if sr == 1 {
            t as int
        } else if sr == 0 {
            0
        } else {
            -(t as int)
        }) by (nonlinear_arith)
            requires
                sr == 1 || sr == 0 || sr == -1,
        ;
        let f: i8 = a.file as i8 + t * sf;
        let r: i8 = a.rank as i8 + t * sr;
        assert(0 <= f < 8 && 0 <= r < 8);
        let at: usize = f as usize + 8 * (r as usize);
        assert(at == toward(a, b, t as int));
        if cells[at].is_some() {
            return false;
        }
        t += 1;
    }
    true
}

/// Whether the piece on `a` attacks the square `b`.
pub fn attacked_from(cells: &Vec<Option<Piece>>, a: Square, b: Square) -> (r: bool)
    requires
        cells.len() == 64,
        a.on_board(),
        b.on_board(),
    ensures
        r == attacks(cells@, a, b),
{
    let p = match cells[a.to_index()] {
        Some(p) => p,
        None => {
            return false;
        },
    };
    let df: i8 = b.file as i8 - a.file as i8;
    let dr: i8 = b.rank as i8 - a.rank as i8;
    let adf: i8 = if df < 0 {
        -df
    } else {
        df
    };
    let adr: i8 = if dr < 0 {
        -dr
    } else {
        dr
    };
    let diagonal = adf == adr && df != 0;
    let straight = (df == 0) != (dr == 0);
    match p.role {
        Role::Pawn => adf == 1 && dr == (match p.color {
            Color::White => 1i8,
            Color::Black => -1i8,
        }),
        Role::Knight => (adf == 1 && adr == 2) || (adf == 2 && adr == 1),
        Role::King => (if adf >= adr {
            adf
        } else {
            adr
        }) == 1,
        Role::Bishop => diagonal && is_clear(cells, a, b),
        Role::Rook => straight && is_clear(cells, a, b),
        Role::Queen => (diagonal || straight) && is_clear(cells, a, b),
    }
}

/// The square at a place of the list of all 64.
pub fn square_of(i: usize) -> (sq: Square)
    requires
        i < 64,
    ensures
        sq == square_at(i as int),
        sq.on_board(),
        sq.index() == i,
{
    Square { file: (i % 8) as u8, rank: (i / 8) as u8 }
}

/// Whether the king of `color` is attacked.
pub fn king_attacked(cells: &Vec<Option<Piece>>, color: Color) -> (r: bool)
    requires
        cells.len() == 64,
    ensures
        r == in_check(cells@, color),
{
    let king = Some(Piece { color, role: Role::King });
    let mut k: usize = 0;
    while k < 64
        invariant
            k <= 64,
            cells.len() == 64,
            king == Some(Piece { color, role: Role::King }),
            forall|a: int, kk: int|
                0 <= a < 64 && 0 <= kk < k ==> !#[trigger] strikes_king(cells@, color, a, kk),
        decreases 64 - k,
    {
        if cells[k] == king {
            let mut a: usize = 0;
            while a < 64
                invariant
                    a <= 64,
                    k < 64,
                    cells.len() == 64,
                    cells@[k as int] == Some(Piece { color, role: Role::King }),
                    forall|aa: int|
                        0 <= aa < a ==> !#[trigger] strikes_king(cells@, color, aa, k as int),
                decreases 64 - a,
            {
                let enemy = match cells[a] {
                    Some(p) => p.color != color,
                    None => false,
                };
                if enemy && attacked_from(cells, square_of(a), square_of(k)) {
                    assert(strikes_king(cells@, color, a as int, k as int));
                    return true;
                }
                a += 1;
            }
        }
        k += 1;
    }
    false
}

/// How many squares hold the king of `color`.
fn count_kings(cells: &Vec<Option<Piece>>, color: Color) -> (n: usize)
    requires
        cells.len() == 64,
    ensures
        n == kings_among(cells@, color, 64),
{
    let king = Some(Piece { color, role: Role::King });
    let mut n: usize = 0;
    let mut i: usize = 0;
    while i < 64
        invariant
            i <= 64,
            n <= i,
            cells.len() == 64,
            king == Some(Piece { color, role: Role::King }),
            n == kings_among(cells@, color, i as int),
        decreases 64 - i,
    {
        if cells[i] == king {
            n += 1;
        }
        i += 1;
    }
    n
}

/// Whether a pawn stands on the first or the eighth rank.
fn pawn_on_back_rank(cells: &Vec<Option<Piece>>) -> (r: bool)
    requires
        cells.len() == 64,
    ensures
        r == !back_ranks_free(cells@),
{
    let mut i: usize = 0;
    while i < 8
        invariant
            i <= 8,
            cells.len() == 64,
            forall|j: int| (0 <= j < i || 56 <= j < 56 + i) ==> !#[trigger] pawn_at(cells@, j),
        decreases 8 - i,
    {
        let low = match cells[i] {
            Some(p) => p.role == Role::Pawn,
            None => false,
        };
        let high = match cells[56 + i] {
            Some(p) => p.role == Role::Pawn,
            None => false,
        };
        if low {
            assert(pawn_at(cells@, i as int));
            return true;
        }
        if high {
            assert(pawn_at(cells@, 56 + i));
            return true;
        }
        i += 1;
    }
    false
}

impl Setup {
    /// Whether each castling right has its king and rook at home.
    fn castling_at_home(&self) -> (r: bool)
        requires
            self@.wf(),
        ensures
            r == castling_at_home(self@),
    {
        let wk = Some(Piece { color: Color::White, role: Role::King });
        let wr = Some(Piece { color: Color::White, role: Role::Rook });
        let bk = Some(Piece { color: Color::Black, role: Role::King });
        let br = Some(Piece { color: Color::Black, role: Role::Rook });
        (!self.castling.white_king || (self.cells[4] == wk && self.cells[7] == wr)) && (
        !self.castling.white_queen || (self.cells[4] == wk && self.cells[0] == wr)) && (
        !self.castling.black_king || (self.cells[60] == bk && self.cells[63] == br)) && (
        !self.castling.black_queen || (self.cells[60] == bk && self.cells[56] == br))
    }

    /// Whether the en-passant target lies behind a pawn that has just made a
    /// double step.
    fn en_passant_behind_pawn(&self) -> (r: bool)
        requires
            self@.wf(),
        ensures
            r == en_passant_behind_pawn(self@),
    {
        match self.en_passant {
            Some(sq) => {
                let rank: u8 = match self.turn {
                    Color::White => 5,
                    Color::Black => 2,
                };
                if sq.rank != rank {
                    return false;
                }
                let (behind, before): (u8, u8) = match self.turn {
                    Color::White => (6, 4),
                    Color::Black => (1, 3),
                };
                let file = sq.file as usize;
                self.cells[file + 8 * (rank as usize)].is_none() && self.cells[file + 8 * (
                behind as usize)].is_none() && self.cells[file + 8 * (before as usize)] == Some(
                    Piece { color: self.turn.other(), role: Role::Pawn },
                )
            },
            None => true,
        }
    }

    /// Whether the position is one of a game.
    pub fn is_sound(&self) -> (r: bool)
        requires
            self@.wf(),
        ensures
            r == sound(self@),
    {
        count_kings(&self.cells, Color::White) == 1 && count_kings(&self.cells, Color::Black) == 1
            && !pawn_on_back_rank(&self.cells) && self.castling_at_home()
            && self.en_passant_behind_pawn() && !king_attacked(&self.cells, self.turn.other())
    }
}

} // verus!

//! Position records: one line of text with six fields separated by blanks.
//!
//! The fields are the placement, the side to move (`w` or `b`), the castling
//! rights (`-` or letters out of `KQkq`, in that order), the en-passant
//! target (`-` or a square), the halfmove clock and the fullmove number. The
//! last two fields may both be missing; they then count as 0 and 1.

use crate::board::{lemma_square_name, Color, Piece, Square};
use crate::decimal::{
    decimal_text, lemma_decimal_text, parse_decimal, push_decimal, read_decimal,
};
use crate::placement::{
    lemma_placement_round_trip, parse_placement, placement_text, read_placement, write_placement,
    Cells,
};
use crate::text::{
    free_of, is_blank, join, lemma_nonempty_all, lemma_split_join, split_words, texts, words,
    Separator,
};
use vstd::prelude::*;

verus! {

/// Which castling moves the players may still make.
#[derive(Clone, Copy, Debug, PartialEq, Eq, Structural)]
pub struct Castling {
    pub white_king: bool,
    pub white_queen: bool,
    pub black_king: bool,
    pub black_queen: bool,
}

/// The letter `c` if `present`, else nothing.
pub open spec fn optional(present: bool, c: char) -> Seq<char> {
    if present {
        seq![c]
    } else {
        Seq::<char>::empty()
    }
}

/// Whether `s` holds `c` at place `i`.
pub open spec fn letter_at(s: Seq<char>, i: int, c: char) -> bool {
    0 <= i < s.len() && s[i] == c
}

/// One if `b`, else zero.
pub open spec fn one_if(b: bool) -> int {
    if b {
        1
    } else {
        0
    }
}

impl Castling {
    /// No rights at all.
    pub open spec fn none() -> Castling {
        Castling { white_king: false, white_queen: false, black_king: false, black_queen: false }
    }

    /// The castling field: `-`, or the letters of the rights in the order
    /// `KQkq`.
    pub open spec fn text(self) -> Seq<char> {
        if self == Castling::none() {
            seq!['-']
        } else {
            optional(self.white_king, 'K') + optional(self.white_queen, 'Q') + optional(
                self.black_king,
                'k',
            ) + optional(self.black_queen, 'q')
        }
    }

    /// The rights that a castling field grants.
    pub open spec fn of_text(s: Seq<char>) -> Option<Castling> {
        let wk = letter_at(s, 0, 'K');
        let i1 = one_if(wk);
        let wq = letter_at(s, i1, 'Q');
        let i2 = i1 + one_if(wq);
        let bk = letter_at(s, i2, 'k');
        let i3 = i2 + one_if(bk);
        let bq = letter_at(s, i3, 'q');
        let i4 = i3 + one_if(bq);
        if s == seq!['-'] {
            Some(Castling::none())
        } else if i4 == s.len() && i4 > 0 {
            Some(Castling { white_king: wk, white_queen: wq, black_king: bk, black_queen: bq })
        } else {
            None
        }
    }

    /// Reads the castling field.
    pub fn read(s: &Vec<char>) -> (r: Option<Castling>)
        ensures
            r == Castling::of_text(s@),
    {
        if s.len() == 1 && s[0] == '-' {
            assert(s@ =~= seq!['-']);
            return Some(
                Castling {
                    white_king: false,
                    white_queen: false,
                    black_king: false,
                    black_queen: false,
                },
            );
        }
        let mut i: usize = 0;
        let wk = i < s.len() && s[i] == 'K';
        if wk {
            i += 1;
        }
        let wq = i < s.len() && s[i] == 'Q';
        if wq {
            i += 1;
        }
        let bk = i < s.len() && s[i] == 'k';
        if bk {
            i += 1;
        }
        let bq = i < s.len() && s[i] == 'q';
        if bq {
            i += 1;
        }
        if i == s.len() && i > 0 {
            Some(Castling { white_king: wk, white_queen: wq, black_king: bk, black_queen: bq })
        } else {
            None
        }
    }

    /// Appends the castling field to `out`.
    pub fn write(self, out: &mut String)
        ensures
            final(out)@ == old(out)@ + self.text(),
    {
        if !self.white_king && !self.white_queen && !self.black_king && !self.black_queen {
            out.push('-');
            assert(old(out)@.push('-') =~= old(out)@ + self.text());
            return ;
        }
        let ghost mut done = Seq::<char>::empty();
        assert(old(out)@ + done =~= old(out)@);
        if self.white_king {
            out.push('K');
        }
        proof {
            done = done + optional(self.white_king, 'K');
            assert(out@ =~= old(out)@ + done);
        }
        if self.white_queen {
            out.push('Q');
        }
        proof {
            done = done + optional(self.white_queen, 'Q');
            assert(out@ =~= old(out)@ + done);
        }
        if self.black_king {
            out.push('k');
        }
        proof {
            done = done + optional(self.black_king, 'k');
            assert(out@ =~= old(out)@ + done);
        }
        if self.black_queen {
            out.push('q');
        }
        proof {
            done = done + optional(self.black_queen, 'q');
            assert(out@ =~= old(out)@ + done);
            assert(done =~= self.text());
        }
    }
}

/// Reading a castling field gives the rights back; the field is not empty
/// and holds no blank.
pub proof fn lemma_castling_text(c: Castling)
    ensures
        Castling::of_text(c.text()) == Some(c),
        c.text().len() > 0,
        free_of(c.text(), Separator::Blank),
{
    let t = c.text();
    if c == Castling::none() {
    } else {
        let a = optional(c.white_king, 'K');
        let b = optional(c.white_queen, 'Q');
        let d = optional(c.black_king, 'k');
        let e = optional(c.black_queen, 'q');
        assert(t == a + b + d + e);
        assert(t.len() == a.len() + b.len() + d.len() + e.len());
        let i1 = one_if(c.white_king);
        let i2 = i1 + one_if(c.white_queen);
        let i3 = i2 + one_if(c.black_king);
        assert(letter_at(t, 0, 'K') == c.white_king);
        assert(letter_at(t, i1, 'Q') == c.white_queen);
        assert(letter_at(t, i2, 'k') == c.black_king);
        assert(letter_at(t, i3, 'q') == c.black_queen);
        assert(!(t =~= seq!['-']));
    }
}

/// The field of the side to move.
pub open spec fn turn_text(turn: Color) -> Seq<char> {
    match turn {
        Color::White => seq!['w'],
        Color::Black => seq!['b'],
    }
}

/// The side that a turn field names.
pub open spec fn parse_turn(s: Seq<char>) -> Option<Color> {
    if s == seq!['w'] {
        Some(Color::White)
    } else if s == seq!['b'] {
        Some(Color::Black)
    } else {
        None
    }
}

/// The en-passant field.
pub open spec fn en_passant_text(target: Option<Square>) -> Seq<char> {
    match target {
        Some(sq) => sq.name(),
        None => seq!['-'],
    }
}

/// The target that an en-passant field names.
pub open spec fn parse_en_passant(s: Seq<char>) -> Option<Option<Square>> {
    if s == seq!['-'] {
        Some(None)
    } else {
        match Square::of_name(s) {
            Some(sq) => Some(Some(sq)),
            None => None,
        }
    }
}

/// A fullmove number of zero counts as one.
pub open spec fn at_least_one(n: u32) -> u32 {
    if n == 0 {
        1
    } else {
        n
    }
}

/// The value of the clock field at place `i`, or `default` where the record
/// ends before it.
pub open spec fn parse_clock(fields: Seq<Seq<char>>, i: int, default: u32) -> Option<u32> {
    if i < fields.len() {
        parse_decimal(fields[i])
    } else {
        Some(default)
    }
}

/// What a position record says, as plain values.
pub struct SetupView {
    /// The 64 squares, the square of file `f` and rank `r` at `f + 8 * r`.
    pub cells: Cells,
    pub turn: Color,
    pub castling: Castling,
    pub en_passant: Option<Square>,
    pub halfmove: u32,
    pub fullmove: u32,
}

impl SetupView {
    /// The board has 64 squares, the en-passant target lies on it, and the
    /// fullmove number is at least one.
    pub open spec fn wf(self) -> bool {
        &&& self.cells.len() == 64
        &&& (self.en_passant matches Some(sq) ==> sq.on_board())
        &&& self.fullmove >= 1
    }

    /// What stands on a square.
    pub open spec fn at(self, sq: Square) -> Option<Piece> {
        if sq.on_board() && self.cells.len() == 64 {
            self.cells[sq.index()]
        } else {
            None
        }
    }

    /// The six fields of the record.
    pub open spec fn fields(self) -> Seq<Seq<char>> {
        seq![
            placement_text(self.cells),
            turn_text(self.turn),
            self.castling.text(),
            en_passant_text(self.en_passant),
            decimal_text(self.halfmove as nat),
            decimal_text(self.fullmove as nat),
        ]
    }

    /// The record in its one canonical form: all six fields, one space
    /// between neighbours.
    pub open spec fn text(self) -> Seq<char> {
        join(self.fields(), ' ')
    }
}

/// What a record says: `None` where a field is malformed or the record does
/// not have four or six fields.
pub open spec fn parse_setup(s: Seq<char>) -> Option<SetupView> {
    let f = words(s);
    if f.len() == 4 || f.len() == 6 {
        match (
            parse_placement(f[0]),
            parse_turn(f[1]),
            Castling::of_text(f[2]),
            parse_en_passant(f[3]),
            parse_clock(f, 4, 0),
            parse_clock(f, 5, 1),
        ) {
            (Some(cells), Some(turn), Some(castling), Some(en_passant), Some(half), Some(full)) => {
                Some(
                    SetupView {
                        cells,
                        turn,
                        castling,
                        en_passant,
                        halfmove: half,
                        fullmove: at_least_one(full),
                    },
                )
            },
            _ => None,
        }
    } else {
        None
    }
}

/// The canonical record of well-formed values reads back as those values.
pub proof fn lemma_setup_round_trip(v: SetupView)
    requires
        v.wf(),
    ensures
        parse_setup(v.text()) == Some(v),
{
    let f = v.fields();
    lemma_placement_round_trip(v.cells);
    lemma_castling_text(v.castling);
    lemma_decimal_text(v.halfmove as nat);
    lemma_decimal_text(v.fullmove as nat);
    if v.en_passant is Some {
        lemma_square_name(v.en_passant->0);
    }
    assert(parse_en_passant(f[3]) == Some(v.en_passant)) by {
        if v.en_passant is Some {
            assert(!(f[3] =~= seq!['-']));
        }
    }
    assert forall|i: int| 0 <= i < f.len() implies free_of(#[trigger] f[i], Separator::Blank)
        && f[i].len() > 0 by {
        if i == 0 {
            assert forall|j: int| 0 <= j < f[0].len() implies !is_blank(#[trigger] f[0][j]) by {
                assert(crate::placement::placement_char(f[0][j]));
            }
        } else if i == 4 {
            assert forall|j: int| 0 <= j < f[4].len() implies !is_blank(#[trigger] f[4][j]) by {
                assert(crate::decimal::is_digit(f[4][j]));
            }
        } else if i == 5 {
            assert forall|j: int| 0 <= j < f[5].len() implies !is_blank(#[trigger] f[5][j]) by {
                assert(crate::decimal::is_digit(f[5][j]));
            }
        }
    }
    lemma_split_join(f, ' ', Separator::Blank);
    lemma_nonempty_all(f);
    assert(words(v.text()) == f);
    assert(parse_turn(f[1]) == Some(v.turn)) by {
        assert(seq!['b'][0] != seq!['w'][0]);
    }
    assert(parse_clock(f, 4, 0) == Some(v.halfmove));
    assert(parse_clock(f, 5, 1) == Some(v.fullmove));
}

/// A position as a record gives it: the squares, the side to move and the
/// rest of the state, with nothing yet said about the rules of chess.
#[derive(Debug)]
pub struct Setup {
    pub cells: Vec<Option<Piece>>,
    pub turn: Color,
    pub castling: Castling,
    pub en_passant: Option<Square>,
    pub halfmove: u32,
    pub fullmove: u32,
}

impl View for Setup {
    type V = SetupView;

    open spec fn view(&self) -> SetupView {
        SetupView {
            cells: self.cells@,
            turn: self.turn,
            castling: self.castling,
            en_passant: self.en_passant,
            halfmove: self.halfmove,
            fullmove: self.fullmove,
        }
    }
}

/// Reads the turn field.
fn read_turn(s: &Vec<char>) -> (r: Option<Color>)
    ensures
        r == parse_turn(s@),
{
    if s.len() == 1 && s[0] == 'w' {
        assert(s@ =~= seq!['w']);
        Some(Color::White)
    } else if s.len() == 1 && s[0] == 'b' {
        assert(s@ =~= seq!['b']);
        Some(Color::Black)
    } else {
        None
    }
}

/// Reads the en-passant field.
fn read_en_passant(s: &Vec<char>) -> (r: Option<Option<Square>>)
    ensures
        r == parse_en_passant(s@),
        r matches Some(Some(sq)) ==> sq.on_board(),
{
    if s.len() == 1 && s[0] == '-' {
        assert(s@ =~= seq!['-']);
        Some(None)
    } else if s.len() == 2 {
        assert(s@ =~= seq![s@[0], s@[1]]);
        match Square::from_chars(s[0], s[1]) {
            Some(sq) => Some(Some(sq)),
            None => None,
        }
    } else {
        None
    }
}

/// Reads the clock field at place `i`.
fn read_clock(fields: &Vec<Vec<char>>, i: usize, default: u32) -> (r: Option<u32>)
    ensures
        r == parse_clock(texts(fields@), i as int, default),
{
    if i < fields.len() {
        read_decimal(&fields[i])
    } else {
        Some(default)
    }
}

impl Setup {
    /// Reads a record.
    pub fn read(s: &Vec<char>) -> (r: Option<Setup>)
        ensures
            match r {
                Some(setup) => parse_setup(s@) == Some(setup@),
                None => parse_setup(s@) is None,
            },
            r matches Some(setup) ==> setup@.wf(),
    {
        let fields = split_words(s);
        if fields.len() != 4 && fields.len() != 6 {
            return None;
        }
        let ghost f = words(s@);
        assert(f[0] == fields@[0]@ && f[1] == fields@[1]@ && f[2] == fields@[2]@ && f[3]
            == fields@[3]@);
        let cells = match read_placement(&fields[0]) {
            Some(cells) => cells,
            None => {
                return None;
            },
        };
        let turn = match read_turn(&fields[1]) {
            Some(turn) => turn,
            None => {
                return None;
            },
        };
        let castling = match Castling::read(&fields[2]) {
            Some(castling) => castling,
            None => {
                return None;
            },
        };
        let en_passant = match read_en_passant(&fields[3]) {
            Some(target) => target,
            None => {
                return None;
            },
        };
        let halfmove = match read_clock(&fields, 4, 0) {
            Some(n) => n,
            None => {
                return None;
            },
        };
        let fullmove = match read_clock(&fields, 5, 1) {
            Some(n) => if n == 0 {
                1
            } else {
                n
            },
            None => {
                return None;
            },
        };
        Some(Setup { cells, turn, castling, en_passant, halfmove, fullmove })
    }

    /// The canonical record of the position.
    pub fn write(&self) -> (out: String)
        requires
            self@.wf(),
        ensures
            out@ == self@.text(),
    {
        let ghost f = self@.fields();
        let mut out = String::new();
        write_placement(&self.cells, &mut out);
        assert(f.take(1) =~= seq![f[0]]);
        assert(out@ =~= join(f.take(1), ' '));
        out.push(' ');
        out.push(
            match self.turn {
                Color::White => 'w',
                Color::Black => 'b',
            },
        );
        proof {
            assert(f.take(2).drop_last() =~= f.take(1));
            assert(out@ =~= join(f.take(2), ' '));
        }
        out.push(' ');
        self.castling.write(&mut out);
        proof {
            assert(f.take(3).drop_last() =~= f.take(2));
            assert(out@ =~= join(f.take(3), ' '));
        }
        out.push(' ');
        match self.en_passant {
            Some(sq) => {
                sq.push_name(&mut out);
            },
            None => {
                out.push('-');
            },
        }
        proof {
            assert(f.take(4).drop_last() =~= f.take(3));
            assert(out@ =~= join(f.take(4), ' '));
        }
        out.push(' ');
        push_decimal(&mut out, self.halfmove);
        proof {
            assert(f.take(5).drop_last() =~= f.take(4));
            assert(out@ =~= join(f.take(5), ' '));
        }
        out.push(' ');
        push_decimal(&mut out, self.fullmove);
        proof {
            assert(f.take(6).drop_last() =~= f.take(5));
            assert(f.take(6) =~= f);
            assert(out@ =~= join(f, ' '));
        }
        out
    }
}

} // verus!

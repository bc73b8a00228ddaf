//! The values a chess position is made of: colours, pieces, squares and
//! moves, with the letters that stand for them in text.

use vstd::prelude::*;

verus! {

/// The side a piece belongs to.
#[derive(Clone, Copy, Debug, PartialEq, Eq, Structural)]
pub enum Color {
    White,
    Black,
}

impl Color {
    /// The opposing side.
    pub open spec fn flip(self) -> Color {
        match self {
            Color::White => Color::Black,
            Color::Black => Color::White,
        }
    }

    /// The opposing side.
    pub fn other(self) -> (r: Color)
        ensures
            r == self.flip(),
    {
        match self {
            Color::White => Color::Black,
            Color::Black => Color::White,
        }
    }

    /// Whether this is the side that moves first.
    pub fn is_white(self) -> (r: bool)
        ensures
            r == (self == Color::White),
    {
        match self {
            Color::White => true,
            Color::Black => false,
        }
    }

    /// The rank on which a pawn of this side promotes.
    pub open spec fn last_rank(self) -> u8 {
        match self {
            Color::White => 7,
            Color::Black => 0,
        }
    }
}

/// The kind of a piece.
#[derive(Clone, Copy, Debug, PartialEq, Eq, Structural)]
pub enum Role {
    Pawn,
    Knight,
    Bishop,
    Rook,
    Queen,
    King,
}

impl Role {
    /// The lower-case letter of the kind.
    pub open spec fn letter(self) -> char {
        match self {
            Role::Pawn => 'p',
            Role::Knight => 'n',
            Role::Bishop => 'b',
            Role::Rook => 'r',
            Role::Queen => 'q',
            Role::King => 'k',
        }
    }

    /// The kind that a lower-case letter names.
    pub open spec fn of_letter(c: char) -> Option<Role> {
        if c == 'p' {
            Some(Role::Pawn)
        } else if c == 'n' {
            Some(Role::Knight)
        } else if c == 'b' {
            Some(Role::Bishop)
        } else if c == 'r' {
            Some(Role::Rook)
        } else if c == 'q' {
            Some(Role::Queen)
        } else if c == 'k' {
            Some(Role::King)
        } else {
            None
        }
    }

    /// Whether a pawn may turn into this kind.
    pub open spec fn promotable(self) -> bool {
        self != Role::Pawn && self != Role::King
    }

    /// Executable form of [`Role::letter`].
    pub fn char(self) -> (c: char)
        ensures
            c == self.letter(),
    {
        match self {
            Role::Pawn => 'p',
            Role::Knight => 'n',
            Role::Bishop => 'b',
            Role::Rook => 'r',
            Role::Queen => 'q',
            Role::King => 'k',
        }
    }

    /// Executable form of [`Role::of_letter`].
    pub fn from_char(c: char) -> (r: Option<Role>)
        ensures
            r == Role::of_letter(c),
    {
        match c {
            'p' => Some(Role::Pawn),
            'n' => Some(Role::Knight),
            'b' => Some(Role::Bishop),
            'r' => Some(Role::Rook),
            'q' => Some(Role::Queen),
            'k' => Some(Role::King),
            _ => None,
        }
    }
}

/// A piece: a kind and the side that owns it.
#[derive(Clone, Copy, Debug, PartialEq, Eq, Structural)]
pub struct Piece {
    pub color: Color,
    pub role: Role,
}

impl Piece {
    /// The letter of the piece: upper case for White, lower case for Black.
    pub open spec fn letter(self) -> char {
        match self.color {
            Color::Black => self.role.letter(),
            Color::White => match self.role {
                Role::Pawn => 'P',
                Role::Knight => 'N',
                Role::Bishop => 'B',
                Role::Rook => 'R',
                Role::Queen => 'Q',
                Role::King => 'K',
            },
        }
    }

    /// The piece that a letter names.
    pub open spec fn of_letter(c: char) -> Option<Piece> {
        if c == 'P' {
            Some(Piece { color: Color::White, role: Role::Pawn })
        } else if c == 'N' {
            Some(Piece { color: Color::White, role: Role::Knight })
        } else if c == 'B' {
            Some(Piece { color: Color::White, role: Role::Bishop })
        } else if c == 'R' {
            Some(Piece { color: Color::White, role: Role::Rook })
        } else if c == 'Q' {
            Some(Piece { color: Color::White, role: Role::Queen })
        } else if c == 'K' {
            Some(Piece { color: Color::White, role: Role::King })
        } else {
            match Role::of_letter(c) {
                Some(role) => Some(Piece { color: Color::Black, role }),
                None => None,
            }
        }
    }

    /// Executable form of [`Piece::letter`].
    pub fn char(self) -> (c: char)
        ensures
            c == self.letter(),
            Piece::of_letter(c) == Some(self),
    {
        match self.color {
            Color::Black => self.role.char(),
            Color::White => match self.role {
                Role::Pawn => 'P',
                Role::Knight => 'N',
                Role::Bishop => 'B',
                Role::Rook => 'R',
                Role::Queen => 'Q',
                Role::King => 'K',
            },
        }
    }

    /// Executable form of [`Piece::of_letter`].
    pub fn from_char(c: char) -> (r: Option<Piece>)
        ensures
            r == Piece::of_letter(c),
    {
        match c {
            'P' => Some(Piece { color: Color::White, role: Role::Pawn }),
            'N' => Some(Piece { color: Color::White, role: Role::Knight }),
            'B' => Some(Piece { color: Color::White, role: Role::Bishop }),
            'R' => Some(Piece { color: Color::White, role: Role::Rook }),
            'Q' => Some(Piece { color: Color::White, role: Role::Queen }),
            'K' => Some(Piece { color: Color::White, role: Role::King }),
            _ => match Role::from_char(c) {
                Some(role) => Some(Piece { color: Color::Black, role }),
                None => None,
            },
        }
    }
}

/// Reading the letter of a piece gives the piece back, and a piece letter is
/// neither a digit, a blank nor a stroke.
pub proof fn lemma_piece_letter(p: Piece)
    ensures
        Piece::of_letter(p.letter()) == Some(p),
        !crate::decimal::is_digit(p.letter()),
        !crate::text::is_blank(p.letter()),
        p.letter() != '/',
{
}

/// A square of the board. Files `a` to `h` are 0 to 7, ranks `1` to `8` are
/// 0 to 7.
#[derive(Clone, Copy, Debug, PartialEq, Eq, Structural)]
pub struct Square {
    pub file: u8,
    pub rank: u8,
}

/// The letter of a file.
pub open spec fn file_letter(file: u8) -> char {
    if file == 0 {
        'a'
    } else if file == 1 {
        'b'
    } else if file == 2 {
        'c'
    } else if file == 3 {
        'd'
    } else if file == 4 {
        'e'
    } else if file == 5 {
        'f'
    } else if file == 6 {
        'g'
    } else {
        'h'
    }
}

/// The file that a letter names.
pub open spec fn file_of_letter(c: char) -> Option<u8> {
    if c == 'a' {
        Some(0u8)
    } else if c == 'b' {
        Some(1u8)
    } else if c == 'c' {
        Some(2u8)
    } else if c == 'd' {
        Some(3u8)
    } else if c == 'e' {
        Some(4u8)
    } else if c == 'f' {
        Some(5u8)
    } else if c == 'g' {
        Some(6u8)
    } else if c == 'h' {
        Some(7u8)
    } else {
        None
    }
}

/// The digit of a rank.
pub open spec fn rank_digit(rank: u8) -> char {
    crate::decimal::digit_char((rank + 1) as nat)
}

/// The rank that a digit names.
pub open spec fn rank_of_digit(c: char) -> Option<u8> {
    if '1' <= c && c <= '8' {
        Some((crate::decimal::digit_value(c) - 1) as u8)
    } else {
        None
    }
}

impl Square {
    /// Both coordinates lie on the board.
    pub open spec fn on_board(self) -> bool {
        self.file < 8 && self.rank < 8
    }

    /// The place of the square in a list of all 64: file plus eight times
    /// rank.
    pub open spec fn index(self) -> int {
        self.file + 8 * self.rank
    }

    /// The two characters of the square, such as `e4`.
    pub open spec fn name(self) -> Seq<char> {
        seq![file_letter(self.file), rank_digit(self.rank)]
    }

    /// The square that two characters name.
    pub open spec fn of_name(s: Seq<char>) -> Option<Square> {
        if s.len() == 2 {
            match (file_of_letter(s[0]), rank_of_digit(s[1])) {
                (Some(file), Some(rank)) => Some(Square { file, rank }),
                _ => None,
            }
        } else {
            None
        }
    }

    /// The square at a file and a rank, if both lie on the board.
    pub fn new(file: u8, rank: u8) -> (r: Option<Square>)
        ensures
            r == if file < 8 && rank < 8 {
                Some(Square { file, rank })
            } else {
                None
            },
    {
        if file < 8 && rank < 8 {
            Some(Square { file, rank })
        } else {
            None
        }
    }

    /// Executable form of [`Square::index`].
    pub fn to_index(self) -> (i: usize)
        requires
            self.on_board(),
        ensures
            i == self.index(),
            i < 64,
    {
        self.file as usize + 8 * (self.rank as usize)
    }

    /// Reads a square from its two characters.
    pub fn from_chars(a: char, b: char) -> (r: Option<Square>)
        ensures
            r == Square::of_name(seq![a, b]),
            r matches Some(sq) ==> sq.on_board(),
    {
        let file: u8 = match a {
            'a' => 0,
            'b' => 1,
            'c' => 2,
            'd' => 3,
            'e' => 4,
            'f' => 5,
            'g' => 6,
            'h' => 7,
            _ => {
                return None;
            },
        };
        let rank: u8 = match b {
            '1' => 0,
            '2' => 1,
            '3' => 2,
            '4' => 3,
            '5' => 4,
            '6' => 5,
            '7' => 6,
            '8' => 7,
            _ => {
                return None;
            },
        };
        Some(Square { file, rank })
    }

    /// Appends the two characters of the square to `out`.
    pub fn push_name(self, out: &mut String)
        requires
            self.on_board(),
        ensures
            final(out)@ == old(out)@ + self.name(),
    {
        let f = match self.file {
            0 => 'a',
            1 => 'b',
            2 => 'c',
            3 => 'd',
            4 => 'e',
            5 => 'f',
            6 => 'g',
            _ => 'h',
        };
        let r = crate::decimal::char_of_digit(self.rank + 1);
        out.push(f);
        out.push(r);
        assert(old(out)@.push(f).push(r) =~= old(out)@ + self.name());
    }
}

/// Reading the name of a square gives the square back, and the name holds
/// neither a blank nor a stroke.
pub proof fn lemma_square_name(sq: Square)
    requires
        sq.on_board(),
    ensures
        Square::of_name(sq.name()) == Some(sq),
        sq.name().len() == 2,
        !crate::text::is_blank(sq.name()[0]),
        !crate::text::is_blank(sq.name()[1]),
        sq.name()[0] != '-',
{
}

/// A name that reads as a square is the name of that square.
pub proof fn lemma_square_of_name(s: Seq<char>)
    requires
        Square::of_name(s) is Some,
    ensures
        Square::of_name(s)->0.on_board(),
        Square::of_name(s)->0.name() == s,
{
    let sq = Square::of_name(s)->0;
    assert(sq.name() =~= s);
}

/// What sets a move apart from an ordinary step or capture.
#[derive(Clone, Copy, Debug, PartialEq, Eq, Structural)]
pub enum MoveKind {
    /// An ordinary step or capture.
    Normal,
    /// The king steps two files and the rook hops over it.
    Castle,
    /// A pawn takes the pawn that has just passed it.
    EnPassant,
    /// A pawn advances two ranks.
    DoublePawnPush,
}

/// A move: where a piece starts, where it lands, and what a pawn becomes on
/// its last rank.
#[derive(Clone, Copy, Debug, PartialEq, Eq, Structural)]
pub struct Move {
    pub origin: Square,
    pub target: Square,
    pub promotion: Option<Role>,
    pub kind: MoveKind,
}

} // verus!

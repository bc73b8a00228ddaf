//! Moves in coordinate notation: the origin square, the target square and,
//! for a promotion, the lower-case letter of the new piece, as in `e2e4` or
//! `a7a8q`.

use crate::board::{lemma_square_name, lemma_square_of_name, Role, Square};
use vstd::prelude::*;

verus! {

/// A move as its coordinates give it.
#[derive(Clone, Copy, Debug, PartialEq, Eq, Structural)]
pub struct CoordMove {
    pub origin: Square,
    pub target: Square,
    pub promotion: Option<Role>,
}

impl CoordMove {
    /// Both squares lie on the board and the promotion, if any, is to a
    /// knight, bishop, rook or queen.
    pub open spec fn wf(self) -> bool {
        &&& self.origin.on_board()
        &&& self.target.on_board()
        &&& (self.promotion matches Some(role) ==> role.promotable())
    }

    /// The text of the move.
    pub open spec fn text(self) -> Seq<char> {
        match self.promotion {
            Some(role) => (self.origin.name() + self.target.name()).push(role.letter()),
            None => self.origin.name() + self.target.name(),
        }
    }

    /// The move that a text of four or five characters denotes.
    pub open spec fn of_text(s: Seq<char>) -> Option<CoordMove> {
        if s.len() == 4 || s.len() == 5 {
            match (Square::of_name(s.subrange(0, 2)), Square::of_name(s.subrange(2, 4))) {
                (Some(origin), Some(target)) => if s.len() == 4 {
                    Some(CoordMove { origin, target, promotion: None })
                } else {
                    match Role::of_letter(s[4]) {
                        Some(role) => if role.promotable() {
                            Some(CoordMove { origin, target, promotion: Some(role) })
                        } else {
                            None
                        },
                        None => None,
                    }
                },
                _ => None,
            }
        } else {
            None
        }
    }

    /// Reads a move from its text.
    pub fn read(s: &Vec<char>) -> (r: Option<CoordMove>)
        ensures
            r == CoordMove::of_text(s@),
            r matches Some(m) ==> m.wf(),
    {
        if s.len() != 4 && s.len() != 5 {
            return None;
        }
        assert(s@.subrange(0, 2) =~= seq![s@[0], s@[1]]);
        assert(s@.subrange(2, 4) =~= seq![s@[2], s@[3]]);
        let origin = match Square::from_chars(s[0], s[1]) {
            Some(sq) => sq,
            None => {
                return None;
            },
        };
        let target = match Square::from_chars(s[2], s[3]) {
            Some(sq) => sq,
            None => {
                return None;
            },
        };
        if s.len() == 4 {
            return Some(CoordMove { origin, target, promotion: None });
        }
        match Role::from_char(s[4]) {
            Some(Role::Knight) => Some(CoordMove { origin, target, promotion: Some(Role::Knight) }),
            Some(Role::Bishop) => Some(CoordMove { origin, target, promotion: Some(Role::Bishop) }),
            Some(Role::Rook) => Some(CoordMove { origin, target, promotion: Some(Role::Rook) }),
            Some(Role::Queen) => Some(CoordMove { origin, target, promotion: Some(Role::Queen) }),
            _ => None,
        }
    }

    /// The text of the move.
    pub fn write(self) -> (out: String)
        requires
            self.wf(),
        ensures
            out@ == self.text(),
    {
        let mut out = String::new();
        self.origin.push_name(&mut out);
        self.target.push_name(&mut out);
        assert(out@ =~= self.origin.name() + self.target.name());
        match self.promotion {
            Some(role) => {
                out.push(role.char());
            },
            None => {},
        }
        out
    }
}

/// Reading the text of a move gives the move back.
pub proof fn law_text_reads_back(m: CoordMove)
    requires
        m.wf(),
    ensures
        CoordMove::of_text(m.text()) == Some(m),
{
    let t = m.text();
    lemma_square_name(m.origin);
    lemma_square_name(m.target);
    assert(t.subrange(0, 2) =~= m.origin.name());
    assert(t.subrange(2, 4) =~= m.target.name());
}

/// A text that reads as a move is the text of that move.
pub proof fn law_text_is_unique(s: Seq<char>)
    requires
        CoordMove::of_text(s) is Some,
    ensures
        CoordMove::of_text(s)->0.wf(),
        CoordMove::of_text(s)->0.text() == s,
{
    let m = CoordMove::of_text(s)->0;
    lemma_square_of_name(s.subrange(0, 2));
    lemma_square_of_name(s.subrange(2, 4));
    assert(m.text() =~= s);
}

} // verus!

//! A chess position that answers for the rules: which moves are legal, and
//! what position a legal move leads to.
//!
//! Which moves are legal is decided by the `shakmaty` crate (see
//! [`crate::rules`]). A [`Position`] hands it the canonical record of its
//! state and keeps of the answers only what it can read back and hold
//! against its own account of the game. A position loads where its record
//! is well formed, it is sound (see [`crate::attack`]) and the rules accept
//! it. A move counts as legal where the rules list it, its text reads as a
//! move of a piece of the side to move, with a promotion named exactly where
//! a pawn reaches its last rank, the piece may move so (see
//! [`crate::movement`]), and the position that the rules reach by it loads
//! and is the one that [`crate::play`] says the move leads to.
//! A listed move that fails one of these tests is set aside;
//! [`Position::agrees`] says whether any was.

use crate::attack::{in_check, sound};
use crate::board::{Color, Move, MoveKind, Piece, Role, Square};
use crate::coords::CoordMove;
use crate::fen::{lemma_setup_round_trip, parse_setup, Setup, SetupView};
use crate::movement::follows_rules;
use crate::play::step_spec;
use crate::rules::{
    accepted, legal_move_texts, rules_accept, rules_moves, rules_play, successor_text,
};
use crate::text::{chars_of, line_views};
use vstd::prelude::*;

verus! {

/// A record is malformed or describes no position of a game.
#[derive(Clone, Copy, Debug, PartialEq, Eq, Structural)]
pub struct InvalidFen;

/// No legal move has the origin, target and promotion asked for.
#[derive(Clone, Copy, Debug, PartialEq, Eq, Structural)]
pub struct IllegalMove;

/// The values are well formed, the position is sound and the rules accept
/// its record.
pub open spec fn playable(v: SetupView) -> bool {
    v.wf() && sound(v) && accepted(v.text())
}

/// The position that a record loads as: what the record says, where that is
/// sound and the rules accept the canonical record of it.
pub open spec fn load_spec(s: Seq<char>) -> Option<SetupView> {
    match parse_setup(s) {
        Some(v) => if sound(v) && accepted(v.text()) {
            Some(v)
        } else {
            None
        },
        None => None,
    }
}

/// The distance between two coordinates.
pub open spec fn distance(a: u8, b: u8) -> int {
    if a <= b {
        b - a
    } else {
        a - b
    }
}

/// The move is one of a piece of the side to move, and names a promotion
/// exactly where a pawn reaches its last rank.
pub open spec fn fits(v: SetupView, c: CoordMove) -> bool {
    &&& c.wf()
    &&& v.at(c.origin) matches Some(p) && p.color == v.turn && (c.promotion is Some <==> p.role
        == Role::Pawn && c.target.rank == v.turn.last_rank())
}

/// What sets the move apart: a king's step of two files is castling, a
/// pawn's step to another file onto an empty square is a capture en passant,
/// a pawn's step of two ranks is a double push.
pub open spec fn kind_of(v: SetupView, c: CoordMove) -> MoveKind {
    match v.at(c.origin) {
        Some(p) => if p.role == Role::King && distance(c.origin.file, c.target.file) == 2 {
            MoveKind::Castle
        } else if p.role == Role::Pawn && c.origin.file != c.target.file && v.at(c.target)
            is None {
            MoveKind::EnPassant
        } else if p.role == Role::Pawn && distance(c.origin.rank, c.target.rank) == 2 {
            MoveKind::DoublePawnPush
        } else {
            MoveKind::Normal
        },
        None => MoveKind::Normal,
    }
}

/// The move with its kind.
pub open spec fn move_of(v: SetupView, c: CoordMove) -> Move {
    Move { origin: c.origin, target: c.target, promotion: c.promotion, kind: kind_of(v, c) }
}

/// The move that runs from `origin` to `target` with this promotion.
pub open spec fn asked(
    v: SetupView,
    origin: Square,
    target: Square,
    promotion: Option<Role>,
) -> Move {
    move_of(v, CoordMove { origin, target, promotion })
}

/// What the move text `t`, as the rules list it, amounts to in the position
/// `v`: a legal move, or nothing where the text or the position that the
/// rules reach fails one of the tests named at the top.
pub open spec fn legal_text(v: SetupView, t: Seq<char>) -> Option<Move> {
    match CoordMove::of_text(t) {
        Some(c) => if fits(v, c) && follows_rules(v, move_of(v, c)) && (successor_text(
            v.text(),
            t,
        ) matches Some(record) && load_spec(record) == Some(step_spec(v, move_of(v, c)))) {
            Some(move_of(v, c))
        } else {
            None
        },
        None => None,
    }
}

/// The legal moves among the move texts, in order, each once.
pub open spec fn moves_from(v: SetupView, texts: Seq<Seq<char>>) -> Seq<Move>
    decreases texts.len(),
{
    if texts.len() == 0 {
        Seq::<Move>::empty()
    } else {
        let before = moves_from(v, texts.drop_last());
        match legal_text(v, texts.last()) {
            Some(m) => if before.contains(m) {
                before
            } else {
                before.push(m)
            },
            None => before,
        }
    }
}

/// The legal moves of a position.
pub open spec fn legal_moves(v: SetupView) -> Seq<Move> {
    moves_from(v, legal_move_texts(v.text()))
}

/// Whether the library's account of the game and the rules agree on the
/// position: every move text that the rules list gave a legal move, none
/// was set aside.
pub open spec fn rules_agree(v: SetupView) -> bool {
    forall|i: int|
        0 <= i < legal_move_texts(v.text()).len() ==> legal_text(
            v,
            #[trigger] legal_move_texts(v.text())[i],
        ) is Some
}

/// Whether the move runs from `origin` to `target` and, where a promotion is
/// asked for, promotes to it.
pub open spec fn matches_query(
    m: Move,
    origin: Square,
    target: Square,
    promotion: Option<Role>,
) -> bool {
    m.origin == origin && m.target == target && (promotion is None || m.promotion == promotion)
}

/// Whether some legal move matches the query.
pub open spec fn is_legal_spec(
    v: SetupView,
    origin: Square,
    target: Square,
    promotion: Option<Role>,
) -> bool {
    exists|i: int|
        0 <= i < legal_moves(v).len() && matches_query(
            #[trigger] legal_moves(v)[i],
            origin,
            target,
            promotion,
        )
}

/// Whether some legal move from `origin` to `target` promotes.
pub open spec fn is_promotion_spec(v: SetupView, origin: Square, target: Square) -> bool {
    exists|i: int|
        0 <= i < legal_moves(v).len() && (#[trigger] legal_moves(v)[i]).origin == origin
            && legal_moves(v)[i].target == target && legal_moves(v)[i].promotion is Some
}

/// The position after the legal move with exactly this origin, target and
/// promotion; `None` where no legal move has them.
pub open spec fn apply_spec(
    v: SetupView,
    origin: Square,
    target: Square,
    promotion: Option<Role>,
) -> Option<SetupView> {
    if legal_moves(v).contains(asked(v, origin, target, promotion)) {
        Some(step_spec(v, asked(v, origin, target, promotion)))
    } else {
        None
    }
}

/// What a record says is well formed.
pub proof fn lemma_parse_setup_wf(s: Seq<char>)
    requires
        parse_setup(s) is Some,
    ensures
        parse_setup(s)->0.wf(),
{
    let v = parse_setup(s)->0;
    let f = crate::text::words(s);
    if v.en_passant is Some {
        crate::board::lemma_square_of_name(f[3]);
    }
}

/// Every move of the list fits the position, is one that its piece may
/// make and leads to a playable position, and no move is listed twice.
pub proof fn lemma_moves_from(v: SetupView, texts: Seq<Seq<char>>)
    ensures
        forall|i: int|
            0 <= i < moves_from(v, texts).len() ==> {
                let m = #[trigger] moves_from(v, texts)[i];
                &&& playable(step_spec(v, m))
                &&& follows_rules(v, m)
                &&& fits(v, CoordMove { origin: m.origin, target: m.target, promotion: m.promotion })
                &&& m == asked(v, m.origin, m.target, m.promotion)
            },
        forall|i: int, j: int|
            0 <= i < j < moves_from(v, texts).len() ==> (#[trigger] moves_from(v, texts)[i])
                != (#[trigger] moves_from(v, texts)[j]),
    decreases texts.len(),
{
    if texts.len() > 0 {
        lemma_moves_from(v, texts.drop_last());
        let before = moves_from(v, texts.drop_last());
        let list = moves_from(v, texts);
        match legal_text(v, texts.last()) {
            Some(m) => {
                if !before.contains(m) {
                    let c = CoordMove::of_text(texts.last())->0;
                    let record = successor_text(v.text(), texts.last())->0;
                    lemma_parse_setup_wf(record);
                    assert(c == CoordMove {
                        origin: m.origin,
                        target: m.target,
                        promotion: m.promotion,
                    });
                    assert forall|i: int| 0 <= i < list.len() implies {
                        let e = #[trigger] list[i];
                        &&& playable(step_spec(v, e))
                        &&& follows_rules(v, e)
                        &&& fits(
                            v,
                            CoordMove { origin: e.origin, target: e.target, promotion: e.promotion },
                        )
                        &&& e == asked(v, e.origin, e.target, e.promotion)
                    } by {
                        if i < before.len() {
                            assert(list[i] == before[i]);
                        }
                    }
                    assert forall|i: int, j: int| 0 <= i < j < list.len() implies (
                    #[trigger] list[i]) != (#[trigger] list[j]) by {
                        assert(list[i] == before[i]);
                        if j < before.len() {
                            assert(list[j] == before[j]);
                        }
                    }
                }
            },
            None => {},
        }
    }
}

/// Reads a record, tests whether the position is sound and asks the rules
/// whether they accept it.
fn load_setup(text: &str) -> (r: Option<Setup>)
    ensures
        match r {
            Some(setup) => load_spec(text@) == Some(setup@),
            None => load_spec(text@) is None,
        },
        r matches Some(setup) ==> playable(setup@),
{
    let chars = chars_of(text);
    match Setup::read(&chars) {
        None => None,
        Some(setup) => {
            if !setup.is_sound() {
                return None;
            }
            let canonical = setup.write();
            if rules_accept(canonical.as_str()) {
                Some(setup)
            } else {
                None
            }
        },
    }
}

/// Whether `m` is in `list`.
fn listed(list: &Vec<Move>, m: Move) -> (r: bool)
    ensures
        r == list@.contains(m),
{
    let mut i: usize = 0;
    while i < list.len()
        invariant
            i <= list.len(),
            forall|j: int| 0 <= j < i ==> list@[j] != m,
        decreases list.len() - i,
    {
        if list[i] == m {
            return true;
        }
        i += 1;
    }
    false
}

/// A position of a game of chess: the squares, the side to move, the
/// castling rights, the en-passant target and the two clocks.
pub struct Position {
    setup: Setup,
}

impl View for Position {
    type V = SetupView;

    closed spec fn view(&self) -> SetupView {
        self.setup@
    }
}

impl Clone for Position {
    fn clone(&self) -> (r: Position)
        ensures
            r@ == self@,
    {
        proof {
            use_type_invariant(self);
        }
        Position { setup: self.setup.clone() }
    }
}

impl Position {
    #[verifier::type_invariant]
    spec fn inv(self) -> bool {
        playable(self.setup@)
    }

    /// Loads a position from its record. Fails where a field is malformed,
    /// the position is not sound or the rules do not accept it.
    pub fn load(fen: &str) -> (r: Result<Position, InvalidFen>)
        ensures
            match r {
                Ok(p) => load_spec(fen@) == Some(p@),
                Err(_) => load_spec(fen@) is None,
            },
            r matches Ok(p) ==> playable(p@),
    {
        match load_setup(fen) {
            Some(setup) => Ok(Position { setup }),
            None => Err(InvalidFen),
        }
    }

    /// The canonical record of the position.
    pub fn to_fen(&self) -> (out: String)
        ensures
            out@ == self@.text(),
            playable(self@),
    {
        proof {
            use_type_invariant(self);
        }
        self.setup.write()
    }

    /// The side to move.
    pub fn side_to_move(&self) -> (c: Color)
        ensures
            c == self@.turn,
    {
        self.setup.turn
    }

    /// What stands on the square at `file` and `rank`; nothing where either
    /// lies off the board.
    pub fn piece_at(&self, file: u8, rank: u8) -> (r: Option<Piece>)
        ensures
            r == self@.at(Square { file, rank }),
    {
        proof {
            use_type_invariant(self);
        }
        if file < 8 && rank < 8 {
            self.setup.cells[file as usize + 8 * (rank as usize)]
        } else {
            None
        }
    }

    /// Whether the move fits the position.
    fn fits(&self, c: CoordMove) -> (r: bool)
        requires
            c.wf(),
        ensures
            r == fits(self@, c),
    {
        proof {
            use_type_invariant(self);
        }
        match self.setup.cells[c.origin.to_index()] {
            Some(p) => {
                let reaches = p.role == Role::Pawn && c.target.rank == (match self.setup.turn {
                    Color::White => 7u8,
                    Color::Black => 0u8,
                });
                p.color == self.setup.turn && c.promotion.is_some() == reaches
            },
            None => false,
        }
    }

    /// The move with its kind.
    fn with_kind(&self, c: CoordMove) -> (m: Move)
        requires
            c.origin.on_board(),
            c.target.on_board(),
        ensures
            m == move_of(self@, c),
    {
        proof {
            use_type_invariant(self);
        }
        let files: u8 = if c.origin.file <= c.target.file {
            c.target.file - c.origin.file
        } else {
            c.origin.file - c.target.file
        };
        let ranks: u8 = if c.origin.rank <= c.target.rank {
            c.target.rank - c.origin.rank
        } else {
            c.origin.rank - c.target.rank
        };
        let kind = match self.setup.cells[c.origin.to_index()] {
            Some(p) => {
                if p.role == Role::King && files == 2 {
                    MoveKind::Castle
                } else if p.role == Role::Pawn && c.origin.file != c.target.file
                    && self.setup.cells[c.target.to_index()].is_none() {
                    MoveKind::EnPassant
                } else if p.role == Role::Pawn && ranks == 2 {
                    MoveKind::DoublePawnPush
                } else {
                    MoveKind::Normal
                }
            },
            None => MoveKind::Normal,
        };
        Move { origin: c.origin, target: c.target, promotion: c.promotion, kind }
    }

    /// What one move text of the rules amounts to here.
    fn legal_text(&self, fen: &String, t: &String) -> (r: Option<Move>)
        requires
            fen@ == self@.text(),
        ensures
            r == legal_text(self@, t@),
    {
        proof {
            use_type_invariant(self);
        }
        let chars = chars_of(t.as_str());
        let c = match CoordMove::read(&chars) {
            Some(c) => c,
            None => {
                return None;
            },
        };
        if !self.fits(c) {
            return None;
        }
        let m = self.with_kind(c);
        if !self.setup.obeys(m) {
            return None;
        }
        let record = match rules_play(fen.as_str(), t.as_str()) {
            Some(record) => record,
            None => {
                return None;
            },
        };
        let reached = match load_setup(record.as_str()) {
            Some(reached) => reached,
            None => {
                return None;
            },
        };
        let expected = self.setup.step(m);
        if reached.same(&expected) {
            Some(m)
        } else {
            None
        }
    }

    /// The legal moves of the position, each once.
    pub fn legal_moves(&self) -> (moves: Vec<Move>)
        ensures
            moves@ == legal_moves(self@),
    {
        let fen = self.to_fen();
        let texts = rules_moves(fen.as_str());
        let ghost all = line_views(texts@);
        let mut moves: Vec<Move> = Vec::new();
        let mut i: usize = 0;
        assert(all.take(0) =~= Seq::<Seq<char>>::empty());
        while i < texts.len()
            invariant
                i <= texts.len(),
                fen@ == self@.text(),
                all == line_views(texts@),
                moves@ == moves_from(self@, all.take(i as int)),
            decreases texts.len() - i,
        {
            assert(all.take(i + 1).drop_last() =~= all.take(i as int));
            assert(all.take(i + 1).last() == texts@[i as int]@);
            match self.legal_text(&fen, &texts[i]) {
                Some(m) => {
                    if !listed(&moves, m) {
                        moves.push(m);
                    }
                },
                None => {},
            }
            i += 1;
        }
        assert(all.take(texts.len() as int) =~= all);
        moves
    }

    /// Whether every move text that the rules list for the position gave a
    /// legal move. Where this is false, [`Position::legal_moves`] holds
    /// fewer moves than the rules list.
    pub fn agrees(&self) -> (r: bool)
        ensures
            r == rules_agree(self@),
    {
        let fen = self.to_fen();
        let texts = rules_moves(fen.as_str());
        let ghost all = line_views(texts@);
        let mut i: usize = 0;
        while i < texts.len()
            invariant
                i <= texts.len(),
                fen@ == self@.text(),
                all == line_views(texts@),
                all == legal_move_texts(self@.text()),
                forall|j: int| 0 <= j < i ==> legal_text(self@, #[trigger] all[j]) is Some,
            decreases texts.len() - i,
        {
            assert(all[i as int] == texts@[i as int]@);
            if self.legal_text(&fen, &texts[i]).is_none() {
                return false;
            }
            i += 1;
        }
        true
    }

    /// Whether some legal move runs from `origin` to `target` and, where
    /// `promotion` names a piece, promotes to it.
    pub fn is_legal(&self, origin: Square, target: Square, promotion: Option<Role>) -> (r: bool)
        ensures
            r == is_legal_spec(self@, origin, target, promotion),
    {
        let moves = self.legal_moves();
        let mut i: usize = 0;
        while i < moves.len()
            invariant
                i <= moves.len(),
                moves@ == legal_moves(self@),
                forall|j: int|
                    0 <= j < i ==> !matches_query(
                        #[trigger] legal_moves(self@)[j],
                        origin,
                        target,
                        promotion,
                    ),
            decreases moves.len() - i,
        {
            let m = moves[i];
            if m.origin == origin && m.target == target && (promotion.is_none() || m.promotion
                == promotion) {
                assert(matches_query(legal_moves(self@)[i as int], origin, target, promotion));
                return true;
            }
            i += 1;
        }
        false
    }

    /// Whether some legal move from `origin` to `target` is a promotion.
    pub fn is_promotion(&self, origin: Square, target: Square) -> (r: bool)
        ensures
            r == is_promotion_spec(self@, origin, target),
    {
        let moves = self.legal_moves();
        let mut i: usize = 0;
        while i < moves.len()
            invariant
                i <= moves.len(),
                moves@ == legal_moves(self@),
                forall|j: int|
                    0 <= j < i ==> !((#[trigger] legal_moves(self@)[j]).origin == origin
                        && legal_moves(self@)[j].target == target && legal_moves(
                        self@,
                    )[j].promotion is Some),
            decreases moves.len() - i,
        {
            let m = moves[i];
            if m.origin == origin && m.target == target && m.promotion.is_some() {
                assert(legal_moves(self@)[i as int].promotion is Some);
                return true;
            }
            i += 1;
        }
        false
    }

    /// The position after the legal move that has exactly this origin,
    /// target and promotion; fails where there is none.
    pub fn play(&self, origin: Square, target: Square, promotion: Option<Role>) -> (r: Result<
        Position,
        IllegalMove,
    >)
        ensures
            match apply_spec(self@, origin, target, promotion) {
                Some(next) => r matches Ok(p) && p@ == next,
                None => r is Err,
            },
    {
        proof {
            use_type_invariant(self);
            lemma_moves_from(self@, legal_move_texts(self@.text()));
        }
        if !(origin.file < 8 && origin.rank < 8 && target.file < 8 && target.rank < 8) {
            return Err(IllegalMove);
        }
        let m = self.with_kind(CoordMove { origin, target, promotion });
        let moves = self.legal_moves();
        if listed(&moves, m) {
            Ok(Position { setup: self.setup.step(m) })
        } else {
            Err(IllegalMove)
        }
    }

    /// Plays the legal move that has exactly this origin, target and
    /// promotion. Where there is none the position stays as it is.
    pub fn apply(&mut self, origin: Square, target: Square, promotion: Option<Role>) -> (r: Result<
        (),
        IllegalMove,
    >)
        ensures
            match apply_spec(old(self)@, origin, target, promotion) {
                Some(next) => r is Ok && final(self)@ == next,
                None => r is Err && final(self)@ == old(self)@,
            },
    {
        match self.play(origin, target, promotion) {
            Ok(next) => {
                proof {
                    use_type_invariant(&next);
                }
                self.setup = next.setup;
                Ok(())
            },
            Err(e) => Err(e),
        }
    }
}

/// Loading is stable under the canonical record: the record of a loaded
/// position loads as the same position.
pub proof fn law_record_round_trip(fen: Seq<char>)
    requires
        load_spec(fen) is Some,
    ensures
        load_spec(load_spec(fen)->0.text()) == load_spec(fen),
{
    lemma_parse_setup_wf(fen);
    lemma_setup_round_trip(parse_setup(fen)->0);
}

/// Every legal move can be played: asking for its origin, target and
/// promotion plays it, and the position reached is playable and has the
/// other side to move.
pub proof fn law_legal_move_applies(v: SetupView, i: int)
    requires
        0 <= i < legal_moves(v).len(),
    ensures
        ({
            let m = legal_moves(v)[i];
            &&& apply_spec(v, m.origin, m.target, m.promotion) == Some(step_spec(v, m))
            &&& step_spec(v, m).turn == v.turn.flip()
            &&& playable(step_spec(v, m))
        }),
{
    lemma_moves_from(v, legal_move_texts(v.text()));
}

/// Every legal move is one that its piece may make: it moves as pieces of
/// its kind do, over empty squares, and not onto a piece of its own side.
pub proof fn law_legal_move_follows_rules(v: SetupView, i: int)
    requires
        0 <= i < legal_moves(v).len(),
    ensures
        follows_rules(v, legal_moves(v)[i]),
{
    lemma_moves_from(v, legal_move_texts(v.text()));
}

/// No legal move leaves the king of the side that made it attacked.
pub proof fn law_mover_not_in_check(v: SetupView, i: int)
    requires
        0 <= i < legal_moves(v).len(),
    ensures
        !in_check(step_spec(v, legal_moves(v)[i]).cells, v.turn),
{
    lemma_moves_from(v, legal_move_texts(v.text()));
    let next = step_spec(v, legal_moves(v)[i]);
    assert(sound(next));
    assert(next.turn.flip() == v.turn);
}

/// A step is legal, whatever it promotes to, exactly where some legal move
/// has its origin and target.
pub proof fn law_is_legal(v: SetupView, origin: Square, target: Square)
    ensures
        is_legal_spec(v, origin, target, None) <==> exists|i: int|
            0 <= i < legal_moves(v).len() && (#[trigger] legal_moves(v)[i]).origin == origin
                && legal_moves(v)[i].target == target,
{
    if is_legal_spec(v, origin, target, None) {
        let i = choose|i: int|
            0 <= i < legal_moves(v).len() && matches_query(
                #[trigger] legal_moves(v)[i],
                origin,
                target,
                None,
            );
        assert(legal_moves(v)[i].origin == origin && legal_moves(v)[i].target == target);
    }
    if exists|i: int|
        0 <= i < legal_moves(v).len() && (#[trigger] legal_moves(v)[i]).origin == origin
            && legal_moves(v)[i].target == target {
        let i = choose|i: int|
            0 <= i < legal_moves(v).len() && (#[trigger] legal_moves(v)[i]).origin == origin
                && legal_moves(v)[i].target == target;
        assert(matches_query(legal_moves(v)[i], origin, target, None));
    }
}

/// Where some legal move runs from `origin` to `target`, either all such
/// moves promote or none does: a step is a promotion exactly where every
/// legal move with its origin and target names a new piece.
pub proof fn law_promotion_is_uniform(v: SetupView, origin: Square, target: Square)
    requires
        is_legal_spec(v, origin, target, None),
    ensures
        is_promotion_spec(v, origin, target) <==> forall|i: int|
            0 <= i < legal_moves(v).len() && (#[trigger] legal_moves(v)[i]).origin == origin
                && legal_moves(v)[i].target == target ==> legal_moves(v)[i].promotion is Some,
{
    lemma_moves_from(v, legal_move_texts(v.text()));
    let w = choose|i: int|
        0 <= i < legal_moves(v).len() && matches_query(
            #[trigger] legal_moves(v)[i],
            origin,
            target,
            None,
        );
    let reaches = v.at(origin) matches Some(p) && p.role == Role::Pawn && target.rank
        == v.turn.last_rank();
    assert forall|i: int|
        0 <= i < legal_moves(v).len() && (#[trigger] legal_moves(v)[i]).origin == origin
            && legal_moves(v)[i].target == target implies (legal_moves(v)[i].promotion is Some
        <==> reaches) by {
        let m = legal_moves(v)[i];
        assert(fits(v, CoordMove { origin: m.origin, target: m.target, promotion: m.promotion }));
    }
    assert(legal_moves(v)[w].origin == origin && legal_moves(v)[w].target == target);
    if is_promotion_spec(v, origin, target) {
        let k = choose|i: int|
            0 <= i < legal_moves(v).len() && (#[trigger] legal_moves(v)[i]).origin == origin
                && legal_moves(v)[i].target == target && legal_moves(v)[i].promotion is Some;
        assert(reaches);
    } else {
        assert(!(legal_moves(v)[w].promotion is Some));
    }
}

} // verus!

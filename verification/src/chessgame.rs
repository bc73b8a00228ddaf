//! The game on the board: one position that the view asks about and moves
//! on.

use crate::board::{Color, Piece, Role, Square};
use crate::fen::SetupView;
use crate::position::{
    apply_spec, is_legal_spec, is_promotion_spec, load_spec, playable, Position,
};
use vstd::prelude::*;

verus! {

/// A game in progress.
pub struct ChessGame {
    position: Position,
}

impl View for ChessGame {
    type V = SetupView;

    closed spec fn view(&self) -> SetupView {
        self.position@
    }
}

impl Clone for ChessGame {
    fn clone(&self) -> (r: ChessGame)
        ensures
            r@ == self@,
    {
        ChessGame { position: self.position.clone() }
    }
}

impl ChessGame {
    /// Starts a game from the position that a record describes; `None`
    /// where the record is malformed or the rules do not accept the position.
    pub fn new_from_fen(position_str: &str) -> (r: Option<ChessGame>)
        ensures
            match r {
                Some(game) => load_spec(position_str@) == Some(game@),
                None => load_spec(position_str@) is None,
            },
    {
        match Position::load(position_str) {
            Ok(position) => Some(ChessGame { position }),
            Err(_) => None,
        }
    }

    /// The position of the game.
    pub fn position(&self) -> (p: &Position)
        ensures
            p@ == self@,
    {
        &self.position
    }

    /// The canonical record of the position.
    pub fn to_fen(&self) -> (out: String)
        ensures
            out@ == self@.text(),
            playable(self@),
    {
        self.position.to_fen()
    }

    /// Whether White is to move.
    pub fn is_white_turn(&self) -> (r: bool)
        ensures
            r == (self@.turn == Color::White),
    {
        self.position.side_to_move().is_white()
    }

    /// What stands on a square; nothing where the square lies off the board.
    pub fn piece_at_cell(&self, cell: Square) -> (r: Option<Piece>)
        ensures
            r == self@.at(cell),
    {
        self.position.piece_at(cell.file, cell.rank)
    }

    /// Whether some legal move runs from `start_cell` to `end_cell`.
    pub fn is_legal_move(&self, start_cell: Square, end_cell: Square) -> (r: bool)
        ensures
            r == is_legal_spec(self@, start_cell, end_cell, None),
    {
        self.position.is_legal(start_cell, end_cell, None)
    }

    /// Whether some legal move from `start_cell` to `end_cell` promotes.
    pub fn is_promotion_move(&self, start_cell: Square, end_cell: Square) -> (r: bool)
        ensures
            r == is_promotion_spec(self@, start_cell, end_cell),
    {
        self.position.is_promotion(start_cell, end_cell)
    }

    /// The game after the legal move with exactly this origin, target and
    /// promotion; `None` where there is none.
    pub fn after_move(&self, start_cell: Square, end_cell: Square, promotion: Option<Role>) -> (r:
        Option<ChessGame>)
        ensures
            match apply_spec(self@, start_cell, end_cell, promotion) {
                Some(next) => r matches Some(game) && game@ == next,
                None => r is None,
            },
    {
        match self.position.play(start_cell, end_cell, promotion) {
            Ok(position) => Some(ChessGame { position }),
            Err(_) => None,
        }
    }

    /// Plays the legal move with exactly this origin, target and promotion,
    /// and says whether there was one. Where there is none the position
    /// stays as it is.
    pub fn do_move(&mut self, start_cell: Square, end_cell: Square, promotion: Option<Role>) -> (done:
        bool)
        ensures
            match apply_spec(old(self)@, start_cell, end_cell, promotion) {
                Some(next) => done && final(self)@ == next,
                None => !done && final(self)@ == old(self)@,
            },
    {
        match self.position.apply(start_cell, end_cell, promotion) {
            Ok(_) => true,
            Err(_) => false,
        }
    }
}

} // verus!

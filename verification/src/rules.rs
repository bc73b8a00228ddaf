//! The rules of chess, as the `shakmaty` crate implements them.
//!
//! The library hands a position over as a record and a move in coordinate
//! notation, and takes text back. Nothing here is proved: each function
//! below is believed to return what `shakmaty` computes from the texts
//! given, and that this depends on those texts alone.

use crate::text::line_views;
use shakmaty::fen::Fen;
use shakmaty::uci::UciMove;
use shakmaty::{CastlingMode, Chess, EnPassantMode, Position};
use vstd::prelude::*;

verus! {

/// Whether `shakmaty` takes the record `fen` for a position of standard
/// chess, with none of its objections let pass: exactly one king a side, no
/// pawn on the first or eighth rank, the side that has just moved not in
/// check, castling rights only for kings and rooks on their home squares, an
/// en-passant target only behind a pawn that can have made a double step, no
/// more material than promotions can have made, and no check that no move
/// can have given.
pub uninterp spec fn accepted(fen: Seq<char>) -> bool;

/// The legal moves of the position that the record `fen` describes, each in
/// coordinate notation, in the order in which `shakmaty` generates them;
/// empty where the record is not accepted.
pub uninterp spec fn legal_move_texts(fen: Seq<char>) -> Seq<Seq<char>>;

/// The record of the position that `shakmaty` reaches from the record `fen`
/// by the move `mv`; `None` where the record is not accepted or the text is
/// no legal move there.
pub uninterp spec fn successor_text(fen: Seq<char>, mv: Seq<char>) -> Option<Seq<char>>;

/// Calls `Fen::from_ascii` and `Fen::into_position` for standard chess, and
/// says whether both succeed.
#[verifier::external_body]
pub(crate) fn rules_accept(fen: &str) -> (ok: bool)
    ensures
        ok == accepted(fen@),
{
    match Fen::from_ascii(fen.as_bytes()) {
        Ok(setup) => setup.into_position::<Chess>(CastlingMode::Standard).is_ok(),
        Err(_) => false,
    }
}

/// Calls `Position::legal_moves` on the position set up as in
/// [`rules_accept`], and writes each move with `Move::to_uci` for standard
/// chess, so that castling reads as the king's step of two files. Nothing is
/// generated for a record that `shakmaty` objects to: its list of moves has
/// room for the moves of the positions it takes, not of others.
#[verifier::external_body]
pub(crate) fn rules_moves(fen: &str) -> (moves: Vec<String>)
    ensures
        line_views(moves@) == legal_move_texts(fen@),
{
    let setup = match Fen::from_ascii(fen.as_bytes()) {
        Ok(setup) => setup,
        Err(_) => return Vec::new(),
    };
    let moves = match setup.into_position::<Chess>(CastlingMode::Standard) {
        Ok(pos) => pos.legal_moves(),
        Err(_) => return Vec::new(),
    };
    moves.iter().map(|m| m.to_uci(CastlingMode::Standard).to_string()).collect()
}

/// Calls `UciMove::to_move` and `Position::play` on the position set up as in
/// [`rules_accept`], and writes the position reached with
/// `Fen::from_position`, the en-passant target given after every double step.
#[verifier::external_body]
pub(crate) fn rules_play(fen: &str, mv: &str) -> (next: Option<String>)
    ensures
        match next {
            Some(text) => successor_text(fen@, mv@) == Some(text@),
            None => successor_text(fen@, mv@) is None,
        },
{
    let setup = Fen::from_ascii(fen.as_bytes()).ok()?;
    let pos = setup.into_position::<Chess>(CastlingMode::Standard).ok()?;
    let m = UciMove::from_ascii(mv.as_bytes()).ok()?.to_move(&pos).ok()?;
    let reached = pos.play(&m).ok()?;
    Some(Fen::from_position(reached, EnPassantMode::Always).to_string())
}

} // verus!

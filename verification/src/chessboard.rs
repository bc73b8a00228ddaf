//! The board view: which way the board is turned, how large its cells are,
//! the game shown, and the piece that the pointer is dragging.
//!
//! The view is idle or dragging. A press on a piece of the side to move
//! starts a drag, pointer motion carries the piece along, and the release
//! plays the move where it is legal and drops the drag either way. Nothing
//! else changes the position.

use crate::board::{Piece, Role, Square};
use crate::chessgame::ChessGame;
use crate::fen::SetupView;
use crate::geometry::{
    cell_size_ok, screen_to_cell, screen_to_cell_spec, DEFAULT_CELL_SIZE, MAX_CELL_SIZE,
};
use crate::position::{apply_spec, is_legal_spec, is_promotion_spec, load_spec, InvalidFen};
use vstd::prelude::*;

verus! {

/// The piece being dragged: what it is, where the pointer holds it, and the
/// square it was taken from.
#[derive(Clone, Copy, Debug, PartialEq, Eq, Structural)]
pub struct MovedPiece {
    pub piece_type: Piece,
    pub coords_x: i32,
    pub coords_y: i32,
    pub start_file: u8,
    pub start_rank: u8,
}

impl MovedPiece {
    /// The square the piece was taken from.
    pub open spec fn origin(self) -> Square {
        Square { file: self.start_file, rank: self.start_rank }
    }

    /// The same piece held at another pixel.
    pub open spec fn moved_to(self, x: i32, y: i32) -> MovedPiece {
        MovedPiece { coords_x: x, coords_y: y, ..self }
    }

    /// Carries the piece to another pixel.
    pub fn translate_to(&mut self, x: i32, y: i32)
        ensures
            *final(self) == old(self).moved_to(x, y),
    {
        self.coords_x = x;
        self.coords_y = y;
    }
}

/// How a release of the pointer ended.
#[derive(Clone, Copy, Debug, PartialEq, Eq, Structural)]
pub enum Dropped {
    /// Nothing was being dragged.
    Idle,
    /// The drag was dropped and the position stays as it was.
    Cancelled,
    /// The move was played.
    Played,
}

/// The state of a board view, as plain values.
pub struct BoardView {
    pub reversed: bool,
    pub cells_size: u32,
    pub game: SetupView,
    pub drag: Option<MovedPiece>,
}

impl BoardView {
    /// The cell size is one the geometry can work with, and a dragged piece
    /// comes from a square of the board.
    pub open spec fn wf(self) -> bool {
        &&& cell_size_ok(self.cells_size)
        &&& (self.drag matches Some(m) ==> m.origin().on_board())
    }

    /// The square under a pixel.
    pub open spec fn cell_at(self, px: i32, py: i32) -> Option<Square> {
        screen_to_cell_spec(self.cells_size, self.reversed, px as int, py as int)
    }

    /// The view without a drag.
    pub open spec fn idle(self) -> BoardView {
        BoardView { drag: None, ..self }
    }

    /// The view after a press at `(px, py)`: a drag begins where the view is
    /// idle and the pixel lies on a piece of the side to move.
    pub open spec fn pressed(self, px: i32, py: i32) -> BoardView {
        if self.drag is Some {
            self
        } else {
            match self.cell_at(px, py) {
                Some(sq) => match self.game.at(sq) {
                    Some(piece) => if piece.color == self.game.turn {
                        BoardView {
                            drag: Some(
                                MovedPiece {
                                    piece_type: piece,
                                    coords_x: px,
                                    coords_y: py,
                                    start_file: sq.file,
                                    start_rank: sq.rank,
                                },
                            ),
                            ..self
                        }
                    } else {
                        self
                    },
                    None => self,
                },
                None => self,
            }
        }
    }

    /// The view after the pointer has moved to `(px, py)`.
    pub open spec fn dragged(self, px: i32, py: i32) -> BoardView {
        match self.drag {
            Some(m) => BoardView { drag: Some(m.moved_to(px, py)), ..self },
            None => self,
        }
    }

    /// The square that a release at `(px, py)` would move the dragged piece
    /// to: a square of the grid other than the origin that some legal move
    /// from the origin reaches.
    pub open spec fn drop_square(self, px: i32, py: i32) -> Option<Square> {
        match (self.drag, self.cell_at(px, py)) {
            (Some(m), Some(target)) => if target != m.origin() && is_legal_spec(
                self.game,
                m.origin(),
                target,
                None,
            ) {
                Some(target)
            } else {
                None
            },
            _ => None,
        }
    }

    /// Whether a release at `(px, py)` must first ask what the pawn is to
    /// become.
    pub open spec fn asks_promotion(self, px: i32, py: i32) -> bool {
        match self.drop_square(px, py) {
            Some(target) => is_promotion_spec(self.game, self.drag->0.origin(), target),
            None => false,
        }
    }

    /// The position after a release at `(px, py)`, where `choice` is the
    /// answer to the question of [`BoardView::asks_promotion`]: the position
    /// that the move leads to, or `None` where the release plays no move.
    pub open spec fn played(self, px: i32, py: i32, choice: Option<Role>) -> Option<SetupView> {
        match self.drop_square(px, py) {
            Some(target) => {
                let origin = self.drag->0.origin();
                if is_promotion_spec(self.game, origin, target) {
                    match choice {
                        Some(role) => apply_spec(self.game, origin, target, Some(role)),
                        None => None,
                    }
                } else {
                    apply_spec(self.game, origin, target, None)
                }
            },
            None => None,
        }
    }

    /// The view after a release at `(px, py)`: idle, and on the position
    /// that the move leads to where one was played.
    pub open spec fn released(self, px: i32, py: i32, choice: Option<Role>) -> BoardView {
        match self.played(px, py, choice) {
            Some(next) => BoardView { game: next, drag: None, ..self },
            None => self.idle(),
        }
    }
}

/// The record of the position before the first move of a game.
pub open spec fn start_record() -> Seq<char> {
    "rnbqkbnr/pppppppp/8/8/8/8/PPPPPPPP/RNBQKBNR w KQkq - 0 1"@
}

/// A board view.
pub struct ChessBoard {
    reversed: bool,
    logic: ChessGame,
    cells_size: u32,
    moved_piece: Option<MovedPiece>,
}

impl View for ChessBoard {
    type V = BoardView;

    closed spec fn view(&self) -> BoardView {
        BoardView {
            reversed: self.reversed,
            cells_size: self.cells_size,
            game: self.logic@,
            drag: self.moved_piece,
        }
    }
}

impl Clone for ChessBoard {
    fn clone(&self) -> (r: ChessBoard)
        ensures
            r@ == self@,
    {
        proof {
            use_type_invariant(self);
        }
        ChessBoard {
            reversed: self.reversed,
            logic: self.logic.clone(),
            cells_size: self.cells_size,
            moved_piece: self.moved_piece,
        }
    }
}

impl ChessBoard {
    #[verifier::type_invariant]
    spec fn inv(self) -> bool {
        self@.wf()
    }

    /// A board on the position before the first move.
    pub fn new_from_default() -> (r: Result<ChessBoard, InvalidFen>)
        ensures
            match r {
                Ok(board) => load_spec(start_record()) == Some(board@.game) && board@
                    == (BoardView {
                    reversed: false,
                    cells_size: DEFAULT_CELL_SIZE,
                    game: board@.game,
                    drag: None,
                }),
                Err(_) => load_spec(start_record()) is None,
            },
    {
        ChessBoard::new("rnbqkbnr/pppppppp/8/8/8/8/PPPPPPPP/RNBQKBNR w KQkq - 0 1")
    }

    /// A board on the position that a record describes, seen from White's
    /// side, idle, with cells of the usual size.
    pub fn new(initial_position: &str) -> (r: Result<ChessBoard, InvalidFen>)
        ensures
            match r {
                Ok(board) => load_spec(initial_position@) == Some(board@.game) && board@
                    == (BoardView {
                    reversed: false,
                    cells_size: DEFAULT_CELL_SIZE,
                    game: board@.game,
                    drag: None,
                }),
                Err(_) => load_spec(initial_position@) is None,
            },
    {
        match ChessGame::new_from_fen(initial_position) {
            Some(logic) => Ok(
                ChessBoard {
                    reversed: false,
                    logic,
                    cells_size: DEFAULT_CELL_SIZE,
                    moved_piece: None,
                },
            ),
            None => Err(InvalidFen),
        }
    }

    /// Turns the board round.
    pub fn reverse(&mut self)
        ensures
            final(self)@ == (BoardView { reversed: !old(self)@.reversed, ..old(self)@ }),
    {
        proof {
            use_type_invariant(&*self);
        }
        self.reversed = !self.reversed;
    }

    /// Sets the size of a cell where it lies between 1 and
    /// [`MAX_CELL_SIZE`], and says whether it did.
    pub fn resize(&mut self, cells_size: u32) -> (done: bool)
        ensures
            done == cell_size_ok(cells_size),
            final(self)@ == if done {
                BoardView { cells_size, ..old(self)@ }
            } else {
                old(self)@
            },
    {
        proof {
            use_type_invariant(&*self);
        }
        if 1 <= cells_size && cells_size <= MAX_CELL_SIZE {
            self.cells_size = cells_size;
            true
        } else {
            false
        }
    }

    /// Whether the board is seen from Black's side.
    pub fn is_reversed(&self) -> (r: bool)
        ensures
            r == self@.reversed,
            self@.wf(),
    {
        proof {
            use_type_invariant(self);
        }
        self.reversed
    }

    /// The size of a cell in pixels.
    pub fn cells_size(&self) -> (r: u32)
        ensures
            r == self@.cells_size,
            cell_size_ok(r),
    {
        proof {
            use_type_invariant(self);
        }
        self.cells_size
    }

    /// The piece being dragged, if any.
    pub fn moved_piece(&self) -> (r: Option<MovedPiece>)
        ensures
            r == self@.drag,
            r matches Some(m) ==> m.origin().on_board(),
    {
        proof {
            use_type_invariant(self);
        }
        self.moved_piece
    }

    /// The game shown.
    pub fn game(&self) -> (g: &ChessGame)
        ensures
            g@ == self@.game,
    {
        &self.logic
    }

    /// The square under a pixel, or `None` outside the grid.
    pub fn screen_to_cell(&self, px: i32, py: i32) -> (r: Option<Square>)
        ensures
            r == self@.cell_at(px, py),
            r matches Some(sq) ==> sq.on_board(),
    {
        proof {
            use_type_invariant(self);
        }
        screen_to_cell(self.cells_size, self.reversed, px, py)
    }

    /// The top left pixel of a square.
    pub fn cell_to_screen(&self, sq: Square) -> (r: Option<(i32, i32)>)
        ensures
            match r {
                Some(at) => sq.on_board() && (at.0 as int, at.1 as int)
                    == crate::geometry::cell_to_screen_spec(
                    self@.cells_size,
                    self@.reversed,
                    sq,
                ),
                None => !sq.on_board(),
            },
    {
        proof {
            use_type_invariant(self);
        }
        if sq.file < 8 && sq.rank < 8 {
            Some(crate::geometry::cell_to_screen(self.cells_size, self.reversed, sq))
        } else {
            None
        }
    }

    /// The pointer was pressed at `(px, py)`. Says whether a drag began.
    pub fn handle_mouse_pressed(&mut self, px: i32, py: i32) -> (began: bool)
        ensures
            final(self)@ == old(self)@.pressed(px, py),
            began == (old(self)@.drag is None && final(self)@.drag is Some),
    {
        proof {
            use_type_invariant(&*self);
        }
        if self.moved_piece.is_some() {
            return false;
        }
        let sq = match self.screen_to_cell(px, py) {
            Some(sq) => sq,
            None => {
                return false;
            },
        };
        match self.logic.piece_at_cell(sq) {
            Some(piece) => {
                let white = self.logic.is_white_turn();
                if piece.color.is_white() == white {
                    self.moved_piece = Some(
                        MovedPiece {
                            piece_type: piece,
                            coords_x: px,
                            coords_y: py,
                            start_file: sq.file,
                            start_rank: sq.rank,
                        },
                    );
                    true
                } else {
                    false
                }
            },
            None => false,
        }
    }

    /// The pointer moved to `(px, py)`. Says whether a piece went with it.
    pub fn handle_mouse_moved(&mut self, px: i32, py: i32) -> (moved: bool)
        ensures
            final(self)@ == old(self)@.dragged(px, py),
            moved == old(self)@.drag is Some,
    {
        proof {
            use_type_invariant(&*self);
        }
        match self.moved_piece {
            Some(m) => {
                let mut m = m;
                m.translate_to(px, py);
                self.moved_piece = Some(m);
                true
            },
            None => false,
        }
    }

    /// The square that a release at `(px, py)` would move the dragged piece
    /// to.
    fn drop_square(&self, px: i32, py: i32) -> (r: Option<Square>)
        ensures
            r == self@.drop_square(px, py),
            r is Some ==> self@.drag is Some && self@.drag->0.origin().on_board(),
    {
        proof {
            use_type_invariant(self);
        }
        let m = match self.moved_piece {
            Some(m) => m,
            None => {
                return None;
            },
        };
        let target = match self.screen_to_cell(px, py) {
            Some(sq) => sq,
            None => {
                return None;
            },
        };
        let origin = Square { file: m.start_file, rank: m.start_rank };
        if target != origin && self.logic.is_legal_move(origin, target) {
            Some(target)
        } else {
            None
        }
    }

    /// Whether a release at `(px, py)` needs to know what the pawn is to
    /// become: ask before calling [`ChessBoard::handle_mouse_released`].
    pub fn promotion_needed(&self, px: i32, py: i32) -> (r: bool)
        ensures
            r == self@.asks_promotion(px, py),
    {
        match self.drop_square(px, py) {
            Some(target) => {
                let m = self.moved_piece.unwrap();
                self.logic.is_promotion_move(
                    Square { file: m.start_file, rank: m.start_rank },
                    target,
                )
            },
            None => false,
        }
    }

    /// The pointer was released at `(px, py)`; `choice` is the piece chosen
    /// for a promotion, or `None` where none was asked for or the question
    /// was dismissed. Plays the move where there is one and ends the drag.
    pub fn handle_mouse_released(&mut self, px: i32, py: i32, choice: Option<Role>) -> (r: Dropped)
        ensures
            final(self)@ == old(self)@.released(px, py, choice),
            r == if old(self)@.drag is None {
                Dropped::Idle
            } else if old(self)@.played(px, py, choice) is Some {
                Dropped::Played
            } else {
                Dropped::Cancelled
            },
    {
        proof {
            use_type_invariant(&*self);
        }
        let m = match self.moved_piece {
            Some(m) => m,
            None => {
                return Dropped::Idle;
            },
        };
        let origin = Square { file: m.start_file, rank: m.start_rank };
        let target = self.drop_square(px, py);
        self.moved_piece = None;
        match target {
            None => Dropped::Cancelled,
            Some(target) => {
                let promotion = if self.logic.is_promotion_move(origin, target) {
                    match choice {
                        Some(role) => Some(role),
                        None => {
                            return Dropped::Cancelled;
                        },
                    }
                } else {
                    None
                };
                match self.logic.after_move(origin, target, promotion) {
                    Some(game) => {
                        self.logic = game;
                        Dropped::Played
                    },
                    None => Dropped::Cancelled,
                }
            },
        }
    }
}

/// A press and a motion leave the position as it is, and every step keeps
/// the view well formed.
pub proof fn law_pointer_keeps_view(b: BoardView, px: i32, py: i32, choice: Option<Role>)
    requires
        b.wf(),
    ensures
        b.pressed(px, py).game == b.game,
        b.dragged(px, py).game == b.game,
        b.pressed(px, py).wf(),
        b.dragged(px, py).wf(),
        b.released(px, py, choice).wf(),
{
}

/// A release ends the drag. It changes the position only by a legal move of
/// the piece dragged, from the square it was taken from to the square under
/// the pointer.
pub proof fn law_release_plays_or_cancels(b: BoardView, px: i32, py: i32, choice: Option<Role>)
    ensures
        b.released(px, py, choice).drag is None,
        b.released(px, py, choice).game == b.game || (b.drag is Some && b.cell_at(px, py) is Some
            && exists|promotion: Option<Role>|
            #[trigger] apply_spec(
                b.game,
                b.drag->0.origin(),
                b.cell_at(px, py)->0,
                promotion,
            ) == Some(b.released(px, py, choice).game)),
{
    if b.played(px, py, choice) is Some {
        let target = b.drop_square(px, py)->0;
        let origin = b.drag->0.origin();
        if is_promotion_spec(b.game, origin, target) {
            assert(apply_spec(b.game, origin, target, choice) == Some(
                b.released(px, py, choice).game,
            ));
        } else {
            assert(apply_spec(b.game, origin, target, None) == Some(
                b.released(px, py, choice).game,
            ));
        }
    }
}

} // verus!

//! The core of an interactive chessboard.
//!
//! [`position`] holds a chess position and answers for the rules, with
//! [`fen`], [`placement`] and [`coords`] for the notations, [`play`],
//! [`movement`] and [`attack`] for what the library itself knows of the
//! game, and [`rules`] for what it asks of the `shakmaty` crate.
//! [`chessboard`] is the board view with its drag-and-drop state,
//! [`geometry`] places its squares on the screen and [`render`] lists what
//! there is to paint. [`engine`] speaks the line protocol of a chess engine.

pub mod attack;
pub mod board;
pub mod chessboard;
pub mod chessgame;
pub mod coords;
pub mod decimal;
pub mod engine;
pub mod fen;
pub mod geometry;
pub mod movement;
pub mod placement;
pub mod play;
pub mod position;
pub mod render;
pub mod rules;
pub mod text;

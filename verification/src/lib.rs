//! A two-player chess rules engine.
//!
//! Given a position and a proposed move, the engine decides whether the move
//! is legal, applies it, and reports whether the resulting position ends the
//! game. Castling, en passant and promotion are not modelled.
//!
//! Every executable function carries a contract over the spec functions of
//! its module, and the laws that relate several calls are proof functions in
//! [`laws`].

pub mod pieces;
pub mod movement;
pub mod check;
pub mod game;
pub mod fen;
pub mod laws;

pub use crate::pieces::{Board, Color, Decision, Move, MoveError, MoveType, Piece, PieceType};
pub use crate::game::{Game, GameView};

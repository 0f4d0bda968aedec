//! A chess move-legality engine: an 8x8 board of optional pieces, a
//! square-addressing type with checked construction, and a validator that
//! decides a candidate move against per-piece movement rules and applies it
//! only when it is legal.

pub mod board;
pub mod chess_move;
pub mod error;
pub mod piece;

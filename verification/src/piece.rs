use vstd::prelude::*;

verus! {

/// The two sides of a chess game.
#[derive(Clone, Copy, Debug, PartialEq, Eq, Structural)]
pub enum PieceColor {
    White,
    Black,
}

/// The six kinds of chess piece.
#[derive(Clone, Copy, Debug, PartialEq, Eq, Structural)]
pub enum PieceType {
    King,
    Queen,
    Rook,
    Knight,
    Bishop,
    Pawn,
}

/// A piece is a kind together with a color and nothing more: two pieces of
/// the same kind and color are indistinguishable.
#[derive(Clone, Copy, Debug, PartialEq, Eq, Structural)]
pub struct Piece {
    pub piece_type: PieceType,
    pub color: PieceColor,
}

impl Piece {
    /// Build the piece of the given kind and color.
    pub fn new(piece_type: PieceType, color: PieceColor) -> (p: Piece)
        ensures
            p == (Piece { piece_type, color }),
    {
        Piece { piece_type, color }
    }

    /// A piece holds no state beyond its kind and color, so moving it
    /// changes nothing about the piece itself; the board records positions.
    pub fn move_piece(&mut self)
        ensures
            *final(self) == *old(self),
    {
    }
}

} // verus!

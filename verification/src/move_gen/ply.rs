use vstd::prelude::*;
use crate::board::piece::Piece;

verus! {

/// This struct represents a halfmove, also known as ply.
#[derive(Copy, Clone, Debug, PartialEq, Eq, Structural)]
pub struct Ply {
    /// The source square.
    pub source: u8,
    /// The destination square.
    pub destination: u8,
    /// The type of the piece to move.
    pub piece: Piece,
    /// If the move is a capture move, this field will contain the type of the captured piece.
    pub captured_piece: Option<Piece>,
    /// If a pawn reaches the last rank, the piece it becomes.
    pub promotion_piece: Option<Piece>,
}

} // verus!

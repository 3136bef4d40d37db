use vstd::prelude::*;

verus! {

/// Represents a piece on a chessboard.
#[derive(Copy, Clone, Debug, PartialEq, Eq, Structural)]
pub enum Piece {
    Pawn,
    Knight,
    Bishop,
    Rook,
    Queen,
    King,
}

/// The number of different pieces.
pub const NUM_PIECES: u8 = 6;

impl Piece {
    /// The index of a piece: pawn 0, knight 1, bishop 2, rook 3, queen 4, king 5.
    pub open spec fn index_of(self) -> u8 {
        match self {
            Piece::Pawn => 0,
            Piece::Knight => 1,
            Piece::Bishop => 2,
            Piece::Rook => 3,
            Piece::Queen => 4,
            Piece::King => 5,
        }
    }

    /// Returns the index of the piece.
    pub fn to_index(&self) -> (index: u8)
        ensures
            index == self.index_of(),
            index < NUM_PIECES,
    {
        match self {
            Piece::Pawn => 0,
            Piece::Knight => 1,
            Piece::Bishop => 2,
            Piece::Rook => 3,
            Piece::Queen => 4,
            Piece::King => 5,
        }
    }
}

/// Distinct pieces have distinct indices, so an index names its piece.
pub proof fn lemma_piece_index_injective(a: Piece, b: Piece)
    ensures
        a.index_of() == b.index_of() <==> a == b,
{
}

} // verus!

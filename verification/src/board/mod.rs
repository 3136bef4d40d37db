pub mod color;
pub mod piece;
pub mod square;
pub mod bitboard;
pub mod position;
pub mod fen_spec;
pub mod fen;
pub mod fen_parse;
pub mod fen_laws;

use vstd::prelude::*;
use crate::board::fen_spec::{fen_of, parse_fen};
use crate::board::position::{start_view, Position};
use crate::move_gen::ply::Ply;
use crate::move_gen::rules::make_move_spec;
use crate::text::{chars_of, string_from_chars};

verus! {

/// The board of a game: the current position.
#[derive(Copy, Clone)]
pub struct Board {
    pub position: Position,
}

/// The FEN text given to `Board::from_fen` does not describe a position.
#[derive(Copy, Clone, Debug, PartialEq, Eq, Structural)]
pub struct FenError;

impl Board {
    /// The board holds a well-formed position.
    pub open spec fn wf(&self) -> bool {
        self.position.wf()
    }

    /// Parses a board from FEN text: six words for piece placement, side to move,
    /// castling rights, en passant square, halfmove clock and fullmove number.
    pub fn from_fen(fen: &str) -> (board: Result<Board, FenError>)
        ensures
            match board {
                Ok(b) => b.wf() && parse_fen(fen@) == Some(b.position@),
                Err(_) => parse_fen(fen@) is None,
            },
    {
        let chars = chars_of(fen);
        match Position::from_fen_chars(&chars) {
            Some(position) => Ok(Board { position }),
            None => Err(FenError),
        }
    }

    /// The FEN text of the board.
    pub fn to_fen(&self) -> (fen: String)
        requires
            self.wf(),
        ensures
            fen@ == fen_of(self.position@),
    {
        let chars = self.position.fen_chars();
        string_from_chars(&chars)
    }

    /// The board after playing `ply`.
    pub fn make_move(&self, ply: Ply) -> (b: Board)
        requires
            ply.source < 64,
            ply.destination < 64,
        ensures
            b.wf(),
            b.position@ == make_move_spec(
                self.position@,
                ply.source as int,
                ply.destination as int,
                ply.promotion_piece,
            ),
    {
        Board { position: self.position.make_move(ply) }
    }
}

impl Default for Board {
    /// The board at the start of a game.
    fn default() -> (b: Board)
        ensures
            b.wf(),
            b.position@ == start_view(),
    {
        Board { position: Position::start() }
    }
}

} // verus!


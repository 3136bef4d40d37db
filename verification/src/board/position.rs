use vstd::prelude::*;
use crate::board::color::Color;
use crate::board::piece::Piece;

verus! {

/// What stands on a square: nothing, or a piece of some color.
pub type Occupant = Option<(Color, Piece)>;

/// Which castling moves are still allowed.
#[derive(Copy, Clone, Debug, PartialEq, Eq, Structural)]
pub struct CastlingRights {
    pub white_kingside: bool,
    pub white_queenside: bool,
    pub black_kingside: bool,
    pub black_queenside: bool,
}

/// A chess position: the pieces on the 64 squares, the side to move, the castling
/// rights, the en passant square and the two move counters.
#[derive(Copy, Clone)]
pub struct Position {
    /// `pieces[s]` is what stands on square `s` (a1 is 0, h8 is 63).
    pub pieces: [Occupant; 64],
    pub color_to_move: Color,
    pub castling: CastlingRights,
    /// The square a pawn skipped with a double step on the last move, if any.
    pub en_passant: Option<u8>,
    /// The number of halfmoves since the last capture or pawn move.
    pub halfmove_clock: u32,
    /// The number of the full move, starting at 1 and raised after each black move.
    pub fullmove_number: u32,
}

/// The mathematical model of a position.
pub struct PositionView {
    pub pieces: Seq<Occupant>,
    pub color_to_move: Color,
    pub castling: CastlingRights,
    pub en_passant: Option<int>,
    pub halfmove_clock: int,
    pub fullmove_number: int,
}

impl PositionView {
    /// The model describes a position: 64 squares, an en passant square on the board,
    /// counters that fit their machine words.
    pub open spec fn wf(self) -> bool {
        &&& self.pieces.len() == 64
        &&& (self.en_passant matches Some(e) ==> 0 <= e < 64)
        &&& 0 <= self.halfmove_clock <= u32::MAX
        &&& 0 <= self.fullmove_number <= u32::MAX
    }
}

impl View for Position {
    type V = PositionView;

    open spec fn view(&self) -> PositionView {
        PositionView {
            pieces: self.pieces@,
            color_to_move: self.color_to_move,
            castling: self.castling,
            en_passant: match self.en_passant {
                Some(e) => Some(e as int),
                None => None,
            },
            halfmove_clock: self.halfmove_clock as int,
            fullmove_number: self.fullmove_number as int,
        }
    }
}

impl Position {
    /// The position is well formed: its en passant square lies on the board.
    pub open spec fn wf(&self) -> bool {
        self@.wf()
    }

    /// What stands on square `s`.
    pub fn at(&self, s: u8) -> (o: Occupant)
        requires
            s < 64,
        ensures
            o == self@.pieces[s as int],
    {
        self.pieces[s as usize]
    }
}

/// The piece that starts the game on a file of the back rank.
pub open spec fn back_rank_piece(file: int) -> Piece {
    if file == 0 || file == 7 {
        Piece::Rook
    } else if file == 1 || file == 6 {
        Piece::Knight
    } else if file == 2 || file == 5 {
        Piece::Bishop
    } else if file == 3 {
        Piece::Queen
    } else {
        Piece::King
    }
}

/// What stands on square `s` at the start of a game.
pub open spec fn start_occupant(s: int) -> Occupant {
    if 0 <= s < 8 {
        Some((Color::White, back_rank_piece(s)))
    } else if 8 <= s < 16 {
        Some((Color::White, Piece::Pawn))
    } else if 48 <= s < 56 {
        Some((Color::Black, Piece::Pawn))
    } else if 56 <= s < 64 {
        Some((Color::Black, back_rank_piece(s - 56)))
    } else {
        None
    }
}

/// The position at the start of a game.
pub open spec fn start_view() -> PositionView {
    PositionView {
        pieces: Seq::new(64, |s: int| start_occupant(s)),
        color_to_move: Color::White,
        castling: CastlingRights {
            white_kingside: true,
            white_queenside: true,
            black_kingside: true,
            black_queenside: true,
        },
        en_passant: None,
        halfmove_clock: 0,
        fullmove_number: 1,
    }
}

fn back_rank_piece_exec(file: u8) -> (p: Piece)
    requires
        file < 8,
    ensures
        p == back_rank_piece(file as int),
{
    if file == 0 || file == 7 {
        Piece::Rook
    } else if file == 1 || file == 6 {
        Piece::Knight
    } else if file == 2 || file == 5 {
        Piece::Bishop
    } else if file == 3 {
        Piece::Queen
    } else {
        Piece::King
    }
}

impl Position {
    /// The position at the start of a game.
    pub fn start() -> (p: Position)
        ensures
            p@ == start_view(),
            p.wf(),
    {
        let mut pieces: [Occupant; 64] = [None;64];
        let mut s: u8 = 0;
        while s < 64
            invariant
                s <= 64,
                forall|i: int| 0 <= i < s ==> pieces@[i] == start_occupant(i),
            decreases 64 - s,
        {
            let o: Occupant = if s < 8 {
                Some((Color::White, back_rank_piece_exec(s)))
            } else if s < 16 {
                Some((Color::White, Piece::Pawn))
            } else if s < 48 {
                None
            } else if s < 56 {
                Some((Color::Black, Piece::Pawn))
            } else {
                Some((Color::Black, back_rank_piece_exec(s - 56)))
            };
            pieces[s as usize] = o;
            s = s + 1;
        }
        let p = Position {
            pieces,
            color_to_move: Color::White,
            castling: CastlingRights {
                white_kingside: true,
                white_queenside: true,
                black_kingside: true,
                black_queenside: true,
            },
            en_passant: None,
            halfmove_clock: 0,
            fullmove_number: 1,
        };
        assert(p@.pieces =~= start_view().pieces);
        p
    }
}

} // verus!

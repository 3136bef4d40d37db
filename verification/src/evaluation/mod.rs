use vstd::prelude::*;
use crate::board::color::Color;
use crate::board::piece::Piece;
use crate::board::position::{Position, PositionView};
use crate::move_gen::rules::at;

verus! {

/// A score below every score a search can reach.
pub const NEGATIVE_INFINITY: i32 = -1_000_000_000;

/// The worth of a piece in centipawns; the king has none, as it never leaves the board.
pub open spec fn piece_value(pc: Piece) -> int {
    match pc {
        Piece::Pawn => 100,
        Piece::Knight => 300,
        Piece::Bishop => 300,
        Piece::Rook => 500,
        Piece::Queen => 900,
        Piece::King => 0,
    }
}

/// The worth of the pieces of color `c` on the squares below `n`.
pub open spec fn material_upto(v: PositionView, c: Color, n: nat) -> int
    decreases n,
{
    if n == 0 {
        0
    } else {
        material_upto(v, c, (n - 1) as nat) + match at(v, n - 1) {
            Some((x, pc)) => if x == c {
                piece_value(pc)
            } else {
                0
            },
            None => 0,
        }
    }
}

/// The static evaluation: the material of the side to move minus that of the other side.
pub open spec fn evaluation(v: PositionView) -> int {
    material_upto(v, v.color_to_move, 64) - material_upto(v, v.color_to_move.opponent(), 64)
}

fn value_of(pc: Piece) -> (x: i32)
    ensures
        x == piece_value(pc),
{
    match pc {
        Piece::Pawn => 100,
        Piece::Knight => 300,
        Piece::Bishop => 300,
        Piece::Rook => 500,
        Piece::Queen => 900,
        Piece::King => 0,
    }
}

fn material(position: &Position, c: Color) -> (m: i32)
    ensures
        m == material_upto(position@, c, 64),
        0 <= m <= 900 * 64,
{
    let mut m: i32 = 0;
    let mut s: u8 = 0;
    while s < 64
        invariant
            s <= 64,
            m == material_upto(position@, c, s as nat),
            0 <= m <= 900 * s,
        decreases 64 - s,
    {
        match position.pieces[s as usize] {
            Some((x, pc)) => {
                if x == c {
                    m = m + value_of(pc);
                }
            },
            None => {},
        }
        s = s + 1;
    }
    m
}

/// Evaluates the position from the point of view of the side to move.
pub fn evaluate(position: Position) -> (score: i32)
    ensures
        score == evaluation(position@),
        -900 * 64 <= score <= 900 * 64,
{
    let own = material(&position, position.color_to_move);
    let other = material(&position, position.color_to_move.other());
    own - other
}

} // verus!

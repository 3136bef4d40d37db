use vstd::prelude::*;
use crate::board::color::Color;
use crate::board::piece::Piece;
use crate::board::position::{CastlingRights, Occupant, Position};
use crate::board::square::{file, rank};
use crate::move_gen::ply::Ply;
use crate::move_gen::rules::make_move_spec;

verus! {

impl Position {
    /// The position after playing `ply`: the piece on its source square goes to its
    /// destination (becoming the promotion piece if one is named), a pawn taken en
    /// passant leaves the board, a castling king brings its rook along, and the
    /// castling rights, en passant square, counters and side to move are updated.
    pub fn make_move(&self, ply: Ply) -> (p: Position)
        requires
            ply.source < 64,
            ply.destination < 64,
        ensures
            p@ == make_move_spec(
                self@,
                ply.source as int,
                ply.destination as int,
                ply.promotion_piece,
            ),
            p.wf(),
    {
        let s = ply.source;
        let t = ply.destination;
        let c = self.color_to_move;
        let mover: Occupant = self.pieces[s as usize];
        let (is_pawn, is_king) = match mover {
            Some((_, Piece::Pawn)) => (true, false),
            Some((_, Piece::King)) => (false, true),
            _ => (false, false),
        };
        let target_vacant = self.pieces[t as usize].is_none();
        let fs = file(s);
        let ft = file(t);
        let rs = rank(s);
        let rt = rank(t);
        let mut p = *self;
        // lower-priority writes first, so that later writes win where squares coincide
        if is_king && fs == 4 && t + 2 == s {
            p.pieces[(s - 1) as usize] = Some((c, Piece::Rook));
            p.pieces[(s - 4) as usize] = None;
        }
        if is_king && fs == 4 && t == s + 2 {
            p.pieces[(s + 1) as usize] = Some((c, Piece::Rook));
            p.pieces[(s + 3) as usize] = None;
        }
        if is_pawn && fs != ft && target_vacant {
            p.pieces[(8 * rs + ft) as usize] = None;
        }
        p.pieces[s as usize] = None;
        let arriving: Occupant = match mover {
            Some((mc, pc)) => match ply.promotion_piece {
                Some(q) => Some((mc, q)),
                None => Some((mc, pc)),
            },
            None => None,
        };
        p.pieces[t as usize] = arriving;
        let r = self.castling;
        p.castling = CastlingRights {
            white_kingside: r.white_kingside && s != 4 && t != 4 && s != 7 && t != 7,
            white_queenside: r.white_queenside && s != 4 && t != 4 && s != 0 && t != 0,
            black_kingside: r.black_kingside && s != 60 && t != 60 && s != 63 && t != 63,
            black_queenside: r.black_queenside && s != 60 && t != 60 && s != 56 && t != 56,
        };
        let double_step = if rt > rs { rt - rs == 2 } else { rs - rt == 2 };
        p.en_passant = if is_pawn && double_step {
            Some(8 * ((rs + rt) / 2) + fs)
        } else {
            None
        };
        p.halfmove_clock = if is_pawn || !target_vacant {
            0
        } else {
            self.halfmove_clock.saturating_add(1)
        };
        p.fullmove_number = match c {
            Color::Black => self.fullmove_number.saturating_add(1),
            Color::White => self.fullmove_number,
        };
        p.color_to_move = c.other();
        assert(p@.pieces =~= make_move_spec(
            self@,
            s as int,
            t as int,
            ply.promotion_piece,
        ).pieces);
        p
    }
}

} // verus!

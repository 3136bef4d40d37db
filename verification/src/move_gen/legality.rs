use vstd::prelude::*;
use crate::board::color::Color;
use crate::board::piece::Piece;
use crate::board::position::{Occupant, Position};
use crate::board::square::{file, is_king_step, is_pawn_capture_step, rank};
use crate::move_gen::attack_check::{is_square_attacked, piece_attacks};
use crate::move_gen::ply::Ply;
use crate::move_gen::rules::{
    captured, castle_shape, holds_color, king_home, kingside_right, last_rank, legal, pawn_move_shape,
    pawn_start_rank, ply_of, promotion_fits, pseudo_legal, queenside_right,
};

verus! {

/// Tells whether the occupant is a piece `pc` of color `c`.
pub fn is_piece_of(o: Occupant, c: Color, pc: Piece) -> (b: bool)
    ensures
        b == (o == Some((c, pc))),
{
    match o {
        Some((x, y)) => x == c && y == pc,
        None => false,
    }
}

/// Tells whether square `s` holds a piece of color `c`.
pub fn square_holds_color(pos: &Position, s: u8, c: Color) -> (b: bool)
    requires
        s < 64,
    ensures
        b == holds_color(pos@, s as int, c),
{
    match pos.pieces[s as usize] {
        Some((x, _)) => x == c,
        None => false,
    }
}

fn promotion_is_fitting(pc: Piece, c: Color, t: u8, promo: Option<Piece>) -> (b: bool)
    requires
        t < 64,
    ensures
        b == promotion_fits(pc, c, t as int, promo),
{
    let last: u8 = match c {
        Color::White => 7,
        Color::Black => 0,
    };
    assert(last == last_rank(c));
    if pc == Piece::Pawn && rank(t) == last {
        match promo {
            Some(q) => q == Piece::Knight || q == Piece::Bishop || q == Piece::Rook || q
                == Piece::Queen,
            None => false,
        }
    } else {
        promo.is_none()
    }
}

fn pawn_may_move(pos: &Position, c: Color, s: u8, t: u8) -> (b: bool)
    requires
        s < 64,
        t < 64,
        pos.wf(),
    ensures
        b == pawn_move_shape(pos@, c, s as int, t as int),
{
    let fs = file(s);
    let ft = file(t);
    let rs = rank(s);
    let rt = rank(t);
    let t_vacant = pos.pieces[t as usize].is_none();
    let single = match c {
        Color::White => rt == rs + 1,
        Color::Black => rt + 1 == rs,
    };
    let double = match c {
        Color::White => rt == rs + 2 && rs == 1,
        Color::Black => rt + 2 == rs && rs == 6,
    };
    assert(double ==> rs == pawn_start_rank(c));
    if fs == ft && single && t_vacant {
        return true;
    }
    if fs == ft && double && t_vacant {
        let ahead: u8 = match c {
            Color::White => s + 8,
            Color::Black => s - 8,
        };
        if pos.pieces[ahead as usize].is_none() {
            return true;
        }
    }
    if is_pawn_capture_step(c, s, t) {
        let enemy = square_holds_color(pos, t, c.other());
        let ep = match pos.en_passant {
            Some(e) => e == t,
            None => false,
        };
        return enemy || ep;
    }
    false
}

fn may_castle(pos: &Position, c: Color, s: u8, t: u8) -> (b: bool)
    requires
        s < 64,
        t < 64,
    ensures
        b == castle_shape(pos@, c, s as int, t as int),
{
    let h: u8 = match c {
        Color::White => 4,
        Color::Black => 60,
    };
    assert(h == king_home(c));
    if s != h {
        return false;
    }
    let o = c.other();
    let (ks, qs) = match c {
        Color::White => (pos.castling.white_kingside, pos.castling.white_queenside),
        Color::Black => (pos.castling.black_kingside, pos.castling.black_queenside),
    };
    assert(ks == kingside_right(pos@, c) && qs == queenside_right(pos@, c));
    if t == h + 2 {
        ks && is_piece_of(pos.pieces[(h + 3) as usize], c, Piece::Rook) && pos.pieces[(h
            + 1) as usize].is_none() && pos.pieces[(h + 2) as usize].is_none()
            && !is_square_attacked(pos, h, o) && !is_square_attacked(pos, h + 1, o)
            && !is_square_attacked(pos, h + 2, o)
    } else if t + 2 == h {
        qs && is_piece_of(pos.pieces[(h - 4) as usize], c, Piece::Rook) && pos.pieces[(h
            - 1) as usize].is_none() && pos.pieces[(h - 2) as usize].is_none() && pos.pieces[(h
            - 3) as usize].is_none() && !is_square_attacked(pos, h, o) && !is_square_attacked(
            pos,
            h - 1,
            o,
        ) && !is_square_attacked(pos, h - 2, o)
    } else {
        false
    }
}

/// Tells whether the side to move may move the piece on `s` to `t` (with promotion
/// `promo`) by the rules of how pieces move.
pub fn is_pseudo_legal(pos: &Position, s: u8, t: u8, promo: Option<Piece>) -> (b: bool)
    requires
        s < 64,
        t < 64,
        pos.wf(),
    ensures
        b == pseudo_legal(pos@, s as int, t as int, promo),
{
    let c = pos.color_to_move;
    match pos.pieces[s as usize] {
        Some((x, pc)) => {
            if x != c || square_holds_color(pos, t, c) || !promotion_is_fitting(pc, c, t, promo) {
                return false;
            }
            match pc {
                Piece::Pawn => pawn_may_move(pos, c, s, t),
                Piece::King => is_king_step(s, t) || may_castle(pos, c, s, t),
                _ => piece_attacks(pos, s, t, c, pc),
            }
        },
        None => false,
    }
}

/// The ply that moves the piece on `s` to `t`.
pub fn build_ply(pos: &Position, s: u8, t: u8, promo: Option<Piece>) -> (ply: Ply)
    requires
        s < 64,
        t < 64,
    ensures
        ply == ply_of(pos@, s as int, t as int, promo),
{
    let piece = match pos.pieces[s as usize] {
        Some((_, pc)) => pc,
        None => Piece::Pawn,
    };
    let captured_piece = match pos.pieces[t as usize] {
        Some((_, q)) => Some(q),
        None => {
            if piece == Piece::Pawn && pos.pieces[s as usize].is_some() && file(s) != file(t) {
                Some(Piece::Pawn)
            } else {
                None
            }
        },
    };
    assert(captured_piece == captured(pos@, s as int, t as int));
    Ply { source: s, destination: t, piece, captured_piece, promotion_piece: promo }
}

/// Tells whether the side to move may play the piece on `s` to `t` (with promotion
/// `promo`) without leaving its own king attacked.
pub fn is_legal(pos: &Position, s: u8, t: u8, promo: Option<Piece>) -> (b: bool)
    requires
        s < 64,
        t < 64,
        pos.wf(),
    ensures
        b == legal(pos@, s as int, t as int, promo),
{
    if !is_pseudo_legal(pos, s, t, promo) {
        return false;
    }
    let ply = build_ply(pos, s, t, promo);
    let after = pos.make_move(ply);
    !after.is_in_check(pos.color_to_move)
}

} // verus!

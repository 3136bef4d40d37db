use vstd::prelude::*;
use crate::board::piece::Piece;
use crate::board::position::{Position, PositionView};
use crate::move_gen::legality::{build_ply, is_legal, square_holds_color};
use crate::move_gen::ply::Ply;
use crate::move_gen::rules::{
    holds_color, if_legal, legal, legal_moves, moves_between, moves_from_upto, moves_upto,
};

verus! {

/// A square without a piece of the side to move is the source of no legal move.
proof fn lemma_no_moves_from_foreign_square(v: PositionView, s: int, m: nat)
    requires
        !holds_color(v, s, v.color_to_move),
    ensures
        moves_from_upto(v, s, m) =~= Seq::<Ply>::empty(),
    decreases m,
{
    if m > 0 {
        lemma_no_moves_from_foreign_square(v, s, (m - 1) as nat);
        let t = m - 1;
        assert(!legal(v, s, t, None));
        assert(!legal(v, s, t, Some(Piece::Queen)));
        assert(!legal(v, s, t, Some(Piece::Rook)));
        assert(!legal(v, s, t, Some(Piece::Bishop)));
        assert(!legal(v, s, t, Some(Piece::Knight)));
        assert(moves_between(v, s, t) =~= Seq::<Ply>::empty());
    }
}

fn push_if_legal(pos: &Position, s: u8, t: u8, promo: Option<Piece>, moves: &mut Vec<Ply>)
    requires
        s < 64,
        t < 64,
        pos.wf(),
    ensures
        final(moves)@ == old(moves)@ + if_legal(pos@, s as int, t as int, promo),
{
    if is_legal(pos, s, t, promo) {
        moves.push(build_ply(pos, s, t, promo));
    }
    assert(final(moves)@ =~= old(moves)@ + if_legal(pos@, s as int, t as int, promo)) by {
    }
}

fn push_moves_between(pos: &Position, s: u8, t: u8, moves: &mut Vec<Ply>)
    requires
        s < 64,
        t < 64,
        pos.wf(),
    ensures
        final(moves)@ == old(moves)@ + moves_between(pos@, s as int, t as int),
{
    let ghost before = moves@;
    push_if_legal(pos, s, t, None, moves);
    push_if_legal(pos, s, t, Some(Piece::Queen), moves);
    push_if_legal(pos, s, t, Some(Piece::Rook), moves);
    push_if_legal(pos, s, t, Some(Piece::Bishop), moves);
    push_if_legal(pos, s, t, Some(Piece::Knight), moves);
    assert(moves@ =~= before + moves_between(pos@, s as int, t as int));
}

/// Generates all legal moves of the side to move, ordered by source square, then
/// destination square, then promotion (none, queen, rook, bishop, knight).
pub fn generates_moves(position: Position) -> (moves: Vec<Ply>)
    requires
        position.wf(),
    ensures
        moves@ == legal_moves(position@),
{
    let ghost v = position@;
    let mut moves: Vec<Ply> = Vec::new();
    let mut s: u8 = 0;
    while s < 64
        invariant
            s <= 64,
            position.wf(),
            v == position@,
            moves@ == moves_upto(v, s as nat),
        decreases 64 - s,
    {
        if square_holds_color(&position, s, position.color_to_move) {
            let mut t: u8 = 0;
            while t < 64
                invariant
                    s < 64,
                    t <= 64,
                    position.wf(),
                    v == position@,
                    moves@ == moves_upto(v, s as nat) + moves_from_upto(v, s as int, t as nat),
                decreases 64 - t,
            {
                push_moves_between(&position, s, t, &mut moves);
                assert(moves_from_upto(v, s as int, (t + 1) as nat) == moves_from_upto(
                    v,
                    s as int,
                    t as nat,
                ) + moves_between(v, s as int, t as int));
                t = t + 1;
            }
        } else {
            proof {
                lemma_no_moves_from_foreign_square(v, s as int, 64);
            }
        }
        assert(moves_upto(v, (s + 1) as nat) == moves_upto(v, s as nat) + moves_from_upto(
            v,
            s as int,
            64,
        ));
        assert(moves@ =~= moves_upto(v, (s + 1) as nat));
        s = s + 1;
    }
    moves
}

} // verus!

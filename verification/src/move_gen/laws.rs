use vstd::prelude::*;
use crate::board::piece::Piece;
use crate::board::position::PositionView;
use crate::move_gen::ply::Ply;
use crate::board::square::{abs, file_of, king_step, rank_of, square_at};
use crate::move_gen::ply_text::{parse_move_text, ply_from_text, square_of_name};
use crate::move_gen::rules::{
    at, if_legal, in_check, legal, legal_moves, make_move_spec, moves_between, moves_from_upto,
    moves_upto, one_ahead, ply_of, square_attacked,
};

verus! {

/// The ply is the one `legal_moves` lists for a legal move of `v`.
pub open spec fn is_listed_move(v: PositionView, m: Ply) -> bool {
    &&& m.source < 64
    &&& m.destination < 64
    &&& legal(v, m.source as int, m.destination as int, m.promotion_piece)
    &&& m == ply_of(v, m.source as int, m.destination as int, m.promotion_piece)
}

proof fn lemma_if_legal_sound(v: PositionView, s: int, t: int, p: Option<Piece>)
    requires
        0 <= s < 64,
        0 <= t < 64,
    ensures
        forall|i: int| 0 <= i < if_legal(v, s, t, p).len() ==> is_listed_move(v, #[trigger] if_legal(v, s, t, p)[i]),
{
}

proof fn lemma_concat_sound(v: PositionView, a: Seq<Ply>, b: Seq<Ply>)
    requires
        forall|i: int| 0 <= i < a.len() ==> is_listed_move(v, #[trigger] a[i]),
        forall|i: int| 0 <= i < b.len() ==> is_listed_move(v, #[trigger] b[i]),
    ensures
        forall|i: int| 0 <= i < (a + b).len() ==> is_listed_move(v, #[trigger] (a + b)[i]),
{
    assert forall|i: int| 0 <= i < (a + b).len() implies is_listed_move(v, #[trigger] (a + b)[i]) by {
        if i < a.len() {
            assert((a + b)[i] == a[i]);
        } else {
            assert((a + b)[i] == b[i - a.len()]);
        }
    }
}

proof fn lemma_between_sound(v: PositionView, s: int, t: int)
    requires
        0 <= s < 64,
        0 <= t < 64,
    ensures
        forall|i: int| 0 <= i < moves_between(v, s, t).len() ==> is_listed_move(v, #[trigger] moves_between(v, s, t)[i]),
{
    lemma_if_legal_sound(v, s, t, None);
    lemma_if_legal_sound(v, s, t, Some(Piece::Queen));
    lemma_if_legal_sound(v, s, t, Some(Piece::Rook));
    lemma_if_legal_sound(v, s, t, Some(Piece::Bishop));
    lemma_if_legal_sound(v, s, t, Some(Piece::Knight));
    let a = if_legal(v, s, t, None);
    let b = if_legal(v, s, t, Some(Piece::Queen));
    let c = if_legal(v, s, t, Some(Piece::Rook));
    let d = if_legal(v, s, t, Some(Piece::Bishop));
    let e = if_legal(v, s, t, Some(Piece::Knight));
    lemma_concat_sound(v, a, b);
    lemma_concat_sound(v, a + b, c);
    lemma_concat_sound(v, a + b + c, d);
    lemma_concat_sound(v, a + b + c + d, e);
}

proof fn lemma_from_sound(v: PositionView, s: int, m: nat)
    requires
        0 <= s < 64,
        m <= 64,
    ensures
        forall|i: int| 0 <= i < moves_from_upto(v, s, m).len() ==> is_listed_move(v, #[trigger] moves_from_upto(v, s, m)[i]),
    decreases m,
{
    if m > 0 {
        lemma_from_sound(v, s, (m - 1) as nat);
        lemma_between_sound(v, s, m - 1);
        lemma_concat_sound(v, moves_from_upto(v, s, (m - 1) as nat), moves_between(v, s, m - 1));
    }
}

proof fn lemma_upto_sound(v: PositionView, n: nat)
    requires
        n <= 64,
    ensures
        forall|i: int| 0 <= i < moves_upto(v, n).len() ==> is_listed_move(v, #[trigger] moves_upto(v, n)[i]),
    decreases n,
{
    if n > 0 {
        lemma_upto_sound(v, (n - 1) as nat);
        lemma_from_sound(v, n - 1, 64);
        lemma_concat_sound(v, moves_upto(v, (n - 1) as nat), moves_from_upto(v, n - 1, 64));
    }
}

/// Every listed move is legal: it starts and ends on the board, follows the rules of
/// how pieces move, and does not leave the mover's king attacked.
pub proof fn lemma_legal_moves_sound(v: PositionView)
    ensures
        forall|i: int| 0 <= i < legal_moves(v).len() ==> is_listed_move(v, #[trigger] legal_moves(v)[i]),
        forall|i: int| 0 <= i < legal_moves(v).len() ==> {
            let m = #[trigger] legal_moves(v)[i];
            !in_check(make_move_spec(v, m.source as int, m.destination as int, m.promotion_piece), v.color_to_move)
        },
{
    lemma_upto_sound(v, 64);
    assert forall|i: int| 0 <= i < legal_moves(v).len() implies {
        let m = #[trigger] legal_moves(v)[i];
        !in_check(make_move_spec(v, m.source as int, m.destination as int, m.promotion_piece), v.color_to_move)
    } by {
        assert(is_listed_move(v, legal_moves(v)[i]));
    }
}

proof fn lemma_between_complete(v: PositionView, s: int, t: int, p: Option<Piece>)
    requires
        legal(v, s, t, p),
        p is None || p == Some(Piece::Queen) || p == Some(Piece::Rook) || p == Some(Piece::Bishop)
            || p == Some(Piece::Knight),
    ensures
        moves_between(v, s, t).contains(ply_of(v, s, t, p)),
{
    let a = if_legal(v, s, t, None);
    let b = if_legal(v, s, t, Some(Piece::Queen));
    let c = if_legal(v, s, t, Some(Piece::Rook));
    let d = if_legal(v, s, t, Some(Piece::Bishop));
    let e = if_legal(v, s, t, Some(Piece::Knight));
    let all = a + b + c + d + e;
    let m = ply_of(v, s, t, p);
    if p is None {
        assert(all[0] == m);
    } else if p == Some(Piece::Queen) {
        assert(all[a.len() as int] == m);
    } else if p == Some(Piece::Rook) {
        assert(all[(a.len() + b.len()) as int] == m);
    } else if p == Some(Piece::Bishop) {
        assert(all[(a.len() + b.len() + c.len()) as int] == m);
    } else {
        assert(all[(a.len() + b.len() + c.len() + d.len()) as int] == m);
    }
}

proof fn lemma_from_complete(v: PositionView, s: int, t: int, p: Option<Piece>, m: nat)
    requires
        legal(v, s, t, p),
        0 <= t < m,
        p is None || p == Some(Piece::Queen) || p == Some(Piece::Rook) || p == Some(Piece::Bishop)
            || p == Some(Piece::Knight),
    ensures
        moves_from_upto(v, s, m).contains(ply_of(v, s, t, p)),
    decreases m,
{
    let a = moves_from_upto(v, s, (m - 1) as nat);
    let b = moves_between(v, s, m - 1);
    if t == m - 1 {
        lemma_between_complete(v, s, t, p);
        let k = choose|k: int| 0 <= k < b.len() && b[k] == ply_of(v, s, t, p);
        assert((a + b)[a.len() + k] == ply_of(v, s, t, p));
    } else {
        lemma_from_complete(v, s, t, p, (m - 1) as nat);
        let k = choose|k: int| 0 <= k < a.len() && a[k] == ply_of(v, s, t, p);
        assert((a + b)[k] == ply_of(v, s, t, p));
    }
}

proof fn lemma_upto_complete(v: PositionView, s: int, t: int, p: Option<Piece>, n: nat)
    requires
        legal(v, s, t, p),
        0 <= s < n,
        p is None || p == Some(Piece::Queen) || p == Some(Piece::Rook) || p == Some(Piece::Bishop)
            || p == Some(Piece::Knight),
    ensures
        moves_upto(v, n).contains(ply_of(v, s, t, p)),
    decreases n,
{
    let a = moves_upto(v, (n - 1) as nat);
    let b = moves_from_upto(v, n - 1, 64);
    if s == n - 1 {
        lemma_from_complete(v, s, t, p, 64);
        let k = choose|k: int| 0 <= k < b.len() && b[k] == ply_of(v, s, t, p);
        assert((a + b)[a.len() + k] == ply_of(v, s, t, p));
    } else {
        lemma_upto_complete(v, s, t, p, (n - 1) as nat);
        let k = choose|k: int| 0 <= k < a.len() && a[k] == ply_of(v, s, t, p);
        assert((a + b)[k] == ply_of(v, s, t, p));
    }
}

/// Every legal move is listed: when the side to move may play the piece on `s` to `t`
/// (with promotion `p`), `legal_moves` holds that ply.
pub proof fn lemma_legal_moves_complete(v: PositionView, s: int, t: int, p: Option<Piece>)
    requires
        legal(v, s, t, p),
    ensures
        legal_moves(v).contains(ply_of(v, s, t, p)),
{
    // a legal promotion names one of the four promotion pieces
    assert(p is None || p == Some(Piece::Queen) || p == Some(Piece::Rook) || p == Some(
        Piece::Bishop,
    ) || p == Some(Piece::Knight));
    lemma_upto_complete(v, s, t, p, 64);
}

/// After a legal move the other side is to move, the moved piece (or the piece it was
/// promoted to) stands on the destination in the mover's color, the source square is
/// empty, and the position is still well formed. The fullmove number rises exactly when
/// black moved (until it reaches the largest `u32`).
pub proof fn lemma_legal_move_effect(v: PositionView, s: int, t: int, p: Option<Piece>)
    requires
        v.wf(),
        legal(v, s, t, p),
    ensures
        ({
            let after = make_move_spec(v, s, t, p);
            let c = v.color_to_move;
            &&& after.wf()
            &&& after.color_to_move == c.opponent()
            &&& after.pieces[s] is None
            &&& after.pieces[t] == Some(
                (
                    c,
                    match p {
                        Some(q) => q,
                        None => ply_of(v, s, t, p).piece,
                    },
                ),
            )
            &&& (c == crate::board::color::Color::White ==> after.fullmove_number == v.fullmove_number)
            &&& (c == crate::board::color::Color::Black && v.fullmove_number < u32::MAX
                ==> after.fullmove_number == v.fullmove_number + 1)
        }),
{
}

/// A king standing on an attacked square never castles: every listed move of a king
/// whose square the other side attacks goes one step, never two files aside. In
/// particular a side in check (with its one king) may not castle.
pub proof fn lemma_no_castling_out_of_check(v: PositionView, i: int)
    requires
        0 <= i < legal_moves(v).len(),
        at(v, legal_moves(v)[i].source as int) == Some((v.color_to_move, Piece::King)),
        square_attacked(v, legal_moves(v)[i].source as int, v.color_to_move.opponent()),
    ensures
        king_step(legal_moves(v)[i].source as int, legal_moves(v)[i].destination as int),
        abs(file_of(legal_moves(v)[i].destination as int) - file_of(legal_moves(v)[i].source as int)) <= 1,
{
    lemma_legal_moves_sound(v);
    assert(is_listed_move(v, legal_moves(v)[i]));
}

/// After a pawn of either color moves two ranks, the en passant square is the square it
/// skipped: on its file, halfway between the two ranks.
pub proof fn lemma_double_step_sets_en_passant(v: PositionView, s: int, t: int, p: Option<Piece>)
    requires
        0 <= s < 64,
        0 <= t < 64,
        at(v, s) matches Some((_, pc)) && pc == Piece::Pawn,
        abs(rank_of(t) - rank_of(s)) == 2,
    ensures
        make_move_spec(v, s, t, p).en_passant == Some(square_at(file_of(s), (rank_of(s) + rank_of(t)) / 2)),
{
}

/// For a legal double step of the side to move, whichever side that is, the en passant
/// square is the square right in front of the pawn's start, which it passed over.
pub proof fn lemma_legal_double_step_marks_passed_square(v: PositionView, s: int, t: int, p: Option<Piece>)
    requires
        legal(v, s, t, p),
        at(v, s) matches Some((_, pc)) && pc == Piece::Pawn,
        abs(rank_of(t) - rank_of(s)) == 2,
    ensures
        make_move_spec(v, s, t, p).en_passant == Some(one_ahead(v.color_to_move, s)),
{
}

/// A ply read from move text is one of the position's listed legal moves, so the
/// mover's king is not attacked after it.
pub proof fn lemma_ply_from_text_is_legal(w: Seq<char>, v: PositionView)
    ensures
        ply_from_text(w, v) matches Some(m) ==> legal_moves(v).contains(m) && !in_check(
            make_move_spec(v, m.source as int, m.destination as int, m.promotion_piece),
            v.color_to_move,
        ),
{
    match parse_move_text(w) {
        Some((s, t, p)) => {
            if legal(v, s, t, p) {
                lemma_legal_moves_complete(v, s, t, p);
                assert(square_of_name(w, 0) is Some && square_of_name(w, 2) is Some);
                let m = ply_of(v, s, t, p);
                assert(m.source as int == s && m.destination as int == t);
            }
        },
        None => {},
    }
}

} // verus!

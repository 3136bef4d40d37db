use vstd::prelude::*;
use crate::board::color::Color;
use crate::board::piece::Piece;
use crate::board::position::{Occupant, PositionView};
use crate::board::square::{abs, file_of, forward, king_step, knight_step, pawn_capture_step, rank_of, square_at};
use crate::move_gen::ply::Ply;

verus! {

/// What stands on square `s`.
pub open spec fn at(v: PositionView, s: int) -> Occupant {
    v.pieces[s]
}

pub open spec fn is_vacant(v: PositionView, s: int) -> bool {
    at(v, s) is None
}

/// Square `s` holds a piece of color `c`.
pub open spec fn holds_color(v: PositionView, s: int, c: Color) -> bool {
    match at(v, s) {
        Some((x, _)) => x == c,
        None => false,
    }
}

/// `k` steps in the direction given by the sign of `d`.
pub open spec fn step(k: int, d: int) -> int {
    if d > 0 {
        k
    } else if d < 0 {
        -k
    } else {
        0
    }
}

/// The number of king steps between `s` and `t` along a line.
pub open spec fn distance(s: int, t: int) -> int {
    let df = abs(file_of(t) - file_of(s));
    let dr = abs(rank_of(t) - rank_of(s));
    if df > dr { df } else { dr }
}

/// The `k`-th square from `s` towards `t`.
pub open spec fn square_towards(s: int, t: int, k: int) -> int {
    square_at(
        file_of(s) + step(k, file_of(t) - file_of(s)),
        rank_of(s) + step(k, rank_of(t) - rank_of(s)),
    )
}

/// All squares strictly between `s` and `t` are empty.
pub open spec fn path_clear(v: PositionView, s: int, t: int) -> bool {
    forall|k: int| 1 <= k < distance(s, t) ==> is_vacant(v, #[trigger] square_towards(s, t, k))
}

/// `s` and `t` lie on a common diagonal.
pub open spec fn diagonal_line(s: int, t: int) -> bool {
    abs(file_of(t) - file_of(s)) == abs(rank_of(t) - rank_of(s)) && s != t
}

/// `s` and `t` lie on a common rank or file.
pub open spec fn straight_line(s: int, t: int) -> bool {
    (file_of(t) == file_of(s)) != (rank_of(t) == rank_of(s))
}

/// A piece `pc` of color `c` on `s` attacks `t`.
pub open spec fn attacks(v: PositionView, s: int, t: int, c: Color, pc: Piece) -> bool {
    match pc {
        Piece::Pawn => pawn_capture_step(c, s, t),
        Piece::Knight => knight_step(s, t),
        Piece::Bishop => diagonal_line(s, t) && path_clear(v, s, t),
        Piece::Rook => straight_line(s, t) && path_clear(v, s, t),
        Piece::Queen => (diagonal_line(s, t) || straight_line(s, t)) && path_clear(v, s, t),
        Piece::King => king_step(s, t),
    }
}

/// The piece on `a` is of color `by` and attacks `t`.
pub open spec fn attacker(v: PositionView, a: int, t: int, by: Color) -> bool {
    match at(v, a) {
        Some((c, pc)) => c == by && attacks(v, a, t, c, pc),
        None => false,
    }
}

/// Some piece of color `by` attacks square `t`.
pub open spec fn square_attacked(v: PositionView, t: int, by: Color) -> bool {
    exists|a: int| 0 <= a < 64 && #[trigger] attacker(v, a, t, by)
}

/// Square `k` holds the king of color `c`, and the other side attacks it.
pub open spec fn king_attacked_on(v: PositionView, k: int, c: Color) -> bool {
    at(v, k) == Some((c, Piece::King)) && square_attacked(v, k, c.opponent())
}

/// The king of color `c` is attacked.
pub open spec fn in_check(v: PositionView, c: Color) -> bool {
    exists|k: int| 0 <= k < 64 && #[trigger] king_attacked_on(v, k, c)
}

/// The rank on which pawns of color `c` promote.
pub open spec fn last_rank(c: Color) -> int {
    match c {
        Color::White => 7,
        Color::Black => 0,
    }
}

/// The rank from which pawns of color `c` may advance two squares.
pub open spec fn pawn_start_rank(c: Color) -> int {
    match c {
        Color::White => 1,
        Color::Black => 6,
    }
}

/// The square on which the king of color `c` starts.
pub open spec fn king_home(c: Color) -> int {
    match c {
        Color::White => 4,
        Color::Black => 60,
    }
}

/// A piece a pawn may promote to.
pub open spec fn is_promotion_piece(q: Piece) -> bool {
    q == Piece::Knight || q == Piece::Bishop || q == Piece::Rook || q == Piece::Queen
}

/// A move of piece `pc` of color `c` to `t` names a promotion piece exactly when it is
/// a pawn reaching the last rank.
pub open spec fn promotion_fits(pc: Piece, c: Color, t: int, promo: Option<Piece>) -> bool {
    if pc == Piece::Pawn && rank_of(t) == last_rank(c) {
        promo matches Some(q) && is_promotion_piece(q)
    } else {
        promo is None
    }
}

/// The square a pawn of color `c` on `s` passes over when it moves forward.
pub open spec fn one_ahead(c: Color, s: int) -> int {
    s + 8 * forward(c)
}

/// A pawn of color `c` may go from `s` to `t`: a step forward onto an empty square,
/// a double step from its start rank over two empty squares, or a diagonal step onto
/// an enemy piece or onto the en passant square.
pub open spec fn pawn_move_shape(v: PositionView, c: Color, s: int, t: int) -> bool {
    let df = file_of(t) - file_of(s);
    let dr = rank_of(t) - rank_of(s);
    ||| df == 0 && dr == forward(c) && is_vacant(v, t)
    ||| df == 0 && dr == 2 * forward(c) && rank_of(s) == pawn_start_rank(c) && is_vacant(v, t)
        && is_vacant(v, one_ahead(c, s))
    ||| pawn_capture_step(c, s, t) && (holds_color(v, t, c.opponent()) || v.en_passant == Some(t))
}

pub open spec fn kingside_right(v: PositionView, c: Color) -> bool {
    match c {
        Color::White => v.castling.white_kingside,
        Color::Black => v.castling.black_kingside,
    }
}

pub open spec fn queenside_right(v: PositionView, c: Color) -> bool {
    match c {
        Color::White => v.castling.white_queenside,
        Color::Black => v.castling.black_queenside,
    }
}

/// The king of color `c` on `s` may castle to `t`: it stands on its home square, the
/// right is kept, the rook stands in its corner, the squares between are empty, and
/// the king does not stand on, pass over or arrive on an attacked square.
pub open spec fn castle_shape(v: PositionView, c: Color, s: int, t: int) -> bool {
    let h = king_home(c);
    let o = c.opponent();
    s == h && ({
        ||| t == h + 2 && kingside_right(v, c) && at(v, h + 3) == Some((c, Piece::Rook))
            && is_vacant(v, h + 1) && is_vacant(v, h + 2) && !square_attacked(v, h, o)
            && !square_attacked(v, h + 1, o) && !square_attacked(v, h + 2, o)
        ||| t == h - 2 && queenside_right(v, c) && at(v, h - 4) == Some((c, Piece::Rook))
            && is_vacant(v, h - 1) && is_vacant(v, h - 2) && is_vacant(v, h - 3)
            && !square_attacked(v, h, o) && !square_attacked(v, h - 1, o) && !square_attacked(
            v,
            h - 2,
            o,
        )
    })
}

/// The side to move may move the piece on `s` to `t` (with promotion `promo`) by the
/// rules of how pieces move, ignoring whether its own king is left attacked.
pub open spec fn pseudo_legal(v: PositionView, s: int, t: int, promo: Option<Piece>) -> bool {
    let c = v.color_to_move;
    0 <= s < 64 && 0 <= t < 64 && match at(v, s) {
        Some((x, pc)) => x == c && !holds_color(v, t, c) && promotion_fits(pc, c, t, promo)
            && match pc {
            Piece::Pawn => pawn_move_shape(v, c, s, t),
            Piece::King => king_step(s, t) || castle_shape(v, c, s, t),
            _ => attacks(v, s, t, c, pc),
        },
        None => false,
    }
}

/// The piece on `s` is a pawn that moves diagonally onto an empty square.
pub open spec fn is_en_passant_capture(v: PositionView, s: int, t: int) -> bool {
    at(v, s) matches Some((_, pc)) && pc == Piece::Pawn && file_of(s) != file_of(t) && is_vacant(
        v,
        t,
    )
}

/// The square of the pawn taken en passant by a pawn going from `s` to `t`.
pub open spec fn en_passant_victim(s: int, t: int) -> int {
    square_at(file_of(t), rank_of(s))
}

/// The piece on `s` is a king on the e-file going two files towards the h-file.
pub open spec fn is_kingside_castle(v: PositionView, s: int, t: int) -> bool {
    at(v, s) matches Some((_, pc)) && pc == Piece::King && file_of(s) == 4 && t == s + 2
}

/// The piece on `s` is a king on the e-file going two files towards the a-file.
pub open spec fn is_queenside_castle(v: PositionView, s: int, t: int) -> bool {
    at(v, s) matches Some((_, pc)) && pc == Piece::King && file_of(s) == 4 && t + 2 == s
}

/// The piece that stands on `t` after the piece on `s` went there.
pub open spec fn arriving(v: PositionView, s: int, promo: Option<Piece>) -> Occupant {
    match at(v, s) {
        Some((c, pc)) => match promo {
            Some(q) => Some((c, q)),
            None => Some((c, pc)),
        },
        None => None,
    }
}

/// What stands on square `i` after the piece on `s` moved to `t`.
pub open spec fn occupant_after(v: PositionView, s: int, t: int, promo: Option<Piece>, i: int) -> Occupant {
    let c = v.color_to_move;
    if i == t {
        arriving(v, s, promo)
    } else if i == s {
        None
    } else if is_en_passant_capture(v, s, t) && i == en_passant_victim(s, t) {
        None
    } else if is_kingside_castle(v, s, t) && i == s + 3 {
        None
    } else if is_kingside_castle(v, s, t) && i == s + 1 {
        Some((c, Piece::Rook))
    } else if is_queenside_castle(v, s, t) && i == s - 4 {
        None
    } else if is_queenside_castle(v, s, t) && i == s - 1 {
        Some((c, Piece::Rook))
    } else {
        v.pieces[i]
    }
}

/// A move from `s` to `t` starts or ends on square `q`.
pub open spec fn touches(s: int, t: int, q: int) -> bool {
    s == q || t == q
}

/// The counter raised by one, held at the largest value a `u32` takes.
pub open spec fn count_up(n: int) -> int {
    if n < u32::MAX { n + 1 } else { u32::MAX as int }
}

/// The position after the piece on `s` moved to `t`, becoming `promo` if given.
///
/// A castling right is lost once a move starts or ends on the king's home square or
/// on the rook's corner. The en passant square is the one a pawn skipped with a
/// double step. The halfmove clock restarts on pawn moves and captures; the fullmove
/// number rises after black's move.
pub open spec fn make_move_spec(v: PositionView, s: int, t: int, promo: Option<Piece>) -> PositionView {
    let c = v.color_to_move;
    let r = v.castling;
    let pawn_move = at(v, s) matches Some((_, pc)) && pc == Piece::Pawn;
    PositionView {
        pieces: Seq::new(64, |i: int| occupant_after(v, s, t, promo, i)),
        color_to_move: c.opponent(),
        castling: crate::board::position::CastlingRights {
            white_kingside: r.white_kingside && !touches(s, t, 4) && !touches(s, t, 7),
            white_queenside: r.white_queenside && !touches(s, t, 4) && !touches(s, t, 0),
            black_kingside: r.black_kingside && !touches(s, t, 60) && !touches(s, t, 63),
            black_queenside: r.black_queenside && !touches(s, t, 60) && !touches(s, t, 56),
        },
        en_passant: if pawn_move && abs(rank_of(t) - rank_of(s)) == 2 {
            Some(square_at(file_of(s), (rank_of(s) + rank_of(t)) / 2))
        } else {
            None
        },
        halfmove_clock: if pawn_move || !is_vacant(v, t) {
            0
        } else {
            count_up(v.halfmove_clock)
        },
        fullmove_number: if c == Color::Black {
            count_up(v.fullmove_number)
        } else {
            v.fullmove_number
        },
    }
}

/// The side to move may play the piece on `s` to `t` (with promotion `promo`): the move
/// follows the rules of how pieces move and does not leave its own king attacked.
pub open spec fn legal(v: PositionView, s: int, t: int, promo: Option<Piece>) -> bool {
    pseudo_legal(v, s, t, promo) && !in_check(make_move_spec(v, s, t, promo), v.color_to_move)
}

/// The piece a move from `s` to `t` takes, if any.
pub open spec fn captured(v: PositionView, s: int, t: int) -> Option<Piece> {
    match at(v, t) {
        Some((_, q)) => Some(q),
        None => if is_en_passant_capture(v, s, t) {
            Some(Piece::Pawn)
        } else {
            None
        },
    }
}

/// The ply that moves the piece on `s` to `t`.
pub open spec fn ply_of(v: PositionView, s: int, t: int, promo: Option<Piece>) -> Ply {
    Ply {
        source: s as u8,
        destination: t as u8,
        piece: match at(v, s) {
            Some((_, pc)) => pc,
            None => Piece::Pawn,
        },
        captured_piece: captured(v, s, t),
        promotion_piece: promo,
    }
}

/// The ply for `(s, t, promo)` as a one-element sequence when it is legal, else empty.
pub open spec fn if_legal(v: PositionView, s: int, t: int, promo: Option<Piece>) -> Seq<Ply> {
    if legal(v, s, t, promo) {
        seq![ply_of(v, s, t, promo)]
    } else {
        Seq::empty()
    }
}

/// The legal moves from `s` to `t`: without promotion, then promoting to queen, rook,
/// bishop and knight.
pub open spec fn moves_between(v: PositionView, s: int, t: int) -> Seq<Ply> {
    if_legal(v, s, t, None) + if_legal(v, s, t, Some(Piece::Queen)) + if_legal(
        v,
        s,
        t,
        Some(Piece::Rook),
    ) + if_legal(v, s, t, Some(Piece::Bishop)) + if_legal(v, s, t, Some(Piece::Knight))
}

/// The legal moves from `s` to the squares below `m`, by destination.
pub open spec fn moves_from_upto(v: PositionView, s: int, m: nat) -> Seq<Ply>
    decreases m,
{
    if m == 0 {
        Seq::empty()
    } else {
        moves_from_upto(v, s, (m - 1) as nat) + moves_between(v, s, m - 1)
    }
}

/// The legal moves from the squares below `n`, by source square.
pub open spec fn moves_upto(v: PositionView, n: nat) -> Seq<Ply>
    decreases n,
{
    if n == 0 {
        Seq::empty()
    } else {
        moves_upto(v, (n - 1) as nat) + moves_from_upto(v, n - 1, 64)
    }
}

/// All legal moves of the side to move, ordered by source square, then destination
/// square, then promotion.
pub open spec fn legal_moves(v: PositionView) -> Seq<Ply> {
    moves_upto(v, 64)
}

} // verus!

use vstd::prelude::*;
use crate::board::color::Color;
use crate::board::piece::Piece;
use crate::board::position::{CastlingRights, Occupant, PositionView};
use crate::board::fen_spec::{
    all_digits, castling_text, castling_upto, decimal_text, decimal_value, empty_board,
    en_passant_text, fen_of, gap_text, occupant_of_letter, parse_castling, parse_counter,
    parse_en_passant, parse_fen, parse_placement, parse_side, piece_letter, placement_from,
    placement_text, placement_text_from, rank_text, rank_text_from, side_text,
};
use crate::move_gen::rules::{at, is_vacant};
use crate::text::{all_words, join_spaced, lemma_words_of_join, words};
use crate::board::square::{file_of, rank_of, square_at};
use crate::text::{digit_char, digit_value, is_digit, is_space};

verus! {

/// The decimal text of a number reads back as that number.
pub proof fn lemma_decimal_roundtrip(n: nat)
    ensures
        decimal_text(n).len() > 0,
        all_digits(decimal_text(n)),
        decimal_value(decimal_text(n)) == n,
        forall|i: int| 0 <= i < decimal_text(n).len() ==> !is_space(#[trigger] decimal_text(n)[i]),
    decreases n,
{
    if n < 10 {
        let t = decimal_text(n);
        assert(t.drop_last() =~= Seq::<char>::empty());
        assert(digit_value(digit_char(n as int)) == n);
        assert(decimal_value(t.drop_last()) == 0);
        assert(decimal_value(t) == n);
    } else {
        lemma_decimal_roundtrip(n / 10);
        let a = decimal_text(n / 10);
        let t = decimal_text(n);
        assert(t == a + seq![digit_char((n % 10) as int)]);
        assert(t.drop_last() =~= a);
        assert(digit_value(digit_char((n % 10) as int)) == n % 10);
        assert(decimal_value(t) == decimal_value(a) * 10 + digit_value(t.last()));
        assert(n == (n / 10) * 10 + n % 10);
        assert(decimal_value(t) == n);
        assert forall|i: int| 0 <= i < t.len() implies is_digit(#[trigger] t[i]) && !is_space(t[i]) by {
            if i < a.len() {
                assert(t[i] == a[i]);
            }
        }
    }
}

/// A counter written in decimal reads back as that counter.
pub proof fn lemma_counter_roundtrip(n: int)
    requires
        0 <= n <= u32::MAX,
    ensures
        parse_counter(decimal_text(n as nat)) == Some(n),
{
    lemma_decimal_roundtrip(n as nat);
}

/// The side-to-move field reads back as the side to move.
pub proof fn lemma_side_roundtrip(c: Color)
    ensures
        parse_side(side_text(c)) == Some(c),
{
    match c {
        Color::White => {
            assert(seq!['w'] != seq!['b']) by {
                assert(seq!['w'][0] != seq!['b'][0]);
            }
        },
        Color::Black => {
            assert(seq!['b'] != seq!['w']) by {
                assert(seq!['w'][0] != seq!['b'][0]);
            }
        },
    }
}

/// The castling field reads back as the castling rights.
pub proof fn lemma_castling_roundtrip(r: CastlingRights)
    ensures
        parse_castling(castling_text(r)) == Some(r),
        castling_text(r).len() > 0,
        forall|i: int| 0 <= i < castling_text(r).len() ==> !is_space(#[trigger] castling_text(r)[i]),
{
    let t = castling_text(r);
    if !r.white_kingside && !r.white_queenside && !r.black_kingside && !r.black_queenside {
    } else {
        assert(t.len() > 0);
        assert(t != seq!['-']) by {
            if t == seq!['-'] {
                assert(t[0] == '-');
            }
        }
        reveal_with_fuel(castling_upto, 5);
        assert(castling_upto(t, t.len()) == Some(r));
    }
}

/// The en passant field reads back as the en passant square.
pub proof fn lemma_en_passant_roundtrip(e: Option<int>)
    requires
        e matches Some(s) ==> 0 <= s < 64,
    ensures
        parse_en_passant(en_passant_text(e)) == Some(e),
        en_passant_text(e).len() > 0,
        forall|i: int| 0 <= i < en_passant_text(e).len() ==> !is_space(#[trigger] en_passant_text(e)[i]),
{
    match e {
        Some(s) => {
            let t = en_passant_text(e);
            assert(t.len() == 2);
            assert(t != seq!['-']);
            assert(square_at(file_of(s), rank_of(s)) == s);
        },
        None => {},
    }
}

/// A piece letter reads back as its piece, and is neither a digit, a `/` nor a space.
pub proof fn lemma_letter_roundtrip(c: Color, pc: Piece)
    ensures
        occupant_of_letter(piece_letter(c, pc)) == Some((c, pc)),
        piece_letter(c, pc) != '/',
        !('1' <= piece_letter(c, pc) && piece_letter(c, pc) <= '8'),
        !is_space(piece_letter(c, pc)),
{
}


/// The board with the pieces of `v` on the files from `f` on of rank `r` put in.
pub open spec fn rank_filled(board: Seq<Occupant>, v: PositionView, r: int, f: int) -> Seq<Occupant> {
    Seq::new(
        64,
        |s: int|
            if rank_of(s) == r && file_of(s) >= f && at(v, s) is Some {
                at(v, s)
            } else {
                board[s]
            },
    )
}

/// The board with the pieces of `v` on the ranks up to `r` put in.
pub open spec fn ranks_filled(board: Seq<Occupant>, v: PositionView, r: int) -> Seq<Occupant> {
    Seq::new(
        64,
        |s: int|
            if rank_of(s) <= r && at(v, s) is Some {
                at(v, s)
            } else {
                board[s]
            },
    )
}

proof fn lemma_gap_digit(e: int)
    requires
        1 <= e <= 8,
    ensures
        '1' <= digit_char(e) && digit_char(e) <= '8',
        digit_char(e) != '/',
        digit_value(digit_char(e)) == e,
        !is_space(digit_char(e)),
{
}

proof fn lemma_rank_text_chars(v: PositionView, r: int, f: int, e: int)
    requires
        0 <= e <= f <= 8,
    ensures
        forall|j: int|
            0 <= j < rank_text_from(v, r, f, e).len() ==> #[trigger] rank_text_from(v, r, f, e)[j]
                != '/' && !is_space(rank_text_from(v, r, f, e)[j]),
    decreases 8 - f,
{
    let t = rank_text_from(v, r, f, e);
    if f >= 8 {
        if e > 0 {
            lemma_gap_digit(e);
            assert(t == seq![digit_char(e)]);
            assert forall|j: int| 0 <= j < t.len() implies #[trigger] t[j] != '/' && !is_space(t[j]) by {
                assert(j == 0);
            }
        } else {
            assert(t.len() == 0);
        }
    } else {
        match at(v, square_at(f, r)) {
            None => {
                lemma_rank_text_chars(v, r, f + 1, e + 1);
                assert(t == rank_text_from(v, r, f + 1, e + 1));
            },
            Some((c, pc)) => {
                lemma_rank_text_chars(v, r, f + 1, 0);
                lemma_letter_roundtrip(c, pc);
                if e > 0 {
                    lemma_gap_digit(e);
                }
                let g = gap_text(e);
                let t2 = rank_text_from(v, r, f + 1, 0);
                assert(t == g + seq![piece_letter(c, pc)] + t2);
                assert forall|j: int| 0 <= j < t.len() implies #[trigger] t[j] != '/' && !is_space(t[j]) by {
                    if j < g.len() {
                        assert(t[j] == g[j]);
                    } else if j == g.len() {
                        assert(t[j] == piece_letter(c, pc));
                    } else {
                        assert(t[j] == t2[j - g.len() - 1]);
                    }
                }
            },
        }
    }
}

proof fn lemma_rank_parse(
    v: PositionView,
    r: int,
    f: int,
    e: int,
    p: Seq<char>,
    i: int,
    board: Seq<Occupant>,
)
    requires
        v.wf(),
        0 <= r < 8,
        0 <= e <= f <= 8,
        board.len() == 64,
        forall|k: int| f - e <= k < f ==> is_vacant(v, #[trigger] square_at(k, r)),
        0 <= i,
        i + rank_text_from(v, r, f, e).len() <= p.len(),
        p.subrange(i, i + rank_text_from(v, r, f, e).len()) == rank_text_from(v, r, f, e),
    ensures
        placement_from(p, i, f - e, r, board) == placement_from(
            p,
            i + rank_text_from(v, r, f, e).len(),
            8,
            r,
            rank_filled(board, v, r, f),
        ),
    decreases 8 - f,
{
    let t = rank_text_from(v, r, f, e);
    if f >= 8 {
        assert(rank_filled(board, v, r, f) =~= board);
        if e > 0 {
            lemma_gap_digit(e);
            assert(p[i] == t[0]);
        }
    } else {
        let sq = square_at(f, r);
        match at(v, sq) {
            None => {
                lemma_rank_parse(v, r, f + 1, e + 1, p, i, board);
                assert(rank_filled(board, v, r, f + 1) =~= rank_filled(board, v, r, f));
            },
            Some((c, pc)) => {
                let g = gap_text(e);
                let t2 = rank_text_from(v, r, f + 1, 0);
                assert(t == g + seq![piece_letter(c, pc)] + t2);
                let i1 = i + g.len();
                if e > 0 {
                    lemma_gap_digit(e);
                    assert(p[i] == t[0]);
                }
                assert(placement_from(p, i, f - e, r, board) == placement_from(p, i1, f, r, board));
                lemma_letter_roundtrip(c, pc);
                assert(p[i1] == t[g.len() as int]);
                let b1 = board.update(sq, Some((c, pc)));
                assert(placement_from(p, i1, f, r, board) == placement_from(p, i1 + 1, f + 1, r, b1));
                assert(p.subrange(i1 + 1, i1 + 1 + t2.len()) =~= t2) by {
                    assert forall|j: int| 0 <= j < t2.len() implies p.subrange(
                        i1 + 1,
                        i1 + 1 + t2.len(),
                    )[j] == t2[j] by {
                        assert(p[i1 + 1 + j] == p.subrange(i, i + t.len())[g.len() + 1 + j]);
                        assert(t[g.len() + 1 + j] == t2[j]);
                    }
                }
                lemma_rank_parse(v, r, f + 1, 0, p, i1 + 1, b1);
                assert(rank_filled(b1, v, r, f + 1) =~= rank_filled(board, v, r, f));
            },
        }
    }
}

proof fn lemma_ranks_parse(v: PositionView, r: int, p: Seq<char>, i: int, board: Seq<Occupant>)
    requires
        v.wf(),
        0 <= r < 8,
        board.len() == 64,
        0 <= i,
        i + placement_text_from(v, r).len() == p.len(),
        p.subrange(i, p.len() as int) == placement_text_from(v, r),
    ensures
        placement_from(p, i, 0, r, board) == Some(ranks_filled(board, v, r)),
    decreases r,
{
    let t = rank_text(v, r);
    if r <= 0 {
        lemma_rank_parse(v, r, 0, 0, p, i, board);
        assert(rank_filled(board, v, r, 0) =~= ranks_filled(board, v, r));
    } else {
        let rest = placement_text_from(v, r - 1);
        let all = placement_text_from(v, r);
        assert(all == t + seq!['/'] + rest);
        assert(p.subrange(i, i + t.len()) =~= t) by {
            assert forall|j: int| 0 <= j < t.len() implies p.subrange(i, i + t.len())[j] == t[j] by {
                assert(p[i + j] == p.subrange(i, p.len() as int)[j]);
                assert(all[j] == t[j]);
            }
        }
        lemma_rank_parse(v, r, 0, 0, p, i, board);
        let b1 = rank_filled(board, v, r, 0);
        let j = i + t.len();
        assert(p[j] == all[t.len() as int]);
        assert(placement_from(p, j, 8, r, b1) == placement_from(p, j + 1, 0, r - 1, b1));
        assert(p.subrange(j + 1, p.len() as int) =~= rest) by {
            assert forall|k: int| 0 <= k < rest.len() implies p.subrange(j + 1, p.len() as int)[k]
                == rest[k] by {
                assert(p[j + 1 + k] == p.subrange(i, p.len() as int)[t.len() + 1 + k]);
                assert(all[t.len() + 1 + k] == rest[k]);
            }
        }
        lemma_ranks_parse(v, r - 1, p, j + 1, b1);
        assert(ranks_filled(b1, v, r - 1) =~= ranks_filled(board, v, r));
    }
}

proof fn lemma_placement_text_chars(v: PositionView, r: int)
    requires
        0 <= r < 8,
    ensures
        placement_text_from(v, r).len() >= r,
        forall|j: int|
            0 <= j < placement_text_from(v, r).len() ==> !is_space(
                #[trigger] placement_text_from(v, r)[j],
            ),
    decreases r,
{
    lemma_rank_text_chars(v, r, 0, 0);
    let t = rank_text(v, r);
    if r > 0 {
        lemma_placement_text_chars(v, r - 1);
        let rest = placement_text_from(v, r - 1);
        let all = placement_text_from(v, r);
        assert(all == t + seq!['/'] + rest);
        assert forall|j: int| 0 <= j < all.len() implies !is_space(#[trigger] all[j]) by {
            if j < t.len() {
                assert(all[j] == t[j]);
            } else if j == t.len() {
            } else {
                assert(all[j] == rest[j - t.len() - 1]);
            }
        }
    }
}

/// The piece placement field reads back as the board.
pub proof fn lemma_placement_roundtrip(v: PositionView)
    requires
        v.wf(),
    ensures
        parse_placement(placement_text(v)) == Some(v.pieces),
        placement_text(v).len() > 0,
        forall|j: int| 0 <= j < placement_text(v).len() ==> !is_space(#[trigger] placement_text(v)[j]),
{
    let p = placement_text(v);
    assert(p.subrange(0, p.len() as int) =~= p);
    lemma_ranks_parse(v, 7, p, 0, empty_board());
    assert(ranks_filled(empty_board(), v, 7) =~= v.pieces);
    lemma_placement_text_chars(v, 7);
}

proof fn lemma_join_six(
    f0: Seq<char>,
    f1: Seq<char>,
    f2: Seq<char>,
    f3: Seq<char>,
    f4: Seq<char>,
    f5: Seq<char>,
)
    ensures
        join_spaced(seq![f0, f1, f2, f3, f4, f5]) == f0 + seq![' '] + f1 + seq![' '] + f2 + seq![
            ' ',
        ] + f3 + seq![' '] + f4 + seq![' '] + f5,
{
    let ws = seq![f0, f1, f2, f3, f4, f5];
    assert(ws.skip(5) =~= seq![f5]);
    assert(join_spaced(ws.skip(5)) =~= f5);
    assert(ws.skip(4).skip(1) =~= ws.skip(5));
    assert(join_spaced(ws.skip(4)) =~= f4 + seq![' '] + f5);
    assert(ws.skip(3).skip(1) =~= ws.skip(4));
    assert(join_spaced(ws.skip(3)) =~= f3 + seq![' '] + f4 + seq![' '] + f5);
    assert(ws.skip(2).skip(1) =~= ws.skip(3));
    assert(join_spaced(ws.skip(2)) =~= f2 + seq![' '] + f3 + seq![' '] + f4 + seq![' '] + f5);
    assert(ws.skip(1).skip(1) =~= ws.skip(2));
    assert(join_spaced(ws.skip(1)) =~= f1 + seq![' '] + f2 + seq![' '] + f3 + seq![' '] + f4
        + seq![' '] + f5);
    assert(join_spaced(ws) =~= f0 + seq![' '] + f1 + seq![' '] + f2 + seq![' '] + f3 + seq![' ']
        + f4 + seq![' '] + f5);
}

/// The six FEN fields of a well-formed position.
pub open spec fn fen_fields(v: PositionView) -> Seq<Seq<char>> {
    seq![
        placement_text(v),
        side_text(v.color_to_move),
        castling_text(v.castling),
        en_passant_text(v.en_passant),
        decimal_text(v.halfmove_clock as nat),
        decimal_text(v.fullmove_number as nat),
    ]
}

pub proof fn lemma_fen_fields_are_words(v: PositionView)
    requires
        v.wf(),
    ensures
        all_words(fen_fields(v)),
        join_spaced(fen_fields(v)) == fen_of(v),
{
    let ws = fen_fields(v);
    lemma_placement_roundtrip(v);
    lemma_castling_roundtrip(v.castling);
    lemma_en_passant_roundtrip(v.en_passant);
    lemma_decimal_roundtrip(v.halfmove_clock as nat);
    lemma_decimal_roundtrip(v.fullmove_number as nat);
    assert forall|k: int| 0 <= k < ws.len() implies (#[trigger] ws[k]).len() > 0 by {
        match v.color_to_move {
            Color::White => {},
            Color::Black => {},
        }
    }
    assert forall|k: int, j: int|
        0 <= k < ws.len() && 0 <= j < ws[k].len() implies !is_space(#[trigger] ws[k][j]) by {
        if k == 1 {
            match v.color_to_move {
                Color::White => {},
                Color::Black => {},
            }
        }
    }
    lemma_join_six(ws[0], ws[1], ws[2], ws[3], ws[4], ws[5]);
    assert(ws =~= seq![ws[0], ws[1], ws[2], ws[3], ws[4], ws[5]]);
}

/// Reading the FEN text of a well-formed position gives back that position: what
/// `Board::to_fen` writes, `Board::from_fen` reads back unchanged.
pub proof fn lemma_fen_roundtrip(v: PositionView)
    requires
        v.wf(),
    ensures
        parse_fen(fen_of(v)) == Some(v),
{
    let ws = fen_fields(v);
    lemma_fen_fields_are_words(v);
    lemma_words_of_join(ws);
    assert(words(fen_of(v)) == ws);
    lemma_placement_roundtrip(v);
    lemma_side_roundtrip(v.color_to_move);
    lemma_castling_roundtrip(v.castling);
    lemma_en_passant_roundtrip(v.en_passant);
    lemma_counter_roundtrip(v.halfmove_clock);
    lemma_counter_roundtrip(v.fullmove_number);
}

} // verus!

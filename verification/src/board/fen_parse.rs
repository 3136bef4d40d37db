use vstd::prelude::*;
use crate::board::color::Color;
use crate::board::position::{CastlingRights, Occupant, Position};
use crate::board::fen_spec::{
    all_digits, castling_upto, decimal_value, empty_board, no_rights, parse_castling,
    parse_counter, parse_en_passant, parse_fen, parse_placement, parse_side, placement_from,
};
use crate::board::fen::occupant_of;
use crate::text::{char_to_digit, split_words, views_of, words};

verus! {

/// Reads a piece placement field into the 64 squares.
pub fn read_placement(p: &Vec<char>) -> (board: Option<[Occupant; 64]>)
    ensures
        match board {
            Some(b) => parse_placement(p@) == Some(b@),
            None => parse_placement(p@) is None,
        },
{
    let mut b: [Occupant; 64] = [None;64];
    assert(b@ =~= empty_board());
    let mut file: u8 = 0;
    let mut rank: u8 = 7;
    let mut i: usize = 0;
    while i < p.len()
        invariant
            i <= p.len(),
            file <= 8,
            rank <= 7,
            parse_placement(p@) == placement_from(p@, i as int, file as int, rank as int, b@),
        decreases p.len() - i,
    {
        let c = p[i];
        if c == '/' {
            if file == 8 && rank > 0 {
                file = 0;
                rank = rank - 1;
            } else {
                return None;
            }
        } else if '1' <= c && c <= '8' {
            let n = char_to_digit(c);
            if file + n <= 8 {
                file = file + n;
            } else {
                return None;
            }
        } else {
            match occupant_of(c) {
                Some(o) => {
                    if file < 8 {
                        b[(8 * rank + file) as usize] = Some(o);
                        file = file + 1;
                    } else {
                        return None;
                    }
                },
                None => {
                    return None;
                },
            }
        }
        i = i + 1;
    }
    if rank == 0 && file == 8 {
        Some(b)
    } else {
        None
    }
}

/// Reads the side-to-move field.
pub fn read_side(w: &Vec<char>) -> (c: Option<Color>)
    ensures
        c == parse_side(w@),
{
    if w.len() == 1 && w[0] == 'w' {
        assert(w@ =~= seq!['w']);
        Some(Color::White)
    } else if w.len() == 1 && w[0] == 'b' {
        assert(w@ =~= seq!['b']);
        Some(Color::Black)
    } else {
        assert(w@ != seq!['w']) by {
            if w@ == seq!['w'] {
                assert(w@.len() == 1 && w@[0] == 'w');
            }
        }
        assert(w@ != seq!['b']) by {
            if w@ == seq!['b'] {
                assert(w@.len() == 1 && w@[0] == 'b');
            }
        }
        None
    }
}

fn no_castling() -> (r: CastlingRights)
    ensures
        r == no_rights(),
{
    CastlingRights {
        white_kingside: false,
        white_queenside: false,
        black_kingside: false,
        black_queenside: false,
    }
}

/// Reads the castling field.
pub fn read_castling(w: &Vec<char>) -> (r: Option<CastlingRights>)
    ensures
        r == parse_castling(w@),
{
    if w.len() == 1 && w[0] == '-' {
        assert(w@ =~= seq!['-']);
        return Some(no_castling());
    }
    assert(w@ != seq!['-']) by {
        if w@ == seq!['-'] {
            assert(w@.len() == 1 && w@[0] == '-');
        }
    }
    let mut r = no_castling();
    let mut i: usize = 0;
    while i < w.len()
        invariant
            i <= w.len(),
            castling_upto(w@, i as nat) == Some(r),
            w@ != seq!['-'],
        decreases w.len() - i,
    {
        let c = w[i];
        if c == 'K' {
            r.white_kingside = true;
        } else if c == 'Q' {
            r.white_queenside = true;
        } else if c == 'k' {
            r.black_kingside = true;
        } else if c == 'q' {
            r.black_queenside = true;
        } else {
            proof {
                assert(castling_upto(w@, (i + 1) as nat) is None);
                lemma_castling_stays_invalid(w@, (i + 1) as nat, w@.len());
            }
            return None;
        }
        i = i + 1;
    }
    Some(r)
}

proof fn lemma_castling_stays_invalid(w: Seq<char>, n: nat, m: nat)
    requires
        n <= m,
        castling_upto(w, n) is None,
    ensures
        castling_upto(w, m) is None,
    decreases m - n,
{
    if n < m {
        lemma_castling_stays_invalid(w, n + 1, m);
    }
}

/// Reads the en passant field.
pub fn read_en_passant(w: &Vec<char>) -> (e: Option<Option<u8>>)
    ensures
        match e {
            Some(Some(s)) => s < 64 && parse_en_passant(w@) == Some(Some(s as int)),
            Some(None) => parse_en_passant(w@) == Some(None::<int>),
            None => parse_en_passant(w@) is None,
        },
{
    if w.len() == 1 && w[0] == '-' {
        assert(w@ =~= seq!['-']);
        return Some(None);
    }
    assert(w@ != seq!['-']) by {
        if w@ == seq!['-'] {
            assert(w@.len() == 1 && w@[0] == '-');
        }
    }
    if w.len() == 2 && 'a' <= w[0] && w[0] <= 'h' && '1' <= w[1] && w[1] <= '8' {
        let f = (w[0] as u32 - 97) as u8;
        let r = (w[1] as u32 - 49) as u8;
        Some(Some(8 * r + f))
    } else {
        None
    }
}

/// Reads a counter field.
pub fn read_counter(w: &Vec<char>) -> (n: Option<u32>)
    ensures
        match n {
            Some(x) => parse_counter(w@) == Some(x as int),
            None => parse_counter(w@) is None,
        },
{
    if w.len() == 0 {
        return None;
    }
    let mut acc: u64 = 0;
    let mut i: usize = 0;
    while i < w.len()
        invariant
            i <= w.len(),
            all_digits(w@.subrange(0, i as int)),
            acc == if decimal_value(w@.subrange(0, i as int)) > u32::MAX {
                u32::MAX as int + 1
            } else {
                decimal_value(w@.subrange(0, i as int))
            },
        decreases w.len() - i,
    {
        let c = w[i];
        if !('0' <= c && c <= '9') {
            assert(!all_digits(w@)) by {
                assert(!crate::text::is_digit(w@[i as int]));
            }
            return None;
        }
        let d = char_to_digit(c);
        let ghost prefix = w@.subrange(0, i as int);
        assert(w@.subrange(0, i + 1).drop_last() =~= prefix);
        assert(decimal_value(w@.subrange(0, i + 1)) == decimal_value(prefix) * 10 + d);
        if acc <= u32::MAX as u64 {
            acc = acc * 10 + d as u64;
            if acc > u32::MAX as u64 {
                acc = u32::MAX as u64 + 1;
            }
        }
        assert(all_digits(w@.subrange(0, i + 1))) by {
            assert forall|j: int| 0 <= j < i + 1 implies crate::text::is_digit(
                #[trigger] w@.subrange(0, i + 1)[j],
            ) by {
                if j < i {
                    assert(w@.subrange(0, i + 1)[j] == prefix[j]);
                }
            }
        }
        i = i + 1;
    }
    assert(w@.subrange(0, w@.len() as int) =~= w@);
    if acc > u32::MAX as u64 {
        None
    } else {
        Some(acc as u32)
    }
}

impl Position {
    /// The position a FEN text describes, if it is well formed.
    pub fn from_fen_chars(s: &Vec<char>) -> (p: Option<Position>)
        ensures
            match p {
                Some(p) => p.wf() && parse_fen(s@) == Some(p@),
                None => parse_fen(s@) is None,
            },
    {
        let w = split_words(s);
        assert(views_of(w@) == words(s@));
        if w.len() != 6 {
            return None;
        }
        let ghost ws = words(s@);
        assert(w[0]@ == ws[0] && w[1]@ == ws[1] && w[2]@ == ws[2] && w[3]@ == ws[3] && w[4]@
            == ws[4] && w[5]@ == ws[5]);
        let pieces = read_placement(&w[0]);
        let side = read_side(&w[1]);
        let castling = read_castling(&w[2]);
        let ep = read_en_passant(&w[3]);
        let half = read_counter(&w[4]);
        let full = read_counter(&w[5]);
        match (pieces, side, castling, ep, half, full) {
            (Some(b), Some(c), Some(r), Some(e), Some(h), Some(f)) => {
                let p = Position {
                    pieces: b,
                    color_to_move: c,
                    castling: r,
                    en_passant: e,
                    halfmove_clock: h,
                    fullmove_number: f,
                };
                Some(p)
            },
            _ => None,
        }
    }
}

} // verus!

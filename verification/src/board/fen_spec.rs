use vstd::prelude::*;
use crate::board::color::Color;
use crate::board::piece::Piece;
use crate::board::position::{CastlingRights, Occupant, PositionView};
use crate::board::square::{file_of, rank_of, square_at};
use crate::move_gen::rules::at;
use crate::text::{digit_char, digit_value, is_digit, words};

verus! {

/// The FEN letter of a piece: uppercase for white, lowercase for black.
pub open spec fn piece_letter(c: Color, pc: Piece) -> char {
    match c {
        Color::White => match pc {
            Piece::Pawn => 'P',
            Piece::Knight => 'N',
            Piece::Bishop => 'B',
            Piece::Rook => 'R',
            Piece::Queen => 'Q',
            Piece::King => 'K',
        },
        Color::Black => match pc {
            Piece::Pawn => 'p',
            Piece::Knight => 'n',
            Piece::Bishop => 'b',
            Piece::Rook => 'r',
            Piece::Queen => 'q',
            Piece::King => 'k',
        },
    }
}

/// The piece a FEN letter names, if any.
pub open spec fn occupant_of_letter(ch: char) -> Occupant {
    if ch == 'P' {
        Some((Color::White, Piece::Pawn))
    } else if ch == 'N' {
        Some((Color::White, Piece::Knight))
    } else if ch == 'B' {
        Some((Color::White, Piece::Bishop))
    } else if ch == 'R' {
        Some((Color::White, Piece::Rook))
    } else if ch == 'Q' {
        Some((Color::White, Piece::Queen))
    } else if ch == 'K' {
        Some((Color::White, Piece::King))
    } else if ch == 'p' {
        Some((Color::Black, Piece::Pawn))
    } else if ch == 'n' {
        Some((Color::Black, Piece::Knight))
    } else if ch == 'b' {
        Some((Color::Black, Piece::Bishop))
    } else if ch == 'r' {
        Some((Color::Black, Piece::Rook))
    } else if ch == 'q' {
        Some((Color::Black, Piece::Queen))
    } else if ch == 'k' {
        Some((Color::Black, Piece::King))
    } else {
        None
    }
}

/// A board without pieces.
pub open spec fn empty_board() -> Seq<Occupant> {
    Seq::new(64, |i: int| None)
}

/// Reads the piece placement field from position `i` on, standing on `file` of `rank`
/// with the pieces read so far on `board`. Ranks run from the eighth down to the first,
/// separated by `/`; a digit from 1 to 8 skips that many empty squares; each rank covers
/// exactly eight files.
pub open spec fn placement_from(
    p: Seq<char>,
    i: int,
    file: int,
    rank: int,
    board: Seq<Occupant>,
) -> Option<Seq<Occupant>>
    decreases p.len() - i,
{
    if i >= p.len() {
        if rank == 0 && file == 8 {
            Some(board)
        } else {
            None
        }
    } else {
        let c = p[i];
        if c == '/' {
            if file == 8 && rank > 0 {
                placement_from(p, i + 1, 0, rank - 1, board)
            } else {
                None
            }
        } else if '1' <= c && c <= '8' {
            if file + digit_value(c) <= 8 {
                placement_from(p, i + 1, file + digit_value(c), rank, board)
            } else {
                None
            }
        } else {
            match occupant_of_letter(c) {
                Some(o) => if file < 8 {
                    placement_from(p, i + 1, file + 1, rank, board.update(square_at(file, rank), Some(o)))
                } else {
                    None
                },
                None => None,
            }
        }
    }
}

/// The board a piece placement field describes, if it is well formed.
pub open spec fn parse_placement(p: Seq<char>) -> Option<Seq<Occupant>> {
    placement_from(p, 0, 0, 7, empty_board())
}

/// The side to move a FEN field names: `w` or `b`.
pub open spec fn parse_side(w: Seq<char>) -> Option<Color> {
    if w == seq!['w'] {
        Some(Color::White)
    } else if w == seq!['b'] {
        Some(Color::Black)
    } else {
        None
    }
}

/// No castling right at all.
pub open spec fn no_rights() -> CastlingRights {
    CastlingRights {
        white_kingside: false,
        white_queenside: false,
        black_kingside: false,
        black_queenside: false,
    }
}

/// The castling rights given by the letters of `w` below `n`, each of `KQkq`
/// granting one right; another letter makes the field invalid.
pub open spec fn castling_upto(w: Seq<char>, n: nat) -> Option<CastlingRights>
    decreases n,
{
    if n == 0 {
        Some(no_rights())
    } else {
        match castling_upto(w, (n - 1) as nat) {
            Some(r) => {
                let c = w[n - 1];
                if c == 'K' {
                    Some(CastlingRights { white_kingside: true, ..r })
                } else if c == 'Q' {
                    Some(CastlingRights { white_queenside: true, ..r })
                } else if c == 'k' {
                    Some(CastlingRights { black_kingside: true, ..r })
                } else if c == 'q' {
                    Some(CastlingRights { black_queenside: true, ..r })
                } else {
                    None
                }
            },
            None => None,
        }
    }
}

/// The castling rights a FEN field names: `-` for none, else letters of `KQkq`.
pub open spec fn parse_castling(w: Seq<char>) -> Option<CastlingRights> {
    if w == seq!['-'] {
        Some(no_rights())
    } else {
        castling_upto(w, w.len())
    }
}

/// The en passant field: `-` for none, else a square name such as `e3`.
pub open spec fn parse_en_passant(w: Seq<char>) -> Option<Option<int>> {
    if w == seq!['-'] {
        Some(None)
    } else if w.len() == 2 && 'a' <= w[0] && w[0] <= 'h' && '1' <= w[1] && w[1] <= '8' {
        Some(Some(square_at(w[0] as int - 'a' as int, w[1] as int - '1' as int)))
    } else {
        None
    }
}

/// All characters of `w` are decimal digits.
pub open spec fn all_digits(w: Seq<char>) -> bool {
    forall|i: int| 0 <= i < w.len() ==> is_digit(#[trigger] w[i])
}

/// The number that the decimal digits of `w` spell.
pub open spec fn decimal_value(w: Seq<char>) -> int
    decreases w.len(),
{
    if w.len() == 0 {
        0
    } else {
        decimal_value(w.drop_last()) * 10 + digit_value(w.last())
    }
}

/// A counter field: decimal digits whose value fits a `u32`.
pub open spec fn parse_counter(w: Seq<char>) -> Option<int> {
    if w.len() > 0 && all_digits(w) && decimal_value(w) <= u32::MAX {
        Some(decimal_value(w))
    } else {
        None
    }
}

/// The position a FEN string describes, if it is well formed: exactly six words for
/// placement, side to move, castling rights, en passant square, halfmove clock and
/// fullmove number.
pub open spec fn parse_fen(s: Seq<char>) -> Option<PositionView> {
    let w = words(s);
    if w.len() != 6 {
        None
    } else {
        match (
            parse_placement(w[0]),
            parse_side(w[1]),
            parse_castling(w[2]),
            parse_en_passant(w[3]),
            parse_counter(w[4]),
            parse_counter(w[5]),
        ) {
            (Some(b), Some(c), Some(r), Some(e), Some(h), Some(f)) => Some(
                PositionView {
                    pieces: b,
                    color_to_move: c,
                    castling: r,
                    en_passant: e,
                    halfmove_clock: h,
                    fullmove_number: f,
                },
            ),
            _ => None,
        }
    }
}

// ---------------------------------------------------------------------------------------
// Writing FEN
// ---------------------------------------------------------------------------------------

/// A digit for a nonzero number of empty squares, else nothing.
pub open spec fn gap_text(empties: int) -> Seq<char> {
    if empties > 0 {
        seq![digit_char(empties)]
    } else {
        Seq::empty()
    }
}

/// The FEN text of `rank` from `file` on, after `empties` empty squares.
pub open spec fn rank_text_from(v: PositionView, rank: int, file: int, empties: int) -> Seq<char>
    decreases 8 - file,
{
    if file >= 8 {
        gap_text(empties)
    } else {
        match at(v, square_at(file, rank)) {
            None => rank_text_from(v, rank, file + 1, empties + 1),
            Some((c, pc)) => gap_text(empties) + seq![piece_letter(c, pc)] + rank_text_from(
                v,
                rank,
                file + 1,
                0,
            ),
        }
    }
}

/// The FEN text of one rank.
pub open spec fn rank_text(v: PositionView, rank: int) -> Seq<char> {
    rank_text_from(v, rank, 0, 0)
}

/// The FEN text of the ranks from `rank` down to the first, separated by `/`.
pub open spec fn placement_text_from(v: PositionView, rank: int) -> Seq<char>
    decreases rank,
{
    if rank <= 0 {
        rank_text(v, 0)
    } else {
        rank_text(v, rank) + seq!['/'] + placement_text_from(v, rank - 1)
    }
}

/// The FEN piece placement field.
pub open spec fn placement_text(v: PositionView) -> Seq<char> {
    placement_text_from(v, 7)
}

pub open spec fn side_text(c: Color) -> Seq<char> {
    match c {
        Color::White => seq!['w'],
        Color::Black => seq!['b'],
    }
}

/// `-` without castling rights, else the letters of the rights held, in the order `KQkq`.
pub open spec fn castling_text(r: CastlingRights) -> Seq<char> {
    if !r.white_kingside && !r.white_queenside && !r.black_kingside && !r.black_queenside {
        seq!['-']
    } else {
        (if r.white_kingside { seq!['K'] } else { Seq::empty() }) + (if r.white_queenside {
            seq!['Q']
        } else {
            Seq::empty()
        }) + (if r.black_kingside { seq!['k'] } else { Seq::empty() }) + (if r.black_queenside {
            seq!['q']
        } else {
            Seq::empty()
        })
    }
}

/// The name of a square, such as `e3`.
pub open spec fn square_name(s: int) -> Seq<char> {
    seq![('a' as int + file_of(s)) as char, ('1' as int + rank_of(s)) as char]
}

/// `-` without an en passant square, else its name.
pub open spec fn en_passant_text(e: Option<int>) -> Seq<char> {
    match e {
        Some(s) => square_name(s),
        None => seq!['-'],
    }
}

/// The decimal digits of a number.
pub open spec fn decimal_text(n: nat) -> Seq<char>
    decreases n,
{
    if n < 10 {
        seq![digit_char(n as int)]
    } else {
        decimal_text(n / 10) + seq![digit_char((n % 10) as int)]
    }
}

/// The FEN text of a position: its six fields separated by single spaces.
pub open spec fn fen_of(v: PositionView) -> Seq<char> {
    placement_text(v) + seq![' '] + side_text(v.color_to_move) + seq![' '] + castling_text(
        v.castling,
    ) + seq![' '] + en_passant_text(v.en_passant) + seq![' '] + decimal_text(
        v.halfmove_clock as nat,
    ) + seq![' '] + decimal_text(v.fullmove_number as nat)
}

} // verus!

use vstd::prelude::*;
use crate::board::color::Color;
use crate::board::piece::Piece;
use crate::board::position::{CastlingRights, Occupant, Position};
use crate::board::fen_spec::{
    castling_text, decimal_text, en_passant_text, fen_of, gap_text, occupant_of_letter,
    piece_letter, placement_text, placement_text_from, rank_text, rank_text_from, side_text,
    square_name,
};
use crate::board::square::{file, rank};
use crate::text::digit_to_char;

verus! {

/// The FEN letter of a piece.
pub fn letter_of_piece(c: Color, pc: Piece) -> (ch: char)
    ensures
        ch == piece_letter(c, pc),
{
    match c {
        Color::White => match pc {
            Piece::Pawn => 'P',
            Piece::Knight => 'N',
            Piece::Bishop => 'B',
            Piece::Rook => 'R',
            Piece::Queen => 'Q',
            Piece::King => 'K',
        },
        Color::Black => match pc {
            Piece::Pawn => 'p',
            Piece::Knight => 'n',
            Piece::Bishop => 'b',
            Piece::Rook => 'r',
            Piece::Queen => 'q',
            Piece::King => 'k',
        },
    }
}

/// The piece a FEN letter names, if any.
pub fn occupant_of(ch: char) -> (o: Occupant)
    ensures
        o == occupant_of_letter(ch),
{
    if ch == 'P' {
        Some((Color::White, Piece::Pawn))
    } else if ch == 'N' {
        Some((Color::White, Piece::Knight))
    } else if ch == 'B' {
        Some((Color::White, Piece::Bishop))
    } else if ch == 'R' {
        Some((Color::White, Piece::Rook))
    } else if ch == 'Q' {
        Some((Color::White, Piece::Queen))
    } else if ch == 'K' {
        Some((Color::White, Piece::King))
    } else if ch == 'p' {
        Some((Color::Black, Piece::Pawn))
    } else if ch == 'n' {
        Some((Color::Black, Piece::Knight))
    } else if ch == 'b' {
        Some((Color::Black, Piece::Bishop))
    } else if ch == 'r' {
        Some((Color::Black, Piece::Rook))
    } else if ch == 'q' {
        Some((Color::Black, Piece::Queen))
    } else if ch == 'k' {
        Some((Color::Black, Piece::King))
    } else {
        None
    }
}

fn push_gap(out: &mut Vec<char>, empties: u8)
    requires
        empties <= 8,
    ensures
        final(out)@ == old(out)@ + gap_text(empties as int),
{
    if empties > 0 {
        out.push(digit_to_char(empties));
    }
    assert(final(out)@ =~= old(out)@ + gap_text(empties as int));
}

fn push_rank(pos: &Position, r: u8, out: &mut Vec<char>)
    requires
        r < 8,
    ensures
        final(out)@ == old(out)@ + rank_text(pos@, r as int),
{
    let ghost start = out@;
    let mut f: u8 = 0;
    let mut empties: u8 = 0;
    while f < 8
        invariant
            r < 8,
            f <= 8,
            empties <= f,
            out@ + rank_text_from(pos@, r as int, f as int, empties as int) == start + rank_text(
                pos@,
                r as int,
            ),
        decreases 8 - f,
    {
        let ghost before = out@;
        match pos.pieces[(8 * r + f) as usize] {
            None => {
                empties = empties + 1;
            },
            Some((c, pc)) => {
                push_gap(out, empties);
                out.push(letter_of_piece(c, pc));
                assert(before + rank_text_from(pos@, r as int, f as int, empties as int) =~= out@
                    + rank_text_from(pos@, r as int, f + 1, 0));
                empties = 0;
            },
        }
        f = f + 1;
    }
    push_gap(out, empties);
    assert(out@ =~= start + rank_text(pos@, r as int));
}

fn push_placement(pos: &Position, out: &mut Vec<char>)
    ensures
        final(out)@ == old(out)@ + placement_text(pos@),
{
    let ghost start = out@;
    let mut r: u8 = 7;
    while r > 0
        invariant
            r <= 7,
            out@ + placement_text_from(pos@, r as int) == start + placement_text(pos@),
        decreases r,
    {
        let ghost before = out@;
        push_rank(pos, r, out);
        out.push('/');
        assert(before + placement_text_from(pos@, r as int) =~= out@ + placement_text_from(
            pos@,
            r - 1,
        ));
        r = r - 1;
    }
    push_rank(pos, 0, out);
    assert(out@ =~= start + placement_text(pos@));
}

fn push_castling(r: CastlingRights, out: &mut Vec<char>)
    ensures
        final(out)@ == old(out)@ + castling_text(r),
{
    if !r.white_kingside && !r.white_queenside && !r.black_kingside && !r.black_queenside {
        out.push('-');
    } else {
        if r.white_kingside {
            out.push('K');
        }
        if r.white_queenside {
            out.push('Q');
        }
        if r.black_kingside {
            out.push('k');
        }
        if r.black_queenside {
            out.push('q');
        }
    }
    assert(final(out)@ =~= old(out)@ + castling_text(r));
}

/// Appends the name of square `s`.
pub fn push_square_name(s: u8, out: &mut Vec<char>)
    requires
        s < 64,
    ensures
        final(out)@ == old(out)@ + square_name(s as int),
{
    out.push((97u8 + file(s)) as char);
    out.push((49u8 + rank(s)) as char);
    assert(final(out)@ =~= old(out)@ + square_name(s as int));
}

/// Appends the decimal digits of `n`.
pub fn push_decimal(n: u32, out: &mut Vec<char>)
    ensures
        final(out)@ == old(out)@ + decimal_text(n as nat),
    decreases n,
{
    if n < 10 {
        out.push(digit_to_char(n as u8));
    } else {
        push_decimal(n / 10, out);
        out.push(digit_to_char((n % 10) as u8));
    }
    assert(final(out)@ =~= old(out)@ + decimal_text(n as nat));
}

impl Position {
    /// The FEN text of the position, as characters.
    pub fn fen_chars(&self) -> (out: Vec<char>)
        requires
            self.wf(),
        ensures
            out@ == fen_of(self@),
    {
        let ghost v = self@;
        let mut out: Vec<char> = Vec::new();
        push_placement(self, &mut out);
        out.push(' ');
        let ghost a = out@;
        match self.color_to_move {
            Color::White => out.push('w'),
            Color::Black => out.push('b'),
        }
        assert(out@ =~= a + side_text(v.color_to_move));
        out.push(' ');
        push_castling(self.castling, &mut out);
        out.push(' ');
        let ghost b = out@;
        match self.en_passant {
            Some(e) => {
                push_square_name(e, &mut out);
            },
            None => out.push('-'),
        }
        assert(out@ =~= b + en_passant_text(v.en_passant));
        out.push(' ');
        push_decimal(self.halfmove_clock, &mut out);
        out.push(' ');
        push_decimal(self.fullmove_number, &mut out);
        assert(out@ =~= fen_of(v));
        out
    }
}

} // verus!

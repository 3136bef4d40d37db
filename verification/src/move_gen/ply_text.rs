use vstd::prelude::*;
use crate::board::fen::push_square_name;
use crate::board::fen_spec::square_name;
use crate::board::piece::Piece;
use crate::board::position::Position;
use crate::board::square::square_at;
use crate::move_gen::legality::{build_ply, is_legal};
use crate::move_gen::ply::Ply;
use crate::move_gen::rules::{legal, ply_of};
use crate::text::{chars_of, string_from_chars};

verus! {

/// The square named by the two characters of `w` at `i` and `i + 1`, such as `e2`.
pub open spec fn square_of_name(w: Seq<char>, i: int) -> Option<int> {
    if 'a' <= w[i] && w[i] <= 'h' && '1' <= w[i + 1] && w[i + 1] <= '8' {
        Some(square_at(w[i] as int - 'a' as int, w[i + 1] as int - '1' as int))
    } else {
        None
    }
}

/// The piece a promotion letter names: `q`, `r`, `b` or `n`.
pub open spec fn promotion_of_letter(c: char) -> Option<Piece> {
    if c == 'q' {
        Some(Piece::Queen)
    } else if c == 'r' {
        Some(Piece::Rook)
    } else if c == 'b' {
        Some(Piece::Bishop)
    } else if c == 'n' {
        Some(Piece::Knight)
    } else {
        None
    }
}

/// The letter of a promotion piece.
pub open spec fn promotion_letter(p: Piece) -> char {
    match p {
        Piece::Queen => 'q',
        Piece::Rook => 'r',
        Piece::Bishop => 'b',
        Piece::Knight => 'n',
        Piece::Pawn => 'p',
        Piece::King => 'k',
    }
}

/// Source, destination and promotion named by a move in coordinate notation, such as
/// `e2e4` or `b2c1q`.
pub open spec fn parse_move_text(w: Seq<char>) -> Option<(int, int, Option<Piece>)> {
    if (w.len() == 4 || w.len() == 5) && square_of_name(w, 0) is Some && square_of_name(w, 2) is Some {
        let s = square_of_name(w, 0)->0;
        let t = square_of_name(w, 2)->0;
        if w.len() == 4 {
            Some((s, t, None))
        } else {
            match promotion_of_letter(w[4]) {
                Some(q) => Some((s, t, Some(q))),
                None => None,
            }
        }
    } else {
        None
    }
}

/// The ply a move text names in position `v`, if the text is well formed and the move
/// is legal.
pub open spec fn ply_from_text(w: Seq<char>, v: crate::board::position::PositionView) -> Option<Ply> {
    match parse_move_text(w) {
        Some((s, t, p)) => if legal(v, s, t, p) {
            Some(ply_of(v, s, t, p))
        } else {
            None
        },
        None => None,
    }
}

/// The coordinate notation of a ply, such as `e2e4` or `b2c1q`.
pub open spec fn ply_text(m: Ply) -> Seq<char> {
    square_name(m.source as int) + square_name(m.destination as int) + match m.promotion_piece {
        Some(p) => seq![promotion_letter(p)],
        None => Seq::empty(),
    }
}

fn read_square(w: &Vec<char>, i: usize) -> (s: Option<u8>)
    requires
        i + 1 < w.len(),
    ensures
        match s {
            Some(x) => x < 64 && square_of_name(w@, i as int) == Some(x as int),
            None => square_of_name(w@, i as int) is None,
        },
{
    let f = w[i];
    let r = w[i + 1];
    if 'a' <= f && f <= 'h' && '1' <= r && r <= '8' {
        let fi = (f as u32 - 97) as u8;
        let ri = (r as u32 - 49) as u8;
        Some(8 * ri + fi)
    } else {
        None
    }
}

fn read_promotion(c: char) -> (p: Option<Piece>)
    ensures
        p == promotion_of_letter(c),
{
    if c == 'q' {
        Some(Piece::Queen)
    } else if c == 'r' {
        Some(Piece::Rook)
    } else if c == 'b' {
        Some(Piece::Bishop)
    } else if c == 'n' {
        Some(Piece::Knight)
    } else {
        None
    }
}

impl Ply {
    /// The ply a move text in coordinate notation names in `position`, if the text is
    /// well formed and the move is legal there.
    pub fn from_chars(move_text: &Vec<char>, position: Position) -> (ply: Option<Ply>)
        requires
            position.wf(),
        ensures
            ply == ply_from_text(move_text@, position@),
    {
        let n = move_text.len();
        if n != 4 && n != 5 {
            return None;
        }
        let s = match read_square(move_text, 0) {
            Some(s) => s,
            None => return None,
        };
        let t = match read_square(move_text, 2) {
            Some(t) => t,
            None => return None,
        };
        let promo = if n == 5 {
            match read_promotion(move_text[4]) {
                Some(q) => Some(q),
                None => return None,
            }
        } else {
            None
        };
        if is_legal(&position, s, t, promo) {
            Some(build_ply(&position, s, t, promo))
        } else {
            None
        }
    }

    /// The ply a move text in coordinate notation, such as `e2e4` or `e7e8q`, names in
    /// `position`, if the text is well formed and the move is legal there.
    pub fn from_string(move_string: &str, position: Position) -> (ply: Option<Ply>)
        requires
            position.wf(),
        ensures
            ply == ply_from_text(move_string@, position@),
    {
        let chars = chars_of(move_string);
        Ply::from_chars(&chars, position)
    }

    /// The coordinate notation of the ply, such as `e2e4` or `b2c1q`.
    pub fn to_uci_string(&self) -> (s: String)
        requires
            self.source < 64,
            self.destination < 64,
        ensures
            s@ == ply_text(*self),
    {
        let mut out: Vec<char> = Vec::new();
        push_square_name(self.source, &mut out);
        push_square_name(self.destination, &mut out);
        match self.promotion_piece {
            Some(p) => {
                let c = match p {
                    Piece::Queen => 'q',
                    Piece::Rook => 'r',
                    Piece::Bishop => 'b',
                    Piece::Knight => 'n',
                    Piece::Pawn => 'p',
                    Piece::King => 'k',
                };
                out.push(c);
            },
            None => {},
        }
        assert(out@ =~= ply_text(*self));
        string_from_chars(&out)
    }
}

} // verus!

verus! {

/// A ply read from text starts and ends on the board.
pub proof fn lemma_ply_from_text_on_board(w: Seq<char>, v: crate::board::position::PositionView)
    ensures
        ply_from_text(w, v) matches Some(m) ==> m.source < 64 && m.destination < 64,
{
}

} // verus!

verus! {

/// The coordinate notation of a ply reads back as its squares and promotion.
pub proof fn lemma_move_text_roundtrip(m: Ply)
    requires
        m.source < 64,
        m.destination < 64,
        m.promotion_piece matches Some(q) ==> crate::move_gen::rules::is_promotion_piece(q),
    ensures
        parse_move_text(ply_text(m)) == Some(
            (m.source as int, m.destination as int, m.promotion_piece),
        ),
{
    let w = ply_text(m);
    let s = m.source as int;
    let t = m.destination as int;
    assert(square_at(crate::board::square::file_of(s), crate::board::square::rank_of(s)) == s);
    assert(square_at(crate::board::square::file_of(t), crate::board::square::rank_of(t)) == t);
    assert(w[0] == square_name(s)[0] && w[1] == square_name(s)[1]);
    assert(w[2] == square_name(t)[0] && w[3] == square_name(t)[1]);
}

/// Every listed legal move of a position, written in coordinate notation, reads back as
/// the same ply in that position: `Ply::from_string` undoes `Ply::to_uci_string`.
pub proof fn lemma_listed_move_text_roundtrip(v: crate::board::position::PositionView, m: Ply)
    requires
        crate::move_gen::laws::is_listed_move(v, m),
    ensures
        ply_from_text(ply_text(m), v) == Some(m),
{
    lemma_move_text_roundtrip(m);
}

} // verus!

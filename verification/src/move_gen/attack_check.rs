use vstd::prelude::*;
use crate::board::color::Color;
use crate::board::piece::Piece;
use crate::board::position::{Occupant, Position};
use crate::board::square::{file, is_king_step, is_knight_step, is_pawn_capture_step, rank};
use crate::move_gen::rules::{
    attacker, attacks, diagonal_line, distance, in_check, is_vacant, king_attacked_on, path_clear,
    square_attacked, square_towards, straight_line,
};

verus! {

/// Tells whether `s` and `t` lie on a common diagonal.
pub fn on_diagonal(s: u8, t: u8) -> (b: bool)
    requires
        s < 64,
        t < 64,
    ensures
        b == diagonal_line(s as int, t as int),
{
    let df: i16 = file(t) as i16 - file(s) as i16;
    let dr: i16 = rank(t) as i16 - rank(s) as i16;
    let adf: i16 = if df < 0 { -df } else { df };
    let adr: i16 = if dr < 0 { -dr } else { dr };
    adf == adr && s != t
}

/// Tells whether `s` and `t` lie on a common rank or file.
pub fn on_straight_line(s: u8, t: u8) -> (b: bool)
    requires
        s < 64,
        t < 64,
    ensures
        b == straight_line(s as int, t as int),
{
    (file(t) == file(s)) != (rank(t) == rank(s))
}

fn step_exec(k: i16, d: i16) -> (r: i16)
    requires
        0 <= k <= 8,
    ensures
        r == crate::move_gen::rules::step(k as int, d as int),
{
    if d > 0 {
        k
    } else if d < 0 {
        -k
    } else {
        0
    }
}

/// Tells whether all squares strictly between `s` and `t` are empty; `s` and `t` lie
/// on a common line.
pub fn path_is_clear(pos: &Position, s: u8, t: u8) -> (b: bool)
    requires
        s < 64,
        t < 64,
        diagonal_line(s as int, t as int) || straight_line(s as int, t as int),
    ensures
        b == path_clear(pos@, s as int, t as int),
{
    let fs: i16 = file(s) as i16;
    let rs: i16 = rank(s) as i16;
    let df: i16 = file(t) as i16 - fs;
    let dr: i16 = rank(t) as i16 - rs;
    let adf: i16 = if df < 0 { -df } else { df };
    let adr: i16 = if dr < 0 { -dr } else { dr };
    let n: i16 = if adf > adr { adf } else { adr };
    assert(n == distance(s as int, t as int));
    let mut k: i16 = 1;
    while k < n
        invariant
            1 <= k,
            k <= n || n == 0,
            n <= 7,
            s < 64,
            t < 64,
            fs == crate::board::square::file_of(s as int),
            rs == crate::board::square::rank_of(s as int),
            df == crate::board::square::file_of(t as int) - fs,
            dr == crate::board::square::rank_of(t as int) - rs,
            n == distance(s as int, t as int),
            diagonal_line(s as int, t as int) || straight_line(s as int, t as int),
            forall|j: int| 1 <= j < k ==> is_vacant(pos@, #[trigger] square_towards(s as int, t as int, j)),
        decreases n - k,
    {
        let f: i16 = fs + step_exec(k, df);
        let r: i16 = rs + step_exec(k, dr);
        assert(0 <= f < 8 && 0 <= r < 8);
        let sq: u8 = (8 * r + f) as u8;
        assert(sq as int == square_towards(s as int, t as int, k as int));
        if pos.pieces[sq as usize].is_some() {
            return false;
        }
        k = k + 1;
    }
    true
}

/// Tells whether a piece `pc` of color `c` on `s` attacks `t`.
pub fn piece_attacks(pos: &Position, s: u8, t: u8, c: Color, pc: Piece) -> (b: bool)
    requires
        s < 64,
        t < 64,
    ensures
        b == attacks(pos@, s as int, t as int, c, pc),
{
    match pc {
        Piece::Pawn => is_pawn_capture_step(c, s, t),
        Piece::Knight => is_knight_step(s, t),
        Piece::Bishop => on_diagonal(s, t) && path_is_clear(pos, s, t),
        Piece::Rook => on_straight_line(s, t) && path_is_clear(pos, s, t),
        Piece::Queen => (on_diagonal(s, t) || on_straight_line(s, t)) && path_is_clear(pos, s, t),
        Piece::King => is_king_step(s, t),
    }
}

/// Tells whether the piece on `a` is of color `by` and attacks `t`.
pub fn is_attacker(pos: &Position, a: u8, t: u8, by: Color) -> (b: bool)
    requires
        a < 64,
        t < 64,
    ensures
        b == attacker(pos@, a as int, t as int, by),
{
    match pos.pieces[a as usize] {
        Some((c, pc)) => c == by && piece_attacks(pos, a, t, c, pc),
        None => false,
    }
}

/// Tells whether some piece of color `by` attacks square `t`.
pub fn is_square_attacked(pos: &Position, t: u8, by: Color) -> (b: bool)
    requires
        t < 64,
    ensures
        b == square_attacked(pos@, t as int, by),
{
    let mut a: u8 = 0;
    while a < 64
        invariant
            a <= 64,
            t < 64,
            forall|x: int| 0 <= x < a ==> !#[trigger] attacker(pos@, x, t as int, by),
        decreases 64 - a,
    {
        if is_attacker(pos, a, t, by) {
            return true;
        }
        a = a + 1;
    }
    false
}

/// Tells whether the occupant is the king of color `c`.
pub fn is_king_of(o: Occupant, c: Color) -> (b: bool)
    ensures
        b == (o == Some((c, Piece::King))),
{
    match o {
        Some((x, Piece::King)) => x == c,
        _ => false,
    }
}

impl Position {
    /// Tells whether the king of color `c` is attacked.
    pub fn is_in_check(&self, c: Color) -> (b: bool)
        ensures
            b == in_check(self@, c),
    {
        let mut k: u8 = 0;
        while k < 64
            invariant
                k <= 64,
                forall|x: int| 0 <= x < k ==> !#[trigger] king_attacked_on(self@, x, c),
            decreases 64 - k,
        {
            if is_king_of(self.pieces[k as usize], c) && is_square_attacked(self, k, c.other()) {
                assert(king_attacked_on(self@, k as int, c));
                return true;
            }
            k = k + 1;
        }
        false
    }
}

} // verus!

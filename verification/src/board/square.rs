use vstd::prelude::*;
use crate::board::color::Color;

verus! {

/// A square of the board is a number below 64: `8 * rank + file`, so a1 is 0,
/// h1 is 7, a8 is 56 and h8 is 63.
pub open spec fn is_square(s: int) -> bool {
    0 <= s < 64
}

/// The file (column) of a square, 0 for the a-file up to 7 for the h-file.
pub open spec fn file_of(s: int) -> int {
    s % 8
}

/// The rank (row) of a square, 0 for the first rank up to 7 for the eighth.
pub open spec fn rank_of(s: int) -> int {
    s / 8
}

/// The square on the given file and rank.
pub open spec fn square_at(file: int, rank: int) -> int {
    8 * rank + file
}

pub open spec fn abs(x: int) -> int {
    if x < 0 { -x } else { x }
}

/// The direction in which pawns of a color advance: up the board for white,
/// down for black.
pub open spec fn forward(c: Color) -> int {
    match c {
        Color::White => 1,
        Color::Black => -1,
    }
}

/// A knight on `s` attacks `t`.
pub open spec fn knight_step(s: int, t: int) -> bool {
    let df = abs(file_of(t) - file_of(s));
    let dr = abs(rank_of(t) - rank_of(s));
    (df == 1 && dr == 2) || (df == 2 && dr == 1)
}

/// A king on `s` attacks `t`.
pub open spec fn king_step(s: int, t: int) -> bool {
    let df = abs(file_of(t) - file_of(s));
    let dr = abs(rank_of(t) - rank_of(s));
    df <= 1 && dr <= 1 && !(df == 0 && dr == 0)
}

/// A pawn of color `c` on `s` attacks `t`: one file aside, one rank forward.
pub open spec fn pawn_capture_step(c: Color, s: int, t: int) -> bool {
    abs(file_of(t) - file_of(s)) == 1 && rank_of(t) - rank_of(s) == forward(c)
}

/// The file of a square.
pub fn file(s: u8) -> (f: u8)
    requires
        s < 64,
    ensures
        f == file_of(s as int),
        f < 8,
{
    s % 8
}

/// The rank of a square.
pub fn rank(s: u8) -> (r: u8)
    requires
        s < 64,
    ensures
        r == rank_of(s as int),
        r < 8,
{
    s / 8
}

/// Tells whether a knight on `s` attacks `t`.
pub fn is_knight_step(s: u8, t: u8) -> (b: bool)
    requires
        s < 64,
        t < 64,
    ensures
        b == knight_step(s as int, t as int),
{
    let df: i16 = file(t) as i16 - file(s) as i16;
    let dr: i16 = rank(t) as i16 - rank(s) as i16;
    let adf: i16 = if df < 0 { -df } else { df };
    let adr: i16 = if dr < 0 { -dr } else { dr };
    (adf == 1 && adr == 2) || (adf == 2 && adr == 1)
}

/// Tells whether a king on `s` attacks `t`.
pub fn is_king_step(s: u8, t: u8) -> (b: bool)
    requires
        s < 64,
        t < 64,
    ensures
        b == king_step(s as int, t as int),
{
    let df: i16 = file(t) as i16 - file(s) as i16;
    let dr: i16 = rank(t) as i16 - rank(s) as i16;
    let adf: i16 = if df < 0 { -df } else { df };
    let adr: i16 = if dr < 0 { -dr } else { dr };
    adf <= 1 && adr <= 1 && !(adf == 0 && adr == 0)
}

/// Tells whether a pawn of color `c` on `s` attacks `t`.
pub fn is_pawn_capture_step(c: Color, s: u8, t: u8) -> (b: bool)
    requires
        s < 64,
        t < 64,
    ensures
        b == pawn_capture_step(c, s as int, t as int),
{
    let df: i16 = file(t) as i16 - file(s) as i16;
    let dr: i16 = rank(t) as i16 - rank(s) as i16;
    let fwd: i16 = match c {
        Color::White => 1,
        Color::Black => -1,
    };
    (df == 1 || df == -1) && dr == fwd
}

/// Knight moves go both ways: a knight on `s` attacks `t` exactly when a knight
/// on `t` attacks `s`.
pub proof fn lemma_knight_step_symmetric(s: int, t: int)
    ensures
        knight_step(s, t) == knight_step(t, s),
{
}

/// King moves go both ways.
pub proof fn lemma_king_step_symmetric(s: int, t: int)
    ensures
        king_step(s, t) == king_step(t, s),
{
}

/// A white pawn on `s` attacks `t` exactly when a black pawn on `t` attacks `s`.
pub proof fn lemma_pawn_capture_mirror(s: int, t: int)
    ensures
        pawn_capture_step(Color::White, s, t) == pawn_capture_step(Color::Black, t, s),
{
}

} // verus!

use vstd::prelude::*;
use crate::board::bitboard::Bitboard;
use crate::board::color::Color;
use crate::board::square::{is_king_step, is_knight_step, is_pawn_capture_step, king_step, knight_step, pawn_capture_step};

verus! {

/// The set of squares a knight on `s` attacks.
pub fn knight_attacks_from(s: u8) -> (bb: Bitboard)
    requires
        s < 64,
    ensures
        forall|t: int| 0 <= t < 64 ==> (#[trigger] bb.has(t) == knight_step(s as int, t)),
        forall|t: int| #[trigger] bb.has(t) ==> 0 <= t < 64,
{
    let mut bb = Bitboard::empty();
    let mut t: u8 = 0;
    while t < 64
        invariant
            s < 64,
            t <= 64,
            forall|u: int| #[trigger] bb.has(u) == (0 <= u < t && knight_step(s as int, u)),
        decreases 64 - t,
    {
        if is_knight_step(s, t) {
            bb.insert(t);
        }
        t = t + 1;
    }
    bb
}

/// The set of squares a king on `s` attacks.
pub fn king_attacks_from(s: u8) -> (bb: Bitboard)
    requires
        s < 64,
    ensures
        forall|t: int| 0 <= t < 64 ==> (#[trigger] bb.has(t) == king_step(s as int, t)),
        forall|t: int| #[trigger] bb.has(t) ==> 0 <= t < 64,
{
    let mut bb = Bitboard::empty();
    let mut t: u8 = 0;
    while t < 64
        invariant
            s < 64,
            t <= 64,
            forall|u: int| #[trigger] bb.has(u) == (0 <= u < t && king_step(s as int, u)),
        decreases 64 - t,
    {
        if is_king_step(s, t) {
            bb.insert(t);
        }
        t = t + 1;
    }
    bb
}

/// The set of squares a pawn of color `c` on `s` attacks.
pub fn pawn_attacks_from(c: Color, s: u8) -> (bb: Bitboard)
    requires
        s < 64,
    ensures
        forall|t: int| 0 <= t < 64 ==> (#[trigger] bb.has(t) == pawn_capture_step(c, s as int, t)),
        forall|t: int| #[trigger] bb.has(t) ==> 0 <= t < 64,
{
    let mut bb = Bitboard::empty();
    let mut t: u8 = 0;
    while t < 64
        invariant
            s < 64,
            t <= 64,
            forall|u: int| #[trigger] bb.has(u) == (0 <= u < t && pawn_capture_step(c, s as int, u)),
        decreases 64 - t,
    {
        if is_pawn_capture_step(c, s, t) {
            bb.insert(t);
        }
        t = t + 1;
    }
    bb
}

/// The knight attack table: entry `s` holds the squares a knight on `s` attacks.
pub fn generate_knight_attacks() -> (table: [Bitboard; 64])
    ensures
        forall|s: int, t: int|
            0 <= s < 64 && 0 <= t < 64 ==> (#[trigger] table[s].has(t) == knight_step(s, t)),
{
    let mut table = [Bitboard::empty();64];
    let mut s: u8 = 0;
    while s < 64
        invariant
            s <= 64,
            forall|u: int, t: int|
                0 <= u < s && 0 <= t < 64 ==> (#[trigger] table[u].has(t) == knight_step(u, t)),
        decreases 64 - s,
    {
        table[s as usize] = knight_attacks_from(s);
        s = s + 1;
    }
    table
}

/// The king attack table: entry `s` holds the squares a king on `s` attacks.
pub fn generate_king_attacks() -> (table: [Bitboard; 64])
    ensures
        forall|s: int, t: int|
            0 <= s < 64 && 0 <= t < 64 ==> (#[trigger] table[s].has(t) == king_step(s, t)),
{
    let mut table = [Bitboard::empty();64];
    let mut s: u8 = 0;
    while s < 64
        invariant
            s <= 64,
            forall|u: int, t: int|
                0 <= u < s && 0 <= t < 64 ==> (#[trigger] table[u].has(t) == king_step(u, t)),
        decreases 64 - s,
    {
        table[s as usize] = king_attacks_from(s);
        s = s + 1;
    }
    table
}

/// The pawn attack tables, white first: entry `[c][s]` holds the squares a pawn
/// of color index `c` on `s` attacks.
pub fn generate_pawn_attacks() -> (table: [[Bitboard; 64]; 2])
    ensures
        forall|s: int, t: int|
            0 <= s < 64 && 0 <= t < 64 ==> (#[trigger] table[0][s].has(t) == pawn_capture_step(
                Color::White,
                s,
                t,
            )),
        forall|s: int, t: int|
            0 <= s < 64 && 0 <= t < 64 ==> (#[trigger] table[1][s].has(t) == pawn_capture_step(
                Color::Black,
                s,
                t,
            )),
{
    let mut white = [Bitboard::empty();64];
    let mut black = [Bitboard::empty();64];
    let mut s: u8 = 0;
    while s < 64
        invariant
            s <= 64,
            forall|u: int, t: int|
                0 <= u < s && 0 <= t < 64 ==> (#[trigger] white[u].has(t) == pawn_capture_step(
                    Color::White,
                    u,
                    t,
                )),
            forall|u: int, t: int|
                0 <= u < s && 0 <= t < 64 ==> (#[trigger] black[u].has(t) == pawn_capture_step(
                    Color::Black,
                    u,
                    t,
                )),
        decreases 64 - s,
    {
        white[s as usize] = pawn_attacks_from(Color::White, s);
        black[s as usize] = pawn_attacks_from(Color::Black, s);
        s = s + 1;
    }
    [white, black]
}

} // verus!

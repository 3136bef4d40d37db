use vstd::prelude::*;
use crate::board::bitboard::Bitboard;
use crate::board::color::Color;
use crate::board::square::{king_step, knight_step, pawn_capture_step};
use crate::lookup::attacks::{generate_king_attacks, generate_knight_attacks, generate_pawn_attacks};

verus! {

/// This is the lookup table for the move generator.
pub struct LookupTable {
    pawn_attacks: [[Bitboard; 64]; 2],
    knight_attacks: [Bitboard; 64],
    king_attacks: [Bitboard; 64],
}

impl LookupTable {
    /// Every entry of every table holds exactly the squares that the piece on the
    /// entry's square attacks.
    pub open spec fn is_initialized(&self) -> bool {
        &&& forall|s: int, t: int|
            0 <= s < 64 && 0 <= t < 64 ==> (#[trigger] self.knight_at(s).has(t) == knight_step(s, t))
        &&& forall|s: int, t: int|
            0 <= s < 64 && 0 <= t < 64 ==> (#[trigger] self.king_at(s).has(t) == king_step(s, t))
        &&& forall|c: Color, s: int, t: int|
            0 <= s < 64 && 0 <= t < 64 ==> (#[trigger] self.pawn_at(c, s).has(t)
                == pawn_capture_step(c, s, t))
    }

    /// The knight entry for square `s`.
    pub closed spec fn knight_at(&self, s: int) -> Bitboard {
        self.knight_attacks[s]
    }

    /// The king entry for square `s`.
    pub closed spec fn king_at(&self, s: int) -> Bitboard {
        self.king_attacks[s]
    }

    /// The pawn entry for color `c` and square `s`.
    pub closed spec fn pawn_at(&self, c: Color, s: int) -> Bitboard {
        self.pawn_attacks[c.index_of() as int][s]
    }

    /// A table whose entries are all empty.
    pub fn default() -> (table: LookupTable)
        ensures
            forall|s: int, t: int| 0 <= s < 64 ==> !(#[trigger] table.knight_at(s).has(t)),
            forall|s: int, t: int| 0 <= s < 64 ==> !(#[trigger] table.king_at(s).has(t)),
            forall|c: Color, s: int, t: int| 0 <= s < 64 ==> !(#[trigger] table.pawn_at(c, s).has(t)),
    {
        let e = Bitboard::empty();
        let t = LookupTable {
            pawn_attacks: [[e;64];2],
            knight_attacks: [e;64],
            king_attacks: [e;64],
        };
        t
    }

    /// Initializes the lookup tables for all pieces.
    pub fn initialize_tables(&mut self)
        ensures
            final(self).is_initialized(),
    {
        self.pawn_attacks = generate_pawn_attacks();
        self.knight_attacks = generate_knight_attacks();
        self.king_attacks = generate_king_attacks();
        proof {
            assert forall|c: Color, s: int, t: int|
                0 <= s < 64 && 0 <= t < 64 implies #[trigger] self.pawn_at(c, s).has(t)
                == pawn_capture_step(c, s, t) by {
                match c {
                    Color::White => {
                        assert(self.pawn_attacks[0][s].has(t) == pawn_capture_step(c, s, t));
                    },
                    Color::Black => {
                        assert(self.pawn_attacks[1][s].has(t) == pawn_capture_step(c, s, t));
                    },
                }
            }
        }
    }

    /// The squares a knight on `s` attacks.
    pub fn knight_attacks(&self, s: u8) -> (bb: Bitboard)
        requires
            s < 64,
        ensures
            bb == self.knight_at(s as int),
    {
        self.knight_attacks[s as usize]
    }

    /// The squares a king on `s` attacks.
    pub fn king_attacks(&self, s: u8) -> (bb: Bitboard)
        requires
            s < 64,
        ensures
            bb == self.king_at(s as int),
    {
        self.king_attacks[s as usize]
    }

    /// The squares a pawn of color `c` on `s` attacks.
    pub fn pawn_attacks(&self, c: Color, s: u8) -> (bb: Bitboard)
        requires
            s < 64,
        ensures
            bb == self.pawn_at(c, s as int),
    {
        self.pawn_attacks[c.to_index() as usize][s as usize]
    }
}

/// The knight table of an initialized lookup table is symmetric: `t` is in entry `s`
/// exactly when `s` is in entry `t`.
pub proof fn lemma_knight_table_symmetric(table: LookupTable, s: int, t: int)
    requires
        table.is_initialized(),
        0 <= s < 64,
        0 <= t < 64,
    ensures
        table.knight_at(s).has(t) == table.knight_at(t).has(s),
{
    assert(table.knight_at(s).has(t) == knight_step(s, t));
    assert(table.knight_at(t).has(s) == knight_step(t, s));
}

/// The king table of an initialized lookup table is symmetric.
pub proof fn lemma_king_table_symmetric(table: LookupTable, s: int, t: int)
    requires
        table.is_initialized(),
        0 <= s < 64,
        0 <= t < 64,
    ensures
        table.king_at(s).has(t) == table.king_at(t).has(s),
{
    assert(table.king_at(s).has(t) == king_step(s, t));
    assert(table.king_at(t).has(s) == king_step(t, s));
}

/// In an initialized table, a white pawn on `s` attacks `t` exactly when a black pawn
/// on `t` attacks `s`.
pub proof fn lemma_pawn_tables_mirror(table: LookupTable, s: int, t: int)
    requires
        table.is_initialized(),
        0 <= s < 64,
        0 <= t < 64,
    ensures
        table.pawn_at(Color::White, s).has(t) == table.pawn_at(Color::Black, t).has(s),
{
    assert(table.pawn_at(Color::White, s).has(t) == pawn_capture_step(Color::White, s, t));
    assert(table.pawn_at(Color::Black, t).has(s) == pawn_capture_step(Color::Black, t, s));
}

} // verus!

use vstd::prelude::*;

verus! {

/// A set of squares, one bit per square: bit `s` is set when square `s` is in the set.
#[derive(Copy, Clone, Debug, PartialEq, Eq, Structural)]
pub struct Bitboard {
    pub value: u64,
}

/// Bit `t` of `x` is set.
pub open spec fn bit_set(x: u64, t: u64) -> bool {
    (x >> t) & 1 == 1
}

impl Bitboard {
    /// The square `s` belongs to the set.
    pub open spec fn has(self, s: int) -> bool {
        0 <= s < 64 && bit_set(self.value, s as u64)
    }

    /// The empty set of squares.
    pub fn empty() -> (b: Bitboard)
        ensures
            forall|s: int| !(#[trigger] b.has(s)),
    {
        proof {
            assert forall|t: u64| t < 64 implies !bit_set(0u64, t) by {
                lemma_bit_of_zero(t);
            }
        }
        Bitboard { value: 0 }
    }

    /// Adds the square `s` to the set.
    pub fn insert(&mut self, s: u8)
        requires
            s < 64,
        ensures
            forall|t: int| #[trigger] final(self).has(t) == (old(self).has(t) || t == s),
    {
        let old_value = self.value;
        let new_value = old_value | (1u64 << (s as u64));
        proof {
            assert forall|t: int| 0 <= t < 64 implies #[trigger] bit_set(new_value, t as u64) == (
            bit_set(old_value, t as u64) || t == s) by {
                lemma_bit_of_or(old_value, s as u64, t as u64);
            }
        }
        self.value = new_value;
    }

    /// Tells whether the square `s` belongs to the set.
    pub fn contains(&self, s: u8) -> (b: bool)
        requires
            s < 64,
        ensures
            b == self.has(s as int),
    {
        (self.value >> (s as u64)) & 1 == 1
    }
}

proof fn lemma_bit_of_zero(t: u64)
    requires
        t < 64,
    ensures
        !bit_set(0u64, t),
{
    assert((0u64 >> t) & 1 != 1) by (bit_vector)
        requires
            t < 64,
    ;
}

proof fn lemma_bit_of_or(x: u64, u: u64, t: u64)
    requires
        u < 64,
        t < 64,
    ensures
        bit_set(x | (1u64 << u), t) == (bit_set(x, t) || t == u),
{
    assert((((x | (1u64 << u)) >> t) & 1 == 1) == (((x >> t) & 1 == 1) || t == u)) by (bit_vector)
        requires
            u < 64,
            t < 64,
    ;
}

} // verus!

use vstd::prelude::*;

verus! {

/// The two colors in the game of chess.
#[derive(Copy, Clone, Debug, PartialEq, Eq, Structural)]
pub enum Color {
    White,
    Black,
}

/// The number of colors.
pub const NUM_COLORS: u8 = 2;

impl Color {
    /// The index of a color as a number: white is 0, black is 1.
    pub open spec fn index_of(self) -> u8 {
        match self {
            Color::White => 0,
            Color::Black => 1,
        }
    }

    /// The color of the other side.
    pub open spec fn opponent(self) -> Color {
        match self {
            Color::White => Color::Black,
            Color::Black => Color::White,
        }
    }

    /// Returns the index of the color.
    pub fn to_index(&self) -> (index: u8)
        ensures
            index == self.index_of(),
            index < NUM_COLORS,
    {
        match self {
            Color::White => 0,
            Color::Black => 1,
        }
    }

    /// Returns the color of the other side.
    pub fn other(&self) -> (c: Color)
        ensures
            c == self.opponent(),
    {
        match self {
            Color::White => Color::Black,
            Color::Black => Color::White,
        }
    }
}

/// Distinct colors have distinct indices, so an index names its color.
pub proof fn lemma_color_index_injective(a: Color, b: Color)
    ensures
        a.index_of() == b.index_of() <==> a == b,
{
}

/// Taking the opponent twice gives back the color, and never gives the same color.
pub proof fn lemma_opponent_involution(c: Color)
    ensures
        c.opponent().opponent() == c,
        c.opponent() != c,
{
}

} // verus!

//! Ladybug: a UCI chess engine whose board rules, move generation, search and
//! command handling carry machine-checked contracts.
pub mod board;
pub mod evaluation;
pub mod ladybug;
pub mod lookup;
pub mod move_gen;
pub mod search;
pub mod text;
pub mod uci;

use vstd::prelude::*;

verus! {

} // verus!

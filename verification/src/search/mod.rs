pub mod laws;
pub mod negamax;

use vstd::prelude::*;
use crate::move_gen::ply::Ply;

verus! {

/// The search: it remembers the best move found at the root of the last search.
pub struct Search {
    pub best_move: Option<Ply>,
}

impl Search {
    /// A search that has found no move yet.
    pub fn new() -> (s: Search)
        ensures
            s.best_move is None,
    {
        Search { best_move: None }
    }
}

} // verus!

use vstd::prelude::*;
use crate::board::position::{Position, PositionView};
use crate::evaluation::{evaluate, evaluation, NEGATIVE_INFINITY};
use crate::move_gen::generate::generates_moves;
use crate::move_gen::ply::Ply;
use crate::move_gen::rules::{in_check, legal_moves, make_move_spec};
use crate::search::Search;

verus! {

/// The longest line, in plies from the root, that a search may look at: mate scores
/// (`NEGATIVE_INFINITY + 5000 * ply`) then stay within the range of an `i32` score.
pub const MAX_SEARCH_PLY: u64 = 400_000;

/// The position after the `i`-th legal move.
pub open spec fn child(v: PositionView, i: int) -> PositionView {
    let m = legal_moves(v)[i];
    make_move_spec(v, m.source as int, m.destination as int, m.promotion_piece)
}

/// The negamax score of a position searched `depth` plies deep, `ply` plies below the
/// root: without legal moves, a mate scores `NEGATIVE_INFINITY + 5000 * ply` and a
/// stalemate 0; at depth 0 the static evaluation; otherwise the best of the negated
/// scores of the positions after each legal move.
pub open spec fn negamax_value(v: PositionView, depth: nat, ply: int) -> int
    decreases depth, 0nat,
{
    let n = legal_moves(v).len();
    if n == 0 {
        if in_check(v, v.color_to_move) {
            NEGATIVE_INFINITY + ply * 5000
        } else {
            0
        }
    } else if depth == 0 {
        evaluation(v)
    } else {
        best_child_value(v, n, (depth - 1) as nat, ply + 1)
    }
}

/// The negated score of the position after the `i`-th legal move.
pub open spec fn child_score(v: PositionView, i: int, depth: nat, ply: int) -> int
    decreases depth, 1nat,
{
    -negamax_value(child(v, i), depth, ply)
}

/// The best negated score over the first `n` legal moves, starting from
/// `NEGATIVE_INFINITY`.
pub open spec fn best_child_value(v: PositionView, n: nat, depth: nat, ply: int) -> int
    decreases depth, 1nat + n,
{
    if n == 0 {
        NEGATIVE_INFINITY as int
    } else {
        let prev = best_child_value(v, (n - 1) as nat, depth, ply);
        let score = child_score(v, n - 1, depth, ply);
        if score > prev {
            score
        } else {
            prev
        }
    }
}

/// The index of the first of the first `n` legal moves whose score is best, if one beats
/// `NEGATIVE_INFINITY`.
pub open spec fn best_index(v: PositionView, n: nat, depth: nat, ply: int) -> Option<int>
    decreases n,
{
    if n == 0 {
        None
    } else if child_score(v, n - 1, depth, ply) > best_child_value(v, (n - 1) as nat, depth, ply) {
        Some(n - 1)
    } else {
        best_index(v, (n - 1) as nat, depth, ply)
    }
}

/// The best move a root search `depth` plies deep records, given what was recorded before.
pub open spec fn root_choice(v: PositionView, depth: nat, before: Option<Ply>) -> Option<Ply> {
    let n = legal_moves(v).len();
    if n == 0 || depth == 0 {
        before
    } else {
        match best_index(v, n, (depth - 1) as nat, 1) {
            Some(i) => Some(legal_moves(v)[i]),
            None => before,
        }
    }
}

/// Iterative deepening from `depth` up to `max_depth`: the move kept and the best move
/// left recorded.
pub open spec fn deepening(
    v: PositionView,
    depth: nat,
    max_depth: nat,
    kept: Ply,
    recorded: Option<Ply>,
) -> (Ply, Option<Ply>)
    decreases max_depth + 1 - depth,
{
    if depth > max_depth {
        (kept, recorded)
    } else {
        match root_choice(v, depth, recorded) {
            None => (kept, None),
            Some(b) => deepening(v, depth + 1, max_depth, b, None),
        }
    }
}

/// In a position without legal moves whose side to move is in check, the score rises
/// with the distance from the root: being mated later costs less, so the engine prefers
/// to delay being mated and, on the winning side, to mate sooner.
pub proof fn lemma_later_mate_scores_higher(v: PositionView, depth: nat, ply: int)
    requires
        legal_moves(v).len() == 0,
        in_check(v, v.color_to_move),
    ensures
        negamax_value(v, depth, ply) < negamax_value(v, depth, ply + 1),
        negamax_value(v, depth, ply) == NEGATIVE_INFINITY + 5000 * ply,
{
}

/// In a position without legal moves whose side to move is not in check (stalemate),
/// the score is 0 whatever the depth.
pub proof fn lemma_stalemate_scores_zero(v: PositionView, depth: nat, ply: int)
    requires
        legal_moves(v).len() == 0,
        !in_check(v, v.color_to_move),
    ensures
        negamax_value(v, depth, ply) == 0,
{
}

impl Search {
    /// A basic implementation of the negamax algorithm.
    ///
    /// Instead of implementing two routines for the maximizing and minimizing players,
    /// this method negates the scores for each recursive call. At the root
    /// (`ply_num == 0`) it records the first move whose score is best.
    pub fn negamax(&mut self, position: Position, depth: u64, ply_num: u64) -> (score: i32)
        requires
            position.wf(),
            ply_num + depth <= MAX_SEARCH_PLY,
        ensures
            score == negamax_value(position@, depth as nat, ply_num as int),
            NEGATIVE_INFINITY <= score <= -NEGATIVE_INFINITY,
            final(self).best_move == if ply_num == 0 {
                root_choice(position@, depth as nat, old(self).best_move)
            } else {
                old(self).best_move
            },
        decreases depth,
    {
        let ghost v = position@;
        // the maximum score that can be reached in this position
        let mut max_score: i32 = NEGATIVE_INFINITY;

        // generate all legal moves for the current position
        let moves = generates_moves(position);
        proof {
            crate::move_gen::laws::lemma_legal_moves_sound(v);
        }

        // if there are no legal moves, check for mate or stalemate
        if moves.len() == 0 {
            return if position.is_in_check(position.color_to_move) {
                NEGATIVE_INFINITY + (ply_num as i32 * 5000)
            } else {
                0
            };
        }

        // at depth 0, return the static evaluation of the position
        if depth == 0 {
            return evaluate(position);
        }

        let ghost d = (depth - 1) as nat;
        let ghost p = ply_num + 1;
        let ghost before = self.best_move;
        let mut i: usize = 0;
        while i < moves.len()
            invariant
                moves@ == legal_moves(v),
                v == position@,
                position.wf(),
                0 < depth,
                ply_num + depth <= MAX_SEARCH_PLY,
                d == depth - 1,
                p == ply_num + 1,
                i <= moves.len(),
                forall|j: int|
                    0 <= j < legal_moves(v).len() ==> crate::move_gen::laws::is_listed_move(
                        v,
                        #[trigger] legal_moves(v)[j],
                    ),
                max_score == best_child_value(v, i as nat, d, p as int),
                NEGATIVE_INFINITY <= max_score <= -NEGATIVE_INFINITY,
                self.best_move == if ply_num == 0 {
                    match best_index(v, i as nat, d, p as int) {
                        Some(k) => Some(legal_moves(v)[k]),
                        None => before,
                    }
                } else {
                    before
                },
            decreases moves.len() - i,
        {
            let ply = moves[i];
            let next = position.make_move(ply);
            assert(next@ == child(v, i as int));
            // the score of the position arising after playing the move
            let score = -self.negamax(next, depth - 1, ply_num + 1);
            assert(score == child_score(v, i as int, d, p as int));
            // check if the score of the position is better than the current max score
            if score > max_score {
                max_score = score;
                // at the root node, remember the best move
                if ply_num == 0 {
                    self.best_move = Some(ply);
                }
            }
            i = i + 1;
        }
        max_score
    }

    /// Searches the given position with iterative deepening, from depth 1 up to
    /// `max_depth`, and returns the best move of the deepest search that recorded one.
    /// Until a search records a move, the first legal move is kept.
    pub fn iterative_search(&mut self, position: Position, max_depth: u64) -> (best: Ply)
        requires
            position.wf(),
            legal_moves(position@).len() > 0,
            max_depth <= MAX_SEARCH_PLY,
        ensures
            (best, final(self).best_move) == deepening(
                position@,
                1,
                max_depth as nat,
                legal_moves(position@)[0],
                old(self).best_move,
            ),
            1 <= max_depth <= crate::search::laws::BOUNDED_SEARCH_PLY ==> best == root_choice(
                position@,
                max_depth as nat,
                None,
            )->0 && final(self).best_move is None,
    {
        let ghost v = position@;
        proof {
            if 1 <= max_depth <= crate::search::laws::BOUNDED_SEARCH_PLY {
                crate::search::laws::lemma_deepening_returns_deepest_choice(
                    v,
                    max_depth as nat,
                    legal_moves(v)[0],
                    self.best_move,
                );
            }
        }
        // start with the first legal move, in case no search records a move
        let mut prev_best_move = generates_moves(position)[0];
        let mut depth: u64 = 1;
        while depth <= max_depth
            invariant_except_break
                1 <= depth <= max_depth + 1,
                max_depth <= MAX_SEARCH_PLY,
                position.wf(),
                v == position@,
                deepening(v, 1, max_depth as nat, legal_moves(v)[0], old(self).best_move)
                    == deepening(v, depth as nat, max_depth as nat, prev_best_move, self.best_move),
            ensures
                deepening(v, 1, max_depth as nat, legal_moves(v)[0], old(self).best_move) == (
                prev_best_move, self.best_move),
            decreases max_depth + 1 - depth,
        {
            self.negamax(position, depth, 0);
            match self.best_move {
                None => break,
                Some(best_move) => {
                    prev_best_move = best_move;
                    self.best_move = None;
                },
            }
            depth = depth + 1;
        }
        prev_best_move
    }
}

} // verus!

use vstd::prelude::*;
use crate::board::position::PositionView;
use crate::evaluation::{material_upto, NEGATIVE_INFINITY};
use crate::move_gen::ply::Ply;
use crate::move_gen::rules::{at, legal_moves};
use crate::search::negamax::{
    best_child_value, best_index, child, child_score, deepening, negamax_value, root_choice,
};

verus! {

/// The longest line, in plies from the root, for which search scores are bounded away
/// from `NEGATIVE_INFINITY` and its negation.
pub const BOUNDED_SEARCH_PLY: u64 = 199_000;

proof fn lemma_material_bounds(v: PositionView, c: crate::board::color::Color, n: nat)
    ensures
        0 <= material_upto(v, c, n) <= 900 * n,
    decreases n,
{
    if n > 0 {
        lemma_material_bounds(v, c, (n - 1) as nat);
    }
}

/// Scores of a search `ply` plies below the root lie within
/// `NEGATIVE_INFINITY + 5000 * ply` and its negation.
pub proof fn lemma_value_bounds(v: PositionView, depth: nat, ply: int)
    requires
        0 <= ply,
        ply + depth <= BOUNDED_SEARCH_PLY,
    ensures
        NEGATIVE_INFINITY + 5000 * ply <= negamax_value(v, depth, ply) <= -NEGATIVE_INFINITY - 5000
            * ply,
    decreases depth, 0nat,
{
    let n = legal_moves(v).len();
    if n == 0 {
    } else if depth == 0 {
        lemma_material_bounds(v, v.color_to_move, 64);
        lemma_material_bounds(v, v.color_to_move.opponent(), 64);
    } else {
        lemma_best_bounds(v, n, (depth - 1) as nat, ply + 1);
    }
}

/// The best of the first `n` child scores, `ply` plies below the root, lies within the
/// same bounds, and never falls below `NEGATIVE_INFINITY`.
pub proof fn lemma_best_bounds(v: PositionView, n: nat, depth: nat, ply: int)
    requires
        1 <= ply,
        ply + depth <= BOUNDED_SEARCH_PLY,
    ensures
        NEGATIVE_INFINITY <= best_child_value(v, n, depth, ply),
        n > 0 ==> NEGATIVE_INFINITY + 5000 * ply <= best_child_value(v, n, depth, ply)
            <= -NEGATIVE_INFINITY - 5000 * ply,
    decreases depth, 1nat + n,
{
    if n > 0 {
        lemma_best_bounds(v, (n - 1) as nat, depth, ply);
        lemma_value_bounds(child(v, n - 1), depth, ply);
        assert(child_score(v, n - 1, depth, ply) == -negamax_value(child(v, n - 1), depth, ply));
    }
}

/// At depth 0 a position with legal moves scores its material balance from the point of
/// view of the side to move, whichever side that is: its own material minus the other
/// side's.
pub proof fn lemma_leaf_scores_side_to_move(v: PositionView, ply: int)
    requires
        legal_moves(v).len() > 0,
    ensures
        negamax_value(v, 0, ply) == material_upto(v, v.color_to_move, 64) - material_upto(
            v,
            v.color_to_move.opponent(),
            64,
        ),
{
}

proof fn lemma_best_is_max(v: PositionView, n: nat, depth: nat, ply: int)
    ensures
        forall|i: int| 0 <= i < n ==> best_child_value(v, n, depth, ply) >= #[trigger] child_score(v, i, depth, ply),
        best_child_value(v, n, depth, ply) == NEGATIVE_INFINITY || exists|i: int|
            0 <= i < n && best_child_value(v, n, depth, ply) == #[trigger] child_score(v, i, depth, ply),
    decreases n,
{
    if n > 0 {
        lemma_best_is_max(v, (n - 1) as nat, depth, ply);
        if child_score(v, n - 1, depth, ply) > best_child_value(v, (n - 1) as nat, depth, ply) {
            assert(best_child_value(v, n, depth, ply) == child_score(v, n - 1, depth, ply));
        }
    }
}

/// A position with legal moves searched `depth + 1` plies deep scores the largest of
/// the negated scores, `depth` plies deep, of the positions after its legal moves: no
/// move scores more, and some move scores exactly that.
pub proof fn lemma_score_is_best_reply(v: PositionView, depth: nat, ply: int)
    requires
        legal_moves(v).len() > 0,
        0 <= ply,
        ply + depth + 1 <= BOUNDED_SEARCH_PLY,
    ensures
        forall|i: int|
            0 <= i < legal_moves(v).len() ==> negamax_value(v, depth + 1, ply) >= -negamax_value(
                #[trigger] child(v, i),
                depth,
                ply + 1,
            ),
        exists|i: int|
            0 <= i < legal_moves(v).len() && negamax_value(v, depth + 1, ply) == -negamax_value(
                #[trigger] child(v, i),
                depth,
                ply + 1,
            ),
{
    let n = legal_moves(v).len();
    lemma_best_is_max(v, n, depth, ply + 1);
    lemma_best_bounds(v, n, depth, ply + 1);
    assert forall|i: int| 0 <= i < n implies negamax_value(v, depth + 1, ply) >= -negamax_value(
        #[trigger] child(v, i),
        depth,
        ply + 1,
    ) by {
        assert(child_score(v, i, depth, ply + 1) == -negamax_value(child(v, i), depth, ply + 1));
    }
    let i = choose|i: int|
        0 <= i < n && best_child_value(v, n, depth, ply + 1) == #[trigger] child_score(
            v,
            i,
            depth,
            ply + 1,
        );
    assert(child_score(v, i, depth, ply + 1) == -negamax_value(child(v, i), depth, ply + 1));
}

proof fn lemma_best_index_found(v: PositionView, n: nat, depth: nat, ply: int)
    requires
        best_child_value(v, n, depth, ply) > NEGATIVE_INFINITY,
    ensures
        best_index(v, n, depth, ply) matches Some(i) && 0 <= i < n && child_score(v, i, depth, ply)
            == best_child_value(v, n, depth, ply) && forall|j: int|
            0 <= j < i ==> #[trigger] child_score(v, j, depth, ply) < child_score(v, i, depth, ply),
    decreases n,
{
    lemma_best_is_max(v, n, depth, ply);
    if n > 0 {
        if child_score(v, n - 1, depth, ply) > best_child_value(v, (n - 1) as nat, depth, ply) {
            lemma_best_is_max(v, (n - 1) as nat, depth, ply);
        } else {
            lemma_best_index_found(v, (n - 1) as nat, depth, ply);
        }
    }
}

/// A root search at least one ply deep in a position with legal moves records a legal
/// move, whatever was recorded before: the first of the legal moves whose negated score
/// equals the root score, every earlier move scoring less.
pub proof fn lemma_root_choice_is_best_move(v: PositionView, depth: nat, before: Option<Ply>)
    requires
        legal_moves(v).len() > 0,
        1 <= depth <= BOUNDED_SEARCH_PLY,
    ensures
        exists|i: int|
            0 <= i < legal_moves(v).len() && root_choice(v, depth, before) == Some(
                #[trigger] legal_moves(v)[i],
            ) && -negamax_value(child(v, i), (depth - 1) as nat, 1) == negamax_value(v, depth, 0)
                && forall|j: int|
                0 <= j < i ==> -negamax_value(#[trigger] child(v, j), (depth - 1) as nat, 1)
                    < negamax_value(v, depth, 0),
        root_choice(v, depth, before) == root_choice(v, depth, None),
{
    let n = legal_moves(v).len();
    let d = (depth - 1) as nat;
    lemma_best_bounds(v, n, d, 1);
    lemma_best_index_found(v, n, d, 1);
    let i = best_index(v, n, d, 1)->0;
    assert(child_score(v, i, d, 1) == -negamax_value(child(v, i), d, 1));
    assert forall|j: int| 0 <= j < i implies -negamax_value(#[trigger] child(v, j), d, 1)
        < negamax_value(v, depth, 0) by {
        assert(child_score(v, j, d, 1) == -negamax_value(child(v, j), d, 1));
    }
}

proof fn lemma_deepening_from(v: PositionView, depth: nat, max_depth: nat, kept: Ply, recorded: Option<Ply>)
    requires
        legal_moves(v).len() > 0,
        1 <= depth <= max_depth,
        max_depth <= BOUNDED_SEARCH_PLY,
    ensures
        deepening(v, depth, max_depth, kept, recorded) == (root_choice(v, max_depth, None)->0, None::<Ply>),
    decreases max_depth + 1 - depth,
{
    lemma_root_choice_is_best_move(v, depth, recorded);
    lemma_root_choice_is_best_move(v, max_depth, None);
    let b = root_choice(v, depth, recorded)->0;
    if depth < max_depth {
        lemma_deepening_from(v, depth + 1, max_depth, b, None);
    }
}

/// Iterative deepening up to `max_depth >= 1` in a position with legal moves returns
/// the move that a single root search `max_depth` plies deep records, not the choice of
/// a shallower search, and leaves no move recorded.
pub proof fn lemma_deepening_returns_deepest_choice(
    v: PositionView,
    max_depth: nat,
    kept: Ply,
    recorded: Option<Ply>,
)
    requires
        legal_moves(v).len() > 0,
        1 <= max_depth <= BOUNDED_SEARCH_PLY,
    ensures
        root_choice(v, max_depth, None) is Some,
        deepening(v, 1, max_depth, kept, recorded) == (root_choice(v, max_depth, None)->0, None::<Ply>),
{
    lemma_root_choice_is_best_move(v, max_depth, None);
    lemma_deepening_from(v, 1, max_depth, kept, recorded);
}

} // verus!

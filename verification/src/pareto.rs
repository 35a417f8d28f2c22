//! Pareto efficiency under strict dominance.

use vstd::prelude::*;
use crate::grid::{
    all_on_grid, grid, lemma_outcomes_where, lemma_outcomes_where_members, lemma_selection_bounds, lemma_selection_step, on_grid,
    on_outcome, outcomes_where,
};
use crate::payoff::{cell, Matrix, Pref};

verus! {

/// `b` is strictly better than `a` for both players. A tie in either
/// payoff is no dominance.
pub open spec fn pareto_dominated(a: Pref, b: Pref) -> bool {
    b.0 > a.0 && b.1 > a.1
}

/// No outcome of `m` is strictly better for both players than (`r`, `c`).
pub open spec fn pareto_efficient(m: Matrix, r: int, c: int) -> bool {
    forall|i: int, j: int|
        on_grid(i, j) ==> !pareto_dominated(cell(m, r, c), #[trigger] cell(m, i, j))
}

/// Being Pareto efficient in `m`, as a property of outcomes.
pub open spec fn efficient_in(m: Matrix) -> spec_fn(int, int) -> bool {
    |r: int, c: int| pareto_efficient(m, r, c)
}

/// The Pareto-efficient outcomes of `m`, in row-major order.
pub open spec fn pareto_efficient_outcomes(m: Matrix) -> Seq<(usize, usize)> {
    outcomes_where(efficient_in(m))
}

/// An outcome never dominates one that it ties with in either payoff; in
/// particular no outcome dominates itself.
pub proof fn lemma_tie_is_no_dominance(a: Pref, b: Pref)
    requires
        a.0 == b.0 || a.1 == b.1,
    ensures
        !pareto_dominated(a, b),
        !pareto_dominated(b, a),
{
}

/// Some outcome is Pareto efficient: an outcome that pays the row player
/// most, and among those the column player most, is dominated by none.
pub proof fn lemma_some_outcome_is_efficient(m: Matrix)
    ensures
        exists|r: int, c: int| on_grid(r, c) && #[trigger] pareto_efficient(m, r, c),
        pareto_efficient_outcomes(m).len() >= 1,
{
    assert(pareto_efficient(m, 0, 0) || pareto_efficient(m, 0, 1) || pareto_efficient(m, 1, 0)
        || pareto_efficient(m, 1, 1));
    lemma_outcomes_where(efficient_in(m));
}

/// Tells whether `a` is dominated by `b`: whether `b` is strictly better
/// for both players.
pub fn is_pareto_dominated(a: &Pref, b: &Pref) -> (dominated: bool)
    ensures
        dominated == pareto_dominated(*a, *b),
{
    b.0 > a.0 && b.1 > a.1
}

/// Tells whether the outcome (`row`, `col`) is Pareto efficient, by
/// holding it against every outcome of the game.
pub fn is_pareto_efficient(matrix: &Matrix, row: usize, col: usize) -> (efficient: bool)
    requires
        row < 2,
        col < 2,
    ensures
        efficient == pareto_efficient(*matrix, row as int, col as int),
{
    let current = matrix[row][col];
    let mut dominated = false;
    let mut i: usize = 0;
    while i < 2
        invariant
            i <= 2,
            current == cell(*matrix, row as int, col as int),
            !dominated == forall|p: int, q: int|
                0 <= p < i && 0 <= q < 2 ==> !pareto_dominated(
                    current,
                    #[trigger] cell(*matrix, p, q),
                ),
        decreases 2 - i,
    {
        let mut j: usize = 0;
        while j < 2
            invariant
                i < 2,
                j <= 2,
                current == cell(*matrix, row as int, col as int),
                !dominated == forall|p: int, q: int|
                    on_grid(p, q) && 2 * p + q < 2 * i + j ==> !pareto_dominated(
                        current,
                        #[trigger] cell(*matrix, p, q),
                    ),
            decreases 2 - j,
        {
            let other = matrix[i][j];
            assert(other == cell(*matrix, i as int, j as int));
            if is_pareto_dominated(&current, &other) {
                dominated = true;
            }
            j += 1;
        }
        i += 1;
    }
    !dominated
}

/// Finds the outcomes that no outcome dominates, in row-major order.
pub fn find_pareto_efficience(matrix: &Matrix) -> (result: Vec<(usize, usize)>)
    ensures
        result@ == pareto_efficient_outcomes(*matrix),
        all_on_grid(result@),
        forall|r: usize, c: usize|
            on_grid(r as int, c as int) ==> (#[trigger] result@.contains((r, c))
                <==> pareto_efficient(*matrix, r as int, c as int)),
{
    let ghost wanted = efficient_in(*matrix);
    let mut result: Vec<(usize, usize)> = Vec::new();
    let mut i: usize = 0;
    proof {
        lemma_selection_bounds(wanted);
    }
    while i < 2
        invariant
            i <= 2,
            wanted == efficient_in(*matrix),
            result@ == grid().take(2 * i).filter(on_outcome(wanted)),
        decreases 2 - i,
    {
        let mut j: usize = 0;
        while j < 2
            invariant
                i < 2,
                j <= 2,
                wanted == efficient_in(*matrix),
                result@ == grid().take(2 * i + j).filter(on_outcome(wanted)),
            decreases 2 - j,
        {
            proof {
                lemma_selection_step(wanted, i, j);
            }
            if is_pareto_efficient(matrix, i, j) {
                result.push((i, j));
            }
            j += 1;
        }
        i += 1;
    }
    proof {
        lemma_outcomes_where_members(wanted);
    }
    result
}

} // verus!

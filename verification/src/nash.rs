//! Nash equilibria in pure strategies.

use vstd::prelude::*;
use crate::grid::{
    all_on_grid, grid, lemma_outcomes_where_members, lemma_selection_bounds, lemma_selection_step,
    on_grid, on_outcome, outcomes_where,
};
use crate::payoff::{cell, col_payoff, row_payoff, Matrix};

verus! {

/// The row player cannot do better than `row` against the column `col`.
pub open spec fn row_best_response(m: Matrix, row: int, col: int) -> bool {
    forall|r: int| 0 <= r < 2 ==> #[trigger] row_payoff(m, r, col) <= row_payoff(m, row, col)
}

/// The column player cannot do better than `col` against the row `row`.
pub open spec fn col_best_response(m: Matrix, row: int, col: int) -> bool {
    forall|c: int| 0 <= c < 2 ==> #[trigger] col_payoff(m, row, c) <= col_payoff(m, row, col)
}

/// Neither player gains by deviating alone from (`row`, `col`). Ties count
/// as no gain, so weak equilibria are included.
pub open spec fn nash_equilibrium(m: Matrix, row: int, col: int) -> bool {
    row_best_response(m, row, col) && col_best_response(m, row, col)
}

/// Being a Nash equilibrium of `m`, as a property of outcomes.
pub open spec fn equilibrium_of(m: Matrix) -> spec_fn(int, int) -> bool {
    |r: int, c: int| nash_equilibrium(m, r, c)
}

/// The Nash equilibria of `m`, in row-major order.
pub open spec fn nash_equilibria(m: Matrix) -> Seq<(usize, usize)> {
    outcomes_where(equilibrium_of(m))
}

/// Tells whether the outcome (`row`, `col`) is a Nash equilibrium.
pub fn is_nash_equilibrium(matrix: &Matrix, row: usize, col: usize) -> (found: bool)
    requires
        row < 2,
        col < 2,
    ensures
        found == nash_equilibrium(*matrix, row as int, col as int),
{
    let current = matrix[row][col];
    let mut player1_best = true;
    let mut r: usize = 0;
    while r < 2
        invariant
            r <= 2,
            col < 2,
            current == cell(*matrix, row as int, col as int),
            player1_best == forall|k: int|
                0 <= k < r ==> #[trigger] row_payoff(*matrix, k, col as int) <= current.0,
        decreases 2 - r,
    {
        let other = matrix[r][col];
        assert(other.0 == row_payoff(*matrix, r as int, col as int));
        if other.0 > current.0 {
            player1_best = false;
        }
        r += 1;
    }
    let mut player2_best = true;
    let mut c: usize = 0;
    while c < 2
        invariant
            c <= 2,
            row < 2,
            current == cell(*matrix, row as int, col as int),
            player2_best == forall|k: int|
                0 <= k < c ==> #[trigger] col_payoff(*matrix, row as int, k) <= current.1,
        decreases 2 - c,
    {
        let other = matrix[row][c];
        assert(other.1 == col_payoff(*matrix, row as int, c as int));
        if other.1 > current.1 {
            player2_best = false;
        }
        c += 1;
    }
    player1_best && player2_best
}

/// Finds every Nash equilibrium of the game, in row-major order.
pub fn find_nash_equilibria(matrix: &Matrix) -> (found: Vec<(usize, usize)>)
    ensures
        found@ == nash_equilibria(*matrix),
        all_on_grid(found@),
        forall|r: usize, c: usize|
            on_grid(r as int, c as int) ==> (#[trigger] found@.contains((r, c))
                <==> nash_equilibrium(*matrix, r as int, c as int)),
{
    let ghost wanted = equilibrium_of(*matrix);
    let mut found: Vec<(usize, usize)> = Vec::new();
    let mut k: usize = 0;
    proof {
        lemma_selection_bounds(wanted);
    }
    while k < 2
        invariant
            k <= 2,
            wanted == equilibrium_of(*matrix),
            found@ == grid().take(2 * k).filter(on_outcome(wanted)),
        decreases 2 - k,
    {
        let mut j: usize = 0;
        while j < 2
            invariant
                k < 2,
                j <= 2,
                wanted == equilibrium_of(*matrix),
                found@ == grid().take(2 * k + j).filter(on_outcome(wanted)),
            decreases 2 - j,
        {
            proof {
                lemma_selection_step(wanted, k, j);
            }
            if is_nash_equilibrium(matrix, k, j) {
                found.push((k, j));
            }
            j += 1;
        }
        k += 1;
    }
    proof {
        lemma_outcomes_where_members(wanted);
    }
    found
}

} // verus!

//! Strictly dominant strategies and the equilibria they form.

use vstd::prelude::*;
use crate::grid::{
    all_on_grid, grid, lemma_outcomes_where, lemma_outcomes_where_members, lemma_selection_bounds,
    lemma_selection_step, on_grid, on_outcome, outcomes_where,
};
use crate::nash::nash_equilibrium;
use crate::payoff::{cell, col_payoff, row_payoff, Matrix};

verus! {

/// Which strategies are strictly dominant: `a1` and `b1` are the row
/// player's, `a2` and `b2` the column player's.
#[derive(Debug, Clone, Copy)]
pub struct FindDSE {
    pub a1: bool,
    pub b1: bool,
    pub a2: bool,
    pub b2: bool,
}

/// Row `r` pays the row player strictly more than the other row, whatever
/// column is played.
pub open spec fn row_dominant(m: Matrix, r: int) -> bool {
    forall|c: int| 0 <= c < 2 ==> #[trigger] row_payoff(m, r, c) > row_payoff(m, 1 - r, c)
}

/// Column `c` pays the column player strictly more than the other column,
/// whatever row is played.
pub open spec fn col_dominant(m: Matrix, c: int) -> bool {
    forall|r: int| 0 <= r < 2 ==> #[trigger] col_payoff(m, r, c) > col_payoff(m, r, 1 - c)
}

/// Both players play a strictly dominant strategy at (`r`, `c`).
pub open spec fn dominant_strategy_equilibrium(m: Matrix, r: int, c: int) -> bool {
    row_dominant(m, r) && col_dominant(m, c)
}

/// Being a dominant-strategy equilibrium of `m`, as a property of outcomes.
pub open spec fn dominant_in(m: Matrix) -> spec_fn(int, int) -> bool {
    |r: int, c: int| dominant_strategy_equilibrium(m, r, c)
}

/// The dominant-strategy equilibria of `m`, in row-major order.
pub open spec fn dominant_strategy_equilibria(m: Matrix) -> Seq<(usize, usize)> {
    outcomes_where(dominant_in(m))
}

impl FindDSE {
    /// The flags of the matrix `m`.
    pub open spec fn of(m: Matrix) -> FindDSE {
        FindDSE {
            a1: row_dominant(m, 0),
            b1: row_dominant(m, 1),
            a2: col_dominant(m, 0),
            b2: col_dominant(m, 1),
        }
    }

    /// No player has two dominant strategies.
    pub open spec fn exclusive(self) -> bool {
        !(self.a1 && self.b1) && !(self.a2 && self.b2)
    }
}

/// Dominance spelled out payoff by payoff.
pub proof fn lemma_dominance_by_payoffs(m: Matrix)
    ensures
        row_dominant(m, 0) == (row_payoff(m, 0, 0) > row_payoff(m, 1, 0) && row_payoff(m, 0, 1)
            > row_payoff(m, 1, 1)),
        row_dominant(m, 1) == (row_payoff(m, 1, 0) > row_payoff(m, 0, 0) && row_payoff(m, 1, 1)
            > row_payoff(m, 0, 1)),
        col_dominant(m, 0) == (col_payoff(m, 0, 0) > col_payoff(m, 0, 1) && col_payoff(m, 1, 0)
            > col_payoff(m, 1, 1)),
        col_dominant(m, 1) == (col_payoff(m, 0, 1) > col_payoff(m, 0, 0) && col_payoff(m, 1, 1)
            > col_payoff(m, 1, 0)),
{
}

/// A player has at most one strictly dominant strategy, so a game has at
/// most one dominant-strategy equilibrium.
pub proof fn lemma_at_most_one_equilibrium(m: Matrix)
    ensures
        FindDSE::of(m).exclusive(),
        dominant_strategy_equilibria(m).len() <= 1,
{
    lemma_dominance_by_payoffs(m);
    lemma_outcomes_where(dominant_in(m));
}

/// Where both players play a dominant strategy, neither gains by deviating.
pub proof fn lemma_dominant_equilibrium_is_nash(m: Matrix, r: int, c: int)
    requires
        on_grid(r, c),
        dominant_strategy_equilibrium(m, r, c),
    ensures
        nash_equilibrium(m, r, c),
{
    lemma_dominance_by_payoffs(m);
}

/// `n` is `m` with its two rows exchanged.
pub open spec fn rows_swapped(m: Matrix, n: Matrix) -> bool {
    forall|r: int, c: int| on_grid(r, c) ==> #[trigger] cell(n, r, c) == cell(m, 1 - r, c)
}

/// `n` is `m` with its two columns exchanged.
pub open spec fn cols_swapped(m: Matrix, n: Matrix) -> bool {
    forall|r: int, c: int| on_grid(r, c) ==> #[trigger] cell(n, r, c) == cell(m, r, 1 - c)
}

/// The outcome `o` with the other row.
pub open spec fn other_row(o: (usize, usize)) -> (usize, usize) {
    ((1 - o.0) as usize, o.1)
}

/// The outcome `o` with the other column.
pub open spec fn other_col(o: (usize, usize)) -> (usize, usize) {
    (o.0, (1 - o.1) as usize)
}

/// Naming the row player's strategies the other way round renames the
/// dominant strategies and the equilibria accordingly, and changes nothing
/// else.
pub proof fn lemma_row_swap(m: Matrix, n: Matrix)
    requires
        rows_swapped(m, n),
    ensures
        row_dominant(n, 0) == row_dominant(m, 1),
        row_dominant(n, 1) == row_dominant(m, 0),
        col_dominant(n, 0) == col_dominant(m, 0),
        col_dominant(n, 1) == col_dominant(m, 1),
        forall|r: int, c: int|
            on_grid(r, c) ==> #[trigger] dominant_strategy_equilibrium(n, r, c)
                == dominant_strategy_equilibrium(m, 1 - r, c),
        dominant_strategy_equilibria(n) == dominant_strategy_equilibria(m).map_values(
            |o: (usize, usize)| other_row(o),
        ),
{
    lemma_dominance_by_payoffs(m);
    lemma_dominance_by_payoffs(n);
    assert(cell(n, 0, 0) == cell(m, 1, 0) && cell(n, 0, 1) == cell(m, 1, 1));
    assert(cell(n, 1, 0) == cell(m, 0, 0) && cell(n, 1, 1) == cell(m, 0, 1));
    lemma_outcomes_where(dominant_in(m));
    lemma_outcomes_where(dominant_in(n));
}

/// Naming the column player's strategies the other way round renames the
/// dominant strategies and the equilibria accordingly, and changes nothing
/// else.
pub proof fn lemma_col_swap(m: Matrix, n: Matrix)
    requires
        cols_swapped(m, n),
    ensures
        row_dominant(n, 0) == row_dominant(m, 0),
        row_dominant(n, 1) == row_dominant(m, 1),
        col_dominant(n, 0) == col_dominant(m, 1),
        col_dominant(n, 1) == col_dominant(m, 0),
        forall|r: int, c: int|
            on_grid(r, c) ==> #[trigger] dominant_strategy_equilibrium(n, r, c)
                == dominant_strategy_equilibrium(m, r, 1 - c),
        dominant_strategy_equilibria(n) == dominant_strategy_equilibria(m).map_values(
            |o: (usize, usize)| other_col(o),
        ),
{
    lemma_dominance_by_payoffs(m);
    lemma_dominance_by_payoffs(n);
    assert(cell(n, 0, 0) == cell(m, 0, 1) && cell(n, 0, 1) == cell(m, 0, 0));
    assert(cell(n, 1, 0) == cell(m, 1, 1) && cell(n, 1, 1) == cell(m, 1, 0));
    lemma_outcomes_where(dominant_in(m));
    lemma_outcomes_where(dominant_in(n));
}

/// Finds each player's strictly dominant strategy, if there is one.
pub fn dominant_strategies(matrix: &Matrix) -> (flags: FindDSE)
    ensures
        flags == FindDSE::of(*matrix),
        flags.exclusive(),
{
    let mut find_dse = FindDSE { a1: false, b1: false, a2: false, b2: false };
    if matrix[0][0].0 > matrix[1][0].0 && matrix[0][1].0 > matrix[1][1].0 {
        find_dse.a1 = true;
    } else if matrix[1][0].0 > matrix[0][0].0 && matrix[1][1].0 > matrix[0][1].0 {
        find_dse.b1 = true;
    }
    if matrix[0][0].1 > matrix[0][1].1 && matrix[1][0].1 > matrix[1][1].1 {
        find_dse.a2 = true;
    } else if matrix[0][1].1 > matrix[0][0].1 && matrix[1][1].1 > matrix[1][0].1 {
        find_dse.b2 = true;
    }
    proof {
        lemma_dominance_by_payoffs(*matrix);
    }
    find_dse
}

/// Finds the dominant-strategy equilibria of the game: every outcome at
/// which both players play a strictly dominant strategy. There is at most
/// one.
pub fn find_dominant_strategy(matrix: &Matrix) -> (found: Vec<(usize, usize)>)
    ensures
        found@ == dominant_strategy_equilibria(*matrix),
        found.len() <= 1,
        all_on_grid(found@),
        forall|r: usize, c: usize|
            on_grid(r as int, c as int) ==> (#[trigger] found@.contains((r, c))
                <==> dominant_strategy_equilibrium(*matrix, r as int, c as int)),
{
    let flags = dominant_strategies(matrix);
    let rows = [flags.a1, flags.b1];
    let cols = [flags.a2, flags.b2];
    let ghost wanted = dominant_in(*matrix);
    let mut found: Vec<(usize, usize)> = Vec::new();
    let mut i: usize = 0;
    proof {
        lemma_selection_bounds(wanted);
    }
    while i < 2
        invariant
            i <= 2,
            wanted == dominant_in(*matrix),
            forall|r: int| 0 <= r < 2 ==> #[trigger] rows[r] == row_dominant(*matrix, r),
            forall|c: int| 0 <= c < 2 ==> #[trigger] cols[c] == col_dominant(*matrix, c),
            found@ == grid().take(2 * i).filter(on_outcome(wanted)),
        decreases 2 - i,
    {
        let mut j: usize = 0;
        while j < 2
            invariant
                i < 2,
                j <= 2,
                wanted == dominant_in(*matrix),
                forall|r: int| 0 <= r < 2 ==> #[trigger] rows[r] == row_dominant(*matrix, r),
                forall|c: int| 0 <= c < 2 ==> #[trigger] cols[c] == col_dominant(*matrix, c),
                found@ == grid().take(2 * i + j).filter(on_outcome(wanted)),
            decreases 2 - j,
        {
            proof {
                lemma_selection_step(wanted, i, j);
            }
            if rows[i] && cols[j] {
                found.push((i, j));
            }
            j += 1;
        }
        i += 1;
    }
    proof {
        lemma_outcomes_where_members(wanted);
        lemma_at_most_one_equilibrium(*matrix);
    }
    found
}

} // verus!

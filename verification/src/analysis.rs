//! The three solution concepts of one game, taken together.

use vstd::prelude::*;
use crate::dominance::{dominant_strategy_equilibria, find_dominant_strategy};
use crate::grid::all_on_grid;
use crate::nash::{find_nash_equilibria, nash_equilibria};
use crate::pareto::{find_pareto_efficience, pareto_efficient_outcomes};
use crate::payoff::Matrix;

verus! {

/// What the analysis of a game finds. Each list is in row-major order.
#[derive(Debug)]
pub struct Analysis {
    /// The dominant-strategy equilibria.
    pub dse: Vec<(usize, usize)>,
    /// The Nash equilibria in pure strategies.
    pub nash: Vec<(usize, usize)>,
    /// The Pareto-efficient outcomes.
    pub pareto: Vec<(usize, usize)>,
}

/// The three lists of an `Analysis` as sequences.
pub struct Outcomes {
    pub dse: Seq<(usize, usize)>,
    pub nash: Seq<(usize, usize)>,
    pub pareto: Seq<(usize, usize)>,
}

impl View for Analysis {
    type V = Outcomes;

    open spec fn view(&self) -> Outcomes {
        Outcomes { dse: self.dse@, nash: self.nash@, pareto: self.pareto@ }
    }
}

/// The analysis of the matrix `m`.
pub open spec fn solution(m: Matrix) -> Outcomes {
    Outcomes {
        dse: dominant_strategy_equilibria(m),
        nash: nash_equilibria(m),
        pareto: pareto_efficient_outcomes(m),
    }
}

/// Analyses one game under all three solution concepts.
pub fn analyze(matrix: &Matrix) -> (found: Analysis)
    ensures
        found@ == solution(*matrix),
        all_on_grid(found.dse@),
        all_on_grid(found.nash@),
        all_on_grid(found.pareto@),
{
    Analysis {
        dse: find_dominant_strategy(matrix),
        nash: find_nash_equilibria(matrix),
        pareto: find_pareto_efficience(matrix),
    }
}

/// The analysis depends on the matrix alone: analysing the same matrix
/// again finds the same outcomes in the same order.
pub proof fn lemma_analysis_repeats(m: Matrix, first: Analysis, second: Analysis)
    requires
        first@ == solution(m),
        second@ == solution(m),
    ensures
        first@ == second@,
        first.dse@ == second.dse@,
        first.nash@ == second.nash@,
        first.pareto@ == second.pareto@,
{
}

} // verus!

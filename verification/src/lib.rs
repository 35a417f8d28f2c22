//! Pure-strategy analysis of two-player, two-strategy games in normal form.
//!
//! A game is a 2x2 grid of payoff pairs. The row player picks the row
//! (`a1` or `b1`), the column player picks the column (`a2` or `b2`). For
//! such a game the crate finds the dominant-strategy equilibria, the Nash
//! equilibria and the Pareto-efficient outcomes, and writes them as text.

pub mod analysis;
pub mod dominance;
pub mod grid;
pub mod nash;
pub mod pareto;
pub mod payoff;
pub mod report;

pub use analysis::{analyze, Analysis};
pub use dominance::{dominant_strategies, find_dominant_strategy, FindDSE};
pub use nash::{find_nash_equilibria, is_nash_equilibrium};
pub use pareto::{find_pareto_efficience, is_pareto_dominated, is_pareto_efficient};
pub use payoff::{build_matrix, Game, Matrix, Pref};
pub use report::{
    col_label, decimal_string, format_outcomes, game_report, game_title, header_line,
    outcome_label, outcomes_line, render_report, row_label,
};

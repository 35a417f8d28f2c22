//! Payoff pairs and the 2x2 payoff matrix.

use vstd::prelude::*;

verus! {

/// The payoffs attached to one outcome: first the row player's, then the
/// column player's.
#[derive(Debug, Clone, Copy)]
pub struct Pref(pub i32, pub i32);

/// The payoff matrix of a game, indexed by the row player's strategy and
/// then by the column player's.
pub type Matrix = [[Pref; 2]; 2];

/// A game as it is written down: the four outcomes in row-major order, each
/// as the pair of the row player's and the column player's payoff.
#[derive(Debug, Clone, Copy)]
pub struct Game {
    pub p00: [i32; 2],
    pub p01: [i32; 2],
    pub p10: [i32; 2],
    pub p11: [i32; 2],
}

/// The payoffs at the outcome (`r`, `c`).
pub open spec fn cell(m: Matrix, r: int, c: int) -> Pref {
    m[r][c]
}

/// The row player's payoff at the outcome (`r`, `c`).
pub open spec fn row_payoff(m: Matrix, r: int, c: int) -> int {
    cell(m, r, c).0 as int
}

/// The column player's payoff at the outcome (`r`, `c`).
pub open spec fn col_payoff(m: Matrix, r: int, c: int) -> int {
    cell(m, r, c).1 as int
}

impl Game {
    /// The pair written at position `k` of the row-major order.
    pub open spec fn pair(self, k: int) -> [i32; 2] {
        if k == 0 {
            self.p00
        } else if k == 1 {
            self.p01
        } else if k == 2 {
            self.p10
        } else {
            self.p11
        }
    }

    /// The matrix of the game: the pair at position `2 * r + c` holds the
    /// payoffs of the outcome (`r`, `c`).
    pub open spec fn matrix(self) -> Matrix {
        [
            [Pref(self.p00[0], self.p00[1]), Pref(self.p01[0], self.p01[1])],
            [Pref(self.p10[0], self.p10[1]), Pref(self.p11[0], self.p11[1])],
        ]
    }
}

/// Lays the four pairs of `game` out as a matrix: the pair at position
/// `2 * r + c` becomes the outcome (`r`, `c`).
pub fn build_matrix(game: &Game) -> (m: Matrix)
    ensures
        m == game.matrix(),
        forall|r: int, c: int|
            0 <= r < 2 && 0 <= c < 2 ==> #[trigger] cell(m, r, c) == Pref(
                game.pair(2 * r + c)[0],
                game.pair(2 * r + c)[1],
            ),
{
    [
        [Pref(game.p00[0], game.p00[1]), Pref(game.p01[0], game.p01[1])],
        [Pref(game.p10[0], game.p10[1]), Pref(game.p11[0], game.p11[1])],
    ]
}

} // verus!

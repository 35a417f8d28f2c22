use bimatrix::{
    analyze, build_matrix, dominant_strategies, find_dominant_strategy, find_nash_equilibria,
    find_pareto_efficience, is_nash_equilibrium, is_pareto_dominated, is_pareto_efficient, Game,
    Matrix, Pref,
};

fn matrix_of(p00: [i32; 2], p01: [i32; 2], p10: [i32; 2], p11: [i32; 2]) -> Matrix {
    build_matrix(&Game { p00, p01, p10, p11 })
}

/// Every matrix with payoffs among -1, 0 and 1.
fn small_matrices() -> Vec<Matrix> {
    let values: [i32; 3] = [-1, 0, 1];
    let mut all = Vec::new();
    let mut code: usize = 0;
    while code < 6561 {
        let mut digits: [i32; 8] = [0; 8];
        let mut rest: usize = code;
        for d in digits.iter_mut() {
            *d = values[rest % 3];
            rest /= 3;
        }
        all.push(matrix_of(
            [digits[0], digits[1]],
            [digits[2], digits[3]],
            [digits[4], digits[5]],
            [digits[6], digits[7]],
        ));
        code += 1;
    }
    all
}

fn grid() -> [(usize, usize); 4] {
    [(0, 0), (0, 1), (1, 0), (1, 1)]
}

fn nash_by_definition(m: &Matrix) -> Vec<(usize, usize)> {
    grid().iter()
        .copied()
        .filter(|&(r, c)| {
            m[0][c].0 <= m[r][c].0
                && m[1][c].0 <= m[r][c].0
                && m[r][0].1 <= m[r][c].1
                && m[r][1].1 <= m[r][c].1
        })
        .collect()
}

fn pareto_by_definition(m: &Matrix) -> Vec<(usize, usize)> {
    grid().iter()
        .copied()
        .filter(|&(r, c)| {
            !grid().iter().any(|&(i, j)| m[i][j].0 > m[r][c].0 && m[i][j].1 > m[r][c].1)
        })
        .collect()
}

fn dse_by_definition(m: &Matrix) -> Vec<(usize, usize)> {
    grid().iter()
        .copied()
        .filter(|&(r, c)| {
            m[r][0].0 > m[1 - r][0].0
                && m[r][1].0 > m[1 - r][1].0
                && m[0][c].1 > m[0][1 - c].1
                && m[1][c].1 > m[1][1 - c].1
        })
        .collect()
}

#[test]
fn build_matrix_is_row_major() {
    let m = matrix_of([1, 2], [3, 4], [5, 6], [7, 8]);
    assert_eq!((m[0][0].0, m[0][0].1), (1, 2));
    assert_eq!((m[0][1].0, m[0][1].1), (3, 4));
    assert_eq!((m[1][0].0, m[1][0].1), (5, 6));
    assert_eq!((m[1][1].0, m[1][1].1), (7, 8));
}

#[test]
fn prisoners_dilemma() {
    let m = matrix_of([-1, -1], [-3, 0], [0, -3], [-2, -2]);
    assert_eq!(find_dominant_strategy(&m), vec![(1, 1)]);
    assert_eq!(find_nash_equilibria(&m), vec![(1, 1)]);
    assert_eq!(find_pareto_efficience(&m), vec![(0, 0), (0, 1), (1, 0)]);
    let flags = dominant_strategies(&m);
    assert_eq!((flags.a1, flags.b1, flags.a2, flags.b2), (false, true, false, true));
}

#[test]
fn battle_of_the_sexes() {
    let m = matrix_of([2, 1], [0, 0], [0, 0], [1, 2]);
    assert_eq!(find_dominant_strategy(&m), vec![]);
    assert_eq!(find_nash_equilibria(&m), vec![(0, 0), (1, 1)]);
    assert_eq!(find_pareto_efficience(&m), vec![(0, 0), (1, 1)]);
    let flags = dominant_strategies(&m);
    assert_eq!((flags.a1, flags.b1, flags.a2, flags.b2), (false, false, false, false));
}

#[test]
fn one_dominant_outcome_for_both_players() {
    let m = matrix_of([3, 3], [2, 1], [1, 2], [0, 0]);
    assert_eq!(find_dominant_strategy(&m), vec![(0, 0)]);
    assert_eq!(find_nash_equilibria(&m), vec![(0, 0)]);
    assert_eq!(find_pareto_efficience(&m), vec![(0, 0)]);
    let flags = dominant_strategies(&m);
    assert_eq!((flags.a1, flags.b1, flags.a2, flags.b2), (true, false, true, false));
}

#[test]
fn best_outcome_without_dominant_strategies() {
    // The first row is better against the first column only, and likewise
    // for the columns: nobody has a dominant strategy, and both outcomes on
    // the diagonal are equilibria.
    let m = matrix_of([3, 3], [1, 0], [0, 1], [2, 2]);
    assert_eq!(find_dominant_strategy(&m), vec![]);
    assert_eq!(find_nash_equilibria(&m), vec![(0, 0), (1, 1)]);
    assert_eq!(find_pareto_efficience(&m), vec![(0, 0)]);
}

#[test]
fn matching_pennies_has_no_equilibrium() {
    let m = matrix_of([1, -1], [-1, 1], [-1, 1], [1, -1]);
    assert_eq!(find_dominant_strategy(&m), vec![]);
    assert_eq!(find_nash_equilibria(&m), vec![]);
    assert_eq!(find_pareto_efficience(&m), vec![(0, 0), (0, 1), (1, 0), (1, 1)]);
}

#[test]
fn chicken_game() {
    let m = matrix_of([0, 0], [-1, 1], [1, -1], [-10, -10]);
    assert_eq!(find_dominant_strategy(&m), vec![]);
    assert_eq!(find_nash_equilibria(&m), vec![(0, 1), (1, 0)]);
    assert_eq!(find_pareto_efficience(&m), vec![(0, 0), (0, 1), (1, 0)]);
}

#[test]
fn ties_everywhere() {
    let m = matrix_of([5, 5], [5, 5], [5, 5], [5, 5]);
    assert_eq!(find_dominant_strategy(&m), vec![]);
    assert_eq!(find_nash_equilibria(&m), vec![(0, 0), (0, 1), (1, 0), (1, 1)]);
    assert_eq!(find_pareto_efficience(&m), vec![(0, 0), (0, 1), (1, 0), (1, 1)]);
}

#[test]
fn weak_equilibrium_counts() {
    // The row player is indifferent in the first column.
    let m = matrix_of([1, 1], [0, 0], [1, 0], [0, 1]);
    assert!(is_nash_equilibrium(&m, 0, 0));
    assert!(!is_nash_equilibrium(&m, 1, 0));
    assert!(!is_nash_equilibrium(&m, 0, 1));
    assert!(is_nash_equilibrium(&m, 1, 1));
}

#[test]
fn dominance_needs_both_payoffs_strictly_higher() {
    let a = Pref(1, 1);
    assert!(is_pareto_dominated(&a, &Pref(2, 2)));
    assert!(!is_pareto_dominated(&a, &Pref(1, 2)));
    assert!(!is_pareto_dominated(&a, &Pref(2, 1)));
    assert!(!is_pareto_dominated(&a, &Pref(1, 1)));
    assert!(!is_pareto_dominated(&a, &Pref(0, 5)));
    assert!(!is_pareto_dominated(&Pref(2, 2), &a));
}

#[test]
fn tie_in_one_payoff_excludes_nothing() {
    // (a1, a2) and (a1, b2) pay the row player the same; the first pays the
    // column player more. Neither dominates the other.
    let m = matrix_of([1, 2], [1, 1], [0, 0], [0, 0]);
    assert!(!is_pareto_dominated(&m[0][1], &m[0][0]));
    assert!(!is_pareto_dominated(&m[0][0], &m[0][1]));
    assert!(is_pareto_efficient(&m, 0, 0));
    assert!(is_pareto_efficient(&m, 0, 1));
    assert!(!is_pareto_efficient(&m, 1, 0));
    assert!(!is_pareto_efficient(&m, 1, 1));
    assert_eq!(find_pareto_efficience(&m), vec![(0, 0), (0, 1)]);
}

#[test]
fn dominance_is_strict() {
    // The first row is better against one column and only as good against
    // the other.
    let m = matrix_of([2, 0], [1, 0], [1, 0], [1, 0]);
    let flags = dominant_strategies(&m);
    assert_eq!((flags.a1, flags.b1, flags.a2, flags.b2), (false, false, false, false));
    let m = matrix_of([2, 1], [2, 0], [1, 1], [1, 0]);
    let flags = dominant_strategies(&m);
    assert_eq!((flags.a1, flags.b1, flags.a2, flags.b2), (true, false, true, false));
}

#[test]
fn extreme_payoffs() {
    let m = matrix_of(
        [i32::MAX, i32::MIN],
        [i32::MIN, i32::MAX],
        [i32::MIN, i32::MIN],
        [i32::MAX, i32::MAX],
    );
    assert_eq!(find_nash_equilibria(&m), vec![(1, 1)]);
    assert_eq!(find_pareto_efficience(&m), vec![(0, 0), (0, 1), (1, 1)]);
    assert_eq!(find_dominant_strategy(&m), vec![]);
    let m = matrix_of(
        [i32::MIN, i32::MIN],
        [i32::MIN, i32::MAX],
        [i32::MAX, i32::MIN],
        [i32::MAX, i32::MAX],
    );
    assert_eq!(find_dominant_strategy(&m), vec![(1, 1)]);
}

#[test]
fn nash_equilibria_are_outcomes_in_row_major_order() {
    for m in small_matrices() {
        let found = find_nash_equilibria(&m);
        assert!(found.iter().all(|&(r, c)| r < 2 && c < 2));
        assert!(found.windows(2).all(|w| w[0] < w[1]));
        assert_eq!(found, nash_by_definition(&m));
        assert_eq!(found, find_nash_equilibria(&m));
        for (r, c) in grid() {
            assert_eq!(found.contains(&(r, c)), is_nash_equilibrium(&m, r, c));
        }
    }
}

#[test]
fn pareto_efficient_outcomes_are_the_undominated_ones() {
    for m in small_matrices() {
        let found = find_pareto_efficience(&m);
        assert_eq!(found, pareto_by_definition(&m));
        assert!(!found.is_empty());
        for (r, c) in grid() {
            assert_eq!(found.contains(&(r, c)), is_pareto_efficient(&m, r, c));
        }
    }
}

#[test]
fn dominant_strategy_equilibria_by_definition() {
    for m in small_matrices() {
        let found = find_dominant_strategy(&m);
        assert_eq!(found, dse_by_definition(&m));
        assert!(found.len() <= 1);
        let flags = dominant_strategies(&m);
        assert!(!(flags.a1 && flags.b1));
        assert!(!(flags.a2 && flags.b2));
        for &(r, c) in &found {
            assert!(is_nash_equilibrium(&m, r, c));
        }
    }
}

#[test]
fn swapping_rows_renames_the_dominant_strategies() {
    for m in small_matrices() {
        let swapped = [m[1], m[0]];
        let before = dominant_strategies(&m);
        let after = dominant_strategies(&swapped);
        assert_eq!((after.a1, after.b1, after.a2, after.b2), (before.b1, before.a1, before.a2, before.b2));
        let renamed: Vec<(usize, usize)> =
            find_dominant_strategy(&m).into_iter().map(|(r, c)| (1 - r, c)).collect();
        assert_eq!(find_dominant_strategy(&swapped), renamed);
    }
    let pd = matrix_of([-1, -1], [-3, 0], [0, -3], [-2, -2]);
    assert_eq!(find_dominant_strategy(&[pd[1], pd[0]]), vec![(0, 1)]);
}

#[test]
fn swapping_columns_renames_the_dominant_strategies() {
    for m in small_matrices() {
        let swapped = [[m[0][1], m[0][0]], [m[1][1], m[1][0]]];
        let before = dominant_strategies(&m);
        let after = dominant_strategies(&swapped);
        assert_eq!((after.a1, after.b1, after.a2, after.b2), (before.a1, before.b1, before.b2, before.a2));
        let renamed: Vec<(usize, usize)> =
            find_dominant_strategy(&m).into_iter().map(|(r, c)| (r, 1 - c)).collect();
        assert_eq!(find_dominant_strategy(&swapped), renamed);
    }
}

#[test]
fn analysing_again_finds_the_same() {
    for m in small_matrices() {
        let first = analyze(&m);
        let second = analyze(&m);
        assert_eq!(first.dse, second.dse);
        assert_eq!(first.nash, second.nash);
        assert_eq!(first.pareto, second.pareto);
        assert_eq!(first.dse, find_dominant_strategy(&m));
        assert_eq!(first.nash, find_nash_equilibria(&m));
        assert_eq!(first.pareto, find_pareto_efficience(&m));
    }
}

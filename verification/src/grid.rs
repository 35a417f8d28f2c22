//! The four outcomes of a 2x2 game and selections among them.

use vstd::prelude::*;

verus! {

/// The four outcomes as (row, column), row by row.
pub open spec fn grid() -> Seq<(usize, usize)> {
    seq![(0usize, 0usize), (0usize, 1usize), (1usize, 0usize), (1usize, 1usize)]
}

/// Whether (`r`, `c`) names an outcome of the game.
pub open spec fn on_grid(r: int, c: int) -> bool {
    0 <= r < 2 && 0 <= c < 2
}

/// Every entry of the list names an outcome of the game.
pub open spec fn all_on_grid(outcomes: Seq<(usize, usize)>) -> bool {
    forall|i: int|
        0 <= i < outcomes.len() ==> on_grid(
            (#[trigger] outcomes[i]).0 as int,
            outcomes[i].1 as int,
        )
}

/// A property of outcomes, as a test on the elements of `grid()`.
pub open spec fn on_outcome(wanted: spec_fn(int, int) -> bool) -> spec_fn((usize, usize)) -> bool {
    |o: (usize, usize)| wanted(o.0 as int, o.1 as int)
}

/// The outcomes that have the property `wanted`, in row-major order.
pub open spec fn outcomes_where(wanted: spec_fn(int, int) -> bool) -> Seq<(usize, usize)> {
    grid().filter(on_outcome(wanted))
}

/// The sequence that holds `o` if `kept`, and nothing otherwise.
pub open spec fn only_if(kept: bool, o: (usize, usize)) -> Seq<(usize, usize)> {
    if kept {
        seq![o]
    } else {
        Seq::empty()
    }
}

/// Looking at one more outcome: the selection among the first
/// `2 * r + c + 1` outcomes is the selection among the first `2 * r + c`,
/// followed by (`r`, `c`) if it has the property.
pub proof fn lemma_selection_step(wanted: spec_fn(int, int) -> bool, r: usize, c: usize)
    requires
        on_grid(r as int, c as int),
    ensures
        grid().take(2 * r + c + 1).filter(on_outcome(wanted)) == grid().take(2 * r + c).filter(
            on_outcome(wanted),
        ) + only_if(wanted(r as int, c as int), (r, c)),
{
    let k = 2 * r + c;
    let before = grid().take(k);
    assert(grid().take(k + 1) == before.push((r, c)));
    before.lemma_filter_push((r, c), on_outcome(wanted));
}

/// Among no outcomes nothing is selected, and the first four outcomes are
/// all of them.
pub proof fn lemma_selection_bounds(wanted: spec_fn(int, int) -> bool)
    ensures
        grid().take(0).filter(on_outcome(wanted)) == Seq::<(usize, usize)>::empty(),
        grid().take(4).filter(on_outcome(wanted)) == outcomes_where(wanted),
{
    reveal(Seq::filter);
    assert(grid().take(4) == grid());
}

/// A selection, written out outcome by outcome.
pub proof fn lemma_outcomes_where(wanted: spec_fn(int, int) -> bool)
    ensures
        outcomes_where(wanted) == only_if(wanted(0, 0), (0usize, 0usize)) + only_if(
            wanted(0, 1),
            (0usize, 1usize),
        ) + only_if(wanted(1, 0), (1usize, 0usize)) + only_if(wanted(1, 1), (1usize, 1usize)),
{
    lemma_selection_bounds(wanted);
    lemma_selection_step(wanted, 0, 0);
    lemma_selection_step(wanted, 0, 1);
    lemma_selection_step(wanted, 1, 0);
    lemma_selection_step(wanted, 1, 1);
}

/// A selection holds exactly the outcomes that have the property, each once.
pub proof fn lemma_outcomes_where_members(wanted: spec_fn(int, int) -> bool)
    ensures
        forall|r: usize, c: usize|
            #[trigger] outcomes_where(wanted).contains((r, c)) <==> on_grid(r as int, c as int)
                && wanted(r as int, c as int),
        all_on_grid(outcomes_where(wanted)),
        outcomes_where(wanted).no_duplicates(),
        outcomes_where(wanted).len() <= 4,
{
    lemma_outcomes_where(wanted);
    let s = outcomes_where(wanted);
    assert forall|i: int| 0 <= i < s.len() implies on_grid(s[i].0 as int, s[i].1 as int) by {
        assert(s.contains(s[i]));
    }
    assert forall|r: usize, c: usize| on_grid(r as int, c as int) && wanted(r as int, c as int)
        implies #[trigger] s.contains((r, c)) by {
        grid().lemma_filter_contains(on_outcome(wanted), 2 * r + c);
    }
}

} // verus!

//! The analysis of a list of games as lines of text.
//!
//! Each game gives five lines: a header with the game's number, the
//! dominant-strategy equilibria, the Nash equilibria, the Pareto-efficient
//! outcomes, and an empty line. An outcome is written by the names of the
//! two strategies, `(a1, b2)`; a list without outcomes is written `None`.

use vstd::prelude::*;
use crate::analysis::{analyze, solution, Outcomes};
use crate::grid::all_on_grid;
use crate::payoff::{build_matrix, Game};

verus! {

/// The name of the row player's strategy `r`.
pub open spec fn row_name(r: int) -> Seq<char> {
    if r == 0 {
        "a1"@
    } else {
        "b1"@
    }
}

/// The name of the column player's strategy `c`.
pub open spec fn col_name(c: int) -> Seq<char> {
    if c == 0 {
        "a2"@
    } else {
        "b2"@
    }
}

/// An outcome, written by the names of its two strategies.
pub open spec fn outcome_text(o: (usize, usize)) -> Seq<char> {
    "("@ + row_name(o.0 as int) + ", "@ + col_name(o.1 as int) + ")"@
}

/// The outcomes of a list that is not empty, separated by a comma and a
/// space.
pub open spec fn joined(outcomes: Seq<(usize, usize)>) -> Seq<char>
    decreases outcomes.len(),
{
    if outcomes.len() == 0 {
        Seq::empty()
    } else if outcomes.len() == 1 {
        outcome_text(outcomes[0])
    } else {
        joined(outcomes.drop_last()) + ", "@ + outcome_text(outcomes.last())
    }
}

/// A list of outcomes as text: `None` where it is empty.
pub open spec fn outcomes_text(outcomes: Seq<(usize, usize)>) -> Seq<char> {
    if outcomes.len() == 0 {
        "None"@
    } else {
        joined(outcomes)
    }
}

/// The decimal digit `d` as a character.
pub open spec fn digit_char(d: int) -> char {
    if d == 0 {
        '0'
    } else if d == 1 {
        '1'
    } else if d == 2 {
        '2'
    } else if d == 3 {
        '3'
    } else if d == 4 {
        '4'
    } else if d == 5 {
        '5'
    } else if d == 6 {
        '6'
    } else if d == 7 {
        '7'
    } else if d == 8 {
        '8'
    } else {
        '9'
    }
}

/// The number `n` in decimal, without leading zeros.
pub open spec fn decimal(n: nat) -> Seq<char>
    decreases n,
{
    if n < 10 {
        seq![digit_char(n as int)]
    } else {
        decimal(n / 10).push(digit_char((n % 10) as int))
    }
}

/// The title that the game with the number `number` is known by, if any.
pub open spec fn known_title(number: int) -> Option<Seq<char>> {
    if number == 9 {
        Some("The Gift of the Magi"@)
    } else if number == 12 {
        Some("Prisoners' dilemma"@)
    } else if number == 66 {
        Some("Chicken game"@)
    } else if number == 69 {
        Some("Battle of the sexes"@)
    } else {
        None
    }
}

/// A title as a sequence of characters.
pub open spec fn title_text(title: Option<&str>) -> Option<Seq<char>> {
    match title {
        Some(t) => Some(t@),
        None => None,
    }
}

/// The header of the game with the number `number`, with its title in
/// parentheses if it has one.
pub open spec fn header_text(number: nat, title: Option<Seq<char>>) -> Seq<char> {
    match title {
        Some(t) => "--- Game "@ + decimal(number) + " ("@ + t + ")"@ + " ---"@,
        None => "--- Game "@ + decimal(number) + " ---"@,
    }
}

/// The five lines of one game.
pub open spec fn game_lines(number: nat, title: Option<Seq<char>>, found: Outcomes) -> Seq<
    Seq<char>,
> {
    seq![
        header_text(number, title),
        "  DSE: "@ + outcomes_text(found.dse),
        "  Nash equilibria: "@ + outcomes_text(found.nash),
        "  Pareto efficient outcomes: "@ + outcomes_text(found.pareto),
        Seq::empty(),
    ]
}

/// The lines of a list of games: those of each game in turn, the games
/// numbered from 1 and titled by `known_title`.
pub open spec fn report_text(games: Seq<Game>) -> Seq<Seq<char>>
    decreases games.len(),
{
    if games.len() == 0 {
        Seq::empty()
    } else {
        report_text(games.drop_last()) + game_lines(
            games.len(),
            known_title(games.len() as int),
            solution(games.last().matrix()),
        )
    }
}

/// What each of a list of strings holds.
pub open spec fn texts(lines: Seq<String>) -> Seq<Seq<char>> {
    lines.map_values(|line: String| line@)
}

/// A list without outcomes is written `None`, on each of the three lines
/// that hold a list.
pub proof fn lemma_empty_list_is_none(number: nat, title: Option<Seq<char>>, found: Outcomes)
    ensures
        found.dse.len() == 0 ==> game_lines(number, title, found)[1] == "  DSE: "@ + "None"@,
        found.nash.len() == 0 ==> game_lines(number, title, found)[2] == "  Nash equilibria: "@
            + "None"@,
        found.pareto.len() == 0 ==> game_lines(number, title, found)[3]
            == "  Pareto efficient outcomes: "@ + "None"@,
{
}

/// The report has five lines for each game, and line `j` of the game at
/// position `g` is line `j` of that game's own five, under the number
/// `g + 1`.
pub proof fn lemma_report_lines(games: Seq<Game>, g: int, j: int)
    requires
        0 <= g < games.len(),
        0 <= j < 5,
    ensures
        report_text(games).len() == 5 * games.len(),
        report_text(games)[5 * g + j] == game_lines(
            (g + 1) as nat,
            known_title(g + 1),
            solution(games[g].matrix()),
        )[j],
    decreases games.len(),
{
    lemma_report_length(games);
    lemma_report_length(games.drop_last());
    if g < games.len() - 1 {
        lemma_report_lines(games.drop_last(), g, j);
    }
}

/// The report has five lines for each game.
pub proof fn lemma_report_length(games: Seq<Game>)
    ensures
        report_text(games).len() == 5 * games.len(),
    decreases games.len(),
{
    if games.len() > 0 {
        lemma_report_length(games.drop_last());
    }
}

/// The name of the row player's strategy: `a1` for row 0, `b1` for row 1.
pub fn row_label(row: usize) -> (name: &'static str)
    requires
        row < 2,
    ensures
        name@ == row_name(row as int),
{
    if row == 0 {
        "a1"
    } else {
        "b1"
    }
}

/// The name of the column player's strategy: `a2` for column 0, `b2` for
/// column 1.
pub fn col_label(col: usize) -> (name: &'static str)
    requires
        col < 2,
    ensures
        name@ == col_name(col as int),
{
    if col == 0 {
        "a2"
    } else {
        "b2"
    }
}

/// Writes the outcome (`row`, `col`) by the names of its strategies.
pub fn outcome_label(row: usize, col: usize) -> (label: String)
    requires
        row < 2,
        col < 2,
    ensures
        label@ == outcome_text((row, col)),
{
    let mut label = String::from_str("(");
    label.append(row_label(row));
    label.append(", ");
    label.append(col_label(col));
    label.append(")");
    label
}

/// Writes a list of outcomes: `None` where there is none, else the
/// outcomes in their order, separated by a comma and a space.
pub fn format_outcomes(outcomes: &Vec<(usize, usize)>) -> (text: String)
    requires
        all_on_grid(outcomes@),
    ensures
        text@ == outcomes_text(outcomes@),
        outcomes.len() == 0 ==> text@ == "None"@,
{
    if outcomes.len() == 0 {
        return String::from_str("None");
    }
    let first = outcomes[0];
    let mut text = outcome_label(first.0, first.1);
    let mut k: usize = 1;
    assert(outcomes@.take(1)[0] == outcomes@[0]);
    while k < outcomes.len()
        invariant
            1 <= k <= outcomes.len(),
            all_on_grid(outcomes@),
            text@ == joined(outcomes@.take(k as int)),
        decreases outcomes.len() - k,
    {
        let next = outcomes[k];
        let label = outcome_label(next.0, next.1);
        text.append(", ");
        text.append(label.as_str());
        proof {
            let upto = outcomes@.take(k + 1);
            assert(upto.drop_last() == outcomes@.take(k as int));
            assert(upto.last() == outcomes@[k as int]);
        }
        k += 1;
    }
    assert(outcomes@.take(outcomes.len() as int) == outcomes@);
    text
}

/// The decimal digit `d` as a string of one character.
fn digit_str(d: usize) -> (text: &'static str)
    requires
        d < 10,
    ensures
        text@ == seq![digit_char(d as int)],
{
    proof {
        reveal_strlit("0");
        reveal_strlit("1");
        reveal_strlit("2");
        reveal_strlit("3");
        reveal_strlit("4");
        reveal_strlit("5");
        reveal_strlit("6");
        reveal_strlit("7");
        reveal_strlit("8");
        reveal_strlit("9");
    }
    let text = if d == 0 {
        "0"
    } else if d == 1 {
        "1"
    } else if d == 2 {
        "2"
    } else if d == 3 {
        "3"
    } else if d == 4 {
        "4"
    } else if d == 5 {
        "5"
    } else if d == 6 {
        "6"
    } else if d == 7 {
        "7"
    } else if d == 8 {
        "8"
    } else {
        "9"
    };
    assert(text@ =~= seq![digit_char(d as int)]);
    text
}

/// Writes `n` in decimal.
pub fn decimal_string(n: usize) -> (text: String)
    ensures
        text@ == decimal(n as nat),
    decreases n,
{
    if n < 10 {
        String::from_str(digit_str(n))
    } else {
        let mut text = decimal_string(n / 10);
        text.append(digit_str(n % 10));
        assert(text@ =~= decimal(n as nat));
        text
    }
}

/// The title that a game is known by: the games with the numbers 9, 12, 66
/// and 69 have one.
pub fn game_title(number: usize) -> (title: Option<&'static str>)
    ensures
        title_text(title) == known_title(number as int),
{
    if number == 9 {
        Some("The Gift of the Magi")
    } else if number == 12 {
        Some("Prisoners' dilemma")
    } else if number == 66 {
        Some("Chicken game")
    } else if number == 69 {
        Some("Battle of the sexes")
    } else {
        None
    }
}

/// Writes the header of the game with the number `number`, with `title` in
/// parentheses if there is one.
pub fn header_line(number: usize, title: Option<&str>) -> (line: String)
    ensures
        line@ == header_text(number as nat, title_text(title)),
{
    let mut line = String::from_str("--- Game ");
    let digits = decimal_string(number);
    line.append(digits.as_str());
    match title {
        Some(t) => {
            line.append(" (");
            line.append(t);
            line.append(")");
        },
        None => {},
    }
    line.append(" ---");
    line
}

/// Writes one line that holds a list of outcomes: `prefix`, then the list.
pub fn outcomes_line(prefix: &str, outcomes: &Vec<(usize, usize)>) -> (line: String)
    requires
        all_on_grid(outcomes@),
    ensures
        line@ == prefix@ + outcomes_text(outcomes@),
{
    let mut line = String::from_str(prefix);
    let list = format_outcomes(outcomes);
    line.append(list.as_str());
    line
}

/// Analyses `game` and adds its five lines to `lines`.
fn push_game_lines(lines: &mut Vec<String>, number: usize, title: Option<&str>, game: &Game)
    ensures
        texts(final(lines)@) == texts(old(lines)@) + game_lines(
            number as nat,
            title_text(title),
            solution(game.matrix()),
        ),
{
    let ghost before = texts(lines@);
    let ghost expected = game_lines(number as nat, title_text(title), solution(game.matrix()));
    let matrix = build_matrix(game);
    let found = analyze(&matrix);
    lines.push(header_line(number, title));
    lines.push(outcomes_line("  DSE: ", &found.dse));
    lines.push(outcomes_line("  Nash equilibria: ", &found.nash));
    lines.push(outcomes_line("  Pareto efficient outcomes: ", &found.pareto));
    lines.push(String::new());
    assert(texts(lines@) =~= before + expected);
}

/// Analyses one game and writes its five lines, under the number `number`
/// and the title `title`.
pub fn game_report(number: usize, title: Option<&str>, game: &Game) -> (lines: Vec<String>)
    ensures
        texts(lines@) == game_lines(number as nat, title_text(title), solution(game.matrix())),
{
    let mut lines: Vec<String> = Vec::new();
    push_game_lines(&mut lines, number, title, game);
    assert(texts(Seq::<String>::empty()) =~= Seq::<Seq<char>>::empty());
    lines
}

/// Analyses the games in their order and writes the lines of all of them.
/// The games are numbered from 1 and titled by `game_title`.
pub fn render_report(games: &Vec<Game>) -> (lines: Vec<String>)
    ensures
        texts(lines@) == report_text(games@),
        lines.len() == 5 * games.len(),
{
    let mut lines: Vec<String> = Vec::new();
    let mut i: usize = 0;
    assert(texts(lines@) =~= report_text(games@.take(0)));
    while i < games.len()
        invariant
            i <= games.len(),
            texts(lines@) == report_text(games@.take(i as int)),
        decreases games.len() - i,
    {
        let number: usize = i + 1;
        push_game_lines(&mut lines, number, game_title(number), &games[i]);
        proof {
            let upto = games@.take(i + 1);
            assert(upto.drop_last() == games@.take(i as int));
            assert(upto.last() == games@[i as int]);
        }
        i += 1;
    }
    proof {
        assert(games@.take(games.len() as int) == games@);
        lemma_report_length(games@);
    }
    lines
}

} // verus!

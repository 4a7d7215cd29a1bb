//! The decision phase of a dilemma: the lever actions bound to the options, the size
//! estimates of the option windows, and the consequence the decision locks in.
use vstd::prelude::*;

use crate::dilemma::DilemmaStage;
use crate::lever::{clamp_state, lever_index, normalized_count, Lever};
use crate::stats::DilemmaOptionConsequences;
use crate::text::{split_chars, split_on};

verus! {

/// The lever actions: one per option, for the first nine options.
#[derive(Debug, Clone, Copy, PartialEq, Eq, Hash, Structural)]
pub enum LeverActions {
    SelectOption1,
    SelectOption2,
    SelectOption3,
    SelectOption4,
    SelectOption5,
    SelectOption6,
    SelectOption7,
    SelectOption8,
    SelectOption9,
}

/// The action that selects option `index`, for the first nine options.
pub open spec fn lever_action_spec(index: int) -> Option<LeverActions> {
    if index == 0 { Some(LeverActions::SelectOption1) }
    else if index == 1 { Some(LeverActions::SelectOption2) }
    else if index == 2 { Some(LeverActions::SelectOption3) }
    else if index == 3 { Some(LeverActions::SelectOption4) }
    else if index == 4 { Some(LeverActions::SelectOption5) }
    else if index == 5 { Some(LeverActions::SelectOption6) }
    else if index == 6 { Some(LeverActions::SelectOption7) }
    else if index == 7 { Some(LeverActions::SelectOption8) }
    else if index == 8 { Some(LeverActions::SelectOption9) }
    else { None }
}

pub fn lever_action_for_option(option_index: usize) -> (r: Option<LeverActions>)
    ensures
        r == lever_action_spec(option_index as int),
{
    match option_index {
        0 => Some(LeverActions::SelectOption1),
        1 => Some(LeverActions::SelectOption2),
        2 => Some(LeverActions::SelectOption3),
        3 => Some(LeverActions::SelectOption4),
        4 => Some(LeverActions::SelectOption5),
        5 => Some(LeverActions::SelectOption6),
        6 => Some(LeverActions::SelectOption7),
        7 => Some(LeverActions::SelectOption8),
        8 => Some(LeverActions::SelectOption9),
        _ => None,
    }
}

/// The actions that clicks on the lever step through: one per option that has an action, in
/// option order.
pub fn lever_click_pong_actions(option_count: usize) -> (r: Vec<Vec<LeverActions>>)
    ensures
        r@.len() == if option_count < 9 { option_count as int } else { 9 },
        forall|i: int| 0 <= i < r@.len() ==> #[trigger] r@[i]@ == seq![lever_action_spec(i)->0],
{
    let mut r: Vec<Vec<LeverActions>> = Vec::new();
    let mut i: usize = 0;
    while i < option_count
        invariant
            i <= option_count,
            r@.len() == if i < 9 { i as int } else { 9 },
            forall|k: int| 0 <= k < r@.len() ==> #[trigger] r@[k]@ == seq![lever_action_spec(k)->0],
        decreases option_count - i,
    {
        match lever_action_for_option(i) {
            Some(action) => {
                let mut step: Vec<LeverActions> = Vec::new();
                step.push(action);
                assert(step@ =~= seq![lever_action_spec(i as int)->0]);
                r.push(step);
            },
            None => {},
        }
        i = i + 1;
    }
    r
}

/// How many characters an option window fits on a line.
pub const OPTION_WINDOW_CHARS_PER_LINE_ESTIMATE: usize = 42;

/// The lines of `s` as `str::lines` gives them: split at each newline, without an empty last
/// line after a final newline, and with the carriage return of a `\r\n` ending removed.
pub open spec fn text_lines(s: Seq<char>) -> Seq<Seq<char>> {
    let pieces = split_on(s, '\n');
    let kept = if pieces.last().len() == 0 { pieces.drop_last() } else { pieces };
    Seq::new(kept.len(), |i: int|
        if i < pieces.len() - 1 && kept[i].len() > 0 && kept[i].last() == '\r' { kept[i].drop_last() } else { kept[i] })
}

/// The rows a line of `n` characters takes, wrapped at the estimate; an empty line takes one.
pub open spec fn wrapped_rows(n: int) -> int {
    let chars = if n < 1 { 1 } else { n };
    (chars + OPTION_WINDOW_CHARS_PER_LINE_ESTIMATE - 1) / (OPTION_WINDOW_CHARS_PER_LINE_ESTIMATE as int)
}

/// The rows of the first `k` lines.
pub open spec fn rows_of(lines: Seq<Seq<char>>, k: int) -> int
    decreases k,
{
    if k <= 0 { 0 } else { rows_of(lines, k - 1) + wrapped_rows(lines[k - 1].len() as int) }
}

/// The estimated number of rows `text` takes in an option window, at least one.
pub open spec fn estimated_rows(text: Seq<char>) -> int {
    let lines = text_lines(text);
    let rows = rows_of(lines, lines.len() as int);
    if rows < 1 { 1 } else { rows }
}

/// The characters of the first `k` pieces, with one separator after each.
pub open spec fn pieces_total(pieces: Seq<Seq<char>>, k: int) -> int
    decreases k,
{
    if k <= 0 { 0 } else { pieces_total(pieces, k - 1) + pieces[k - 1].len() + 1 }
}

proof fn lemma_pieces_total_same_lengths(p: Seq<Seq<char>>, q: Seq<Seq<char>>, k: int)
    requires
        0 <= k <= p.len(),
        k <= q.len(),
        forall|i: int| 0 <= i < k ==> #[trigger] p[i].len() == q[i].len(),
    ensures
        pieces_total(p, k) == pieces_total(q, k),
    decreases k,
{
    if k > 0 {
        lemma_pieces_total_same_lengths(p, q, k - 1);
    }
}

/// Splitting loses nothing: the pieces and their separators add up to the text and one more.
proof fn lemma_split_total(s: Seq<char>, sep: char)
    ensures
        pieces_total(split_on(s, sep), split_on(s, sep).len() as int) == s.len() + 1,
    decreases s.len(),
{
    crate::text::lemma_split_on_nonempty(s, sep);
    if s.len() == 0 {
        assert(pieces_total(split_on(s, sep), 0) == 0);
    } else {
        let prev = split_on(s.drop_last(), sep);
        lemma_split_total(s.drop_last(), sep);
        crate::text::lemma_split_on_nonempty(s.drop_last(), sep);
        let cur = split_on(s, sep);
        let n = prev.len() as int;
        if s.last() == sep {
            assert(cur == prev.push(Seq::<char>::empty()));
            lemma_pieces_total_same_lengths(cur, prev, n);
            assert(pieces_total(cur, n + 1) == pieces_total(cur, n) + cur[n].len() + 1);
        } else {
            assert(cur == prev.update(n - 1, prev.last().push(s.last())));
            lemma_pieces_total_same_lengths(cur, prev, n - 1);
            assert(pieces_total(cur, n) == pieces_total(cur, n - 1) + cur[n - 1].len() + 1);
            assert(pieces_total(prev, n) == pieces_total(prev, n - 1) + prev[n - 1].len() + 1);
        }
    }
}

proof fn lemma_rows_within_pieces(lines: Seq<Seq<char>>, pieces: Seq<Seq<char>>, k: int)
    requires
        0 <= k <= lines.len(),
        k <= pieces.len(),
        forall|i: int| 0 <= i < k ==> #[trigger] lines[i].len() <= pieces[i].len(),
    ensures
        0 <= rows_of(lines, k) <= pieces_total(pieces, k),
    decreases k,
{
    if k > 0 {
        lemma_rows_within_pieces(lines, pieces, k - 1);
        let n = lines[k - 1].len() as int;
        assert(wrapped_rows(n) <= n + 1) by {
            let chars = if n < 1 { 1 } else { n };
            assert((chars + 41) / 42 <= chars) by (nonlinear_arith)
                requires chars >= 1;
        }
        assert(wrapped_rows(n) >= 1) by {
            let chars = if n < 1 { 1 } else { n };
            assert((chars + 41) / 42 >= 1) by (nonlinear_arith)
                requires chars >= 1;
        }
    }
}

proof fn lemma_pieces_total_monotone(pieces: Seq<Seq<char>>, j: int, k: int)
    requires
        0 <= j <= k <= pieces.len(),
    ensures
        pieces_total(pieces, j) <= pieces_total(pieces, k),
    decreases k - j,
{
    if j < k {
        lemma_pieces_total_monotone(pieces, j, k - 1);
    }
}

fn wrapped_rows_exec(n: usize) -> (r: usize)
    ensures
        r == wrapped_rows(n as int),
{
    let chars = if n < 1 { 1 } else { n };
    chars / OPTION_WINDOW_CHARS_PER_LINE_ESTIMATE + if chars % OPTION_WINDOW_CHARS_PER_LINE_ESTIMATE == 0 { 0 } else { 1 }
}

/// How many rows `text` takes in an option window: each line wrapped at the estimated width,
/// an empty line taking one row, and at least one row in all.
pub fn estimate_wrapped_lines(text: &str) -> (r: usize)
    requires
        text@.len() < usize::MAX,
    ensures
        r == estimated_rows(text@),
{
    let chars = crate::text::chars_of(text);
    let pieces = split_chars(&chars, '\n');
    let ghost pv = split_on(text@, '\n');
    proof {
        crate::text::lemma_split_on_nonempty(text@, '\n');
        lemma_split_total(text@, '\n');
    }
    assert(pieces@.len() == pv.len());
    let n = pieces.len();
    let kept = if pieces[n - 1].len() == 0 { n - 1 } else { n };
    assert(crate::text::views_of(pieces@)[n - 1] == pieces@[n - 1]@);
    let ghost lines = text_lines(text@);
    assert(lines.len() == kept);
    let mut rows: usize = 0;
    let mut i: usize = 0;
    while i < kept
        invariant
            kept <= n,
            n == pieces@.len(),
            n == pv.len(),
            pv == crate::text::views_of(pieces@),
            lines == text_lines(text@),
            lines.len() == kept,
            pv == split_on(text@, '\n'),
            pieces_total(pv, n as int) == text@.len() + 1,
            text@.len() < usize::MAX,
            i <= kept,
            rows == rows_of(lines, i as int),
            forall|q: int| 0 <= q < kept ==> #[trigger] lines[q].len() <= pv[q].len(),
        decreases kept - i,
    {
        assert(pv[i as int] == pieces@[i as int]@);
        let piece = &pieces[i];
        let len = piece.len();
        let line_len = if i < n - 1 && len > 0 && piece[len - 1] == '\r' { len - 1 } else { len };
        assert(line_len == lines[i as int].len());
        proof {
            lemma_rows_within_pieces(lines, pv, i + 1);
            lemma_pieces_total_monotone(pv, i + 1, n as int);
        }
        rows = rows + wrapped_rows_exec(line_len);
        i = i + 1;
    }
    if rows < 1 { 1 } else { rows }
}

/// The consequence a decision locks in: that of the option the lever points at, else the
/// stage's default option, when the stage has that option.
pub open spec fn locked_option(lever: Lever, stage_options: int, default_option: Option<usize>) -> Option<int> {
    let chosen = match lever_index(clamp_state(lever.0, normalized_count(lever.1))) {
        Some(i) => Some(i),
        None => default_option,
    };
    match chosen {
        Some(i) => if i < stage_options { Some(i as int) } else { None },
        None => None,
    }
}

pub fn locked_consequence(lever: &Lever, stage: &DilemmaStage) -> (r: Option<DilemmaOptionConsequences>)
    ensures
        r == match locked_option(*lever, stage.options@.len() as int, stage.default_option) {
            Some(i) => Some(stage.options@[i].consequences),
            None => None,
        },
{
    let chosen = match lever.selected_index() {
        Some(i) => Some(i),
        None => stage.default_option,
    };
    match chosen {
        Some(i) => if i < stage.options.len() { Some(stage.options[i].consequences) } else { None },
        None => None,
    }
}

} // verus!

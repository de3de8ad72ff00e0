//! Clue derivation: run-length encoding of consecutive filled cells in a line.

use vstd::prelude::*;
use crate::cell::CellState;

verus! {

/// Whether a cell counts as filled. `Crossed` and `Empty` are both
/// "not filled".
pub open spec fn is_filled(c: CellState) -> bool {
    c is Filled
}

/// The run lengths of consecutive filled cells in `line[i..]`, given that a
/// run of `count` filled cells ends immediately before position `i`.
pub open spec fn runs_from(line: Seq<CellState>, i: int, count: nat) -> Seq<nat>
    decreases line.len() - i,
{
    if i >= line.len() {
        if count > 0 {
            seq![count]
        } else {
            Seq::<nat>::empty()
        }
    } else if is_filled(line[i]) {
        runs_from(line, i + 1, count + 1)
    } else if count > 0 {
        seq![count] + runs_from(line, i + 1, 0)
    } else {
        runs_from(line, i + 1, 0)
    }
}

/// The clue sequence of a line: the run lengths of its maximal groups of
/// consecutive filled cells, in scan order; a line with no filled cell has
/// the single-element sequence [0], never the empty sequence.
pub open spec fn line_clues(line: Seq<CellState>) -> Seq<nat> {
    if runs_from(line, 0, 0).len() == 0 {
        seq![0nat]
    } else {
        runs_from(line, 0, 0)
    }
}

/// The number of filled cells in `line[i..]`.
pub open spec fn filled_from(line: Seq<CellState>, i: int) -> nat
    decreases line.len() - i,
{
    if i >= line.len() {
        0
    } else if is_filled(line[i]) {
        1 + filled_from(line, i + 1)
    } else {
        filled_from(line, i + 1)
    }
}

/// The number of filled cells in a line.
pub open spec fn count_filled(line: Seq<CellState>) -> nat {
    filled_from(line, 0)
}

/// The sum of a sequence of naturals.
pub open spec fn seq_sum(s: Seq<nat>) -> nat
    decreases s.len(),
{
    if s.len() == 0 {
        0
    } else {
        s[0] + seq_sum(s.drop_first())
    }
}

/// The clue values a renderer reads, seen as mathematical naturals.
pub open spec fn clue_view(v: Seq<usize>) -> Seq<nat> {
    v.map_values(|x: usize| x as nat)
}

proof fn lemma_clue_view_push(s: Seq<usize>, x: usize)
    ensures
        clue_view(s.push(x)) == clue_view(s).push(x as nat),
{
    assert(clue_view(s.push(x)) =~= clue_view(s).push(x as nat));
}

/// Compute the clue values of one line: scan in index order, append each
/// maximal run of consecutive filled cells, and append 0 if the line holds
/// no filled cell at all.
pub fn line_clue_values(line: &Vec<CellState>) -> (v: Vec<usize>)
    ensures
        clue_view(v@) == line_clues(line@),
{
    let n = line.len();
    let mut v: Vec<usize> = Vec::new();
    let mut count: usize = 0;
    let mut j: usize = 0;
    proof {
        assert(clue_view(v@) =~= Seq::<nat>::empty());
        assert(runs_from(line@, 0, 0) =~= clue_view(v@) + runs_from(line@, 0, 0));
    }
    while j < n
        invariant
            j <= n,
            n == line@.len(),
            count <= j,
            runs_from(line@, 0, 0) == clue_view(v@) + runs_from(line@, j as int, count as nat),
        decreases n - j,
    {
        if line[j] == CellState::Filled {
            proof {
                assert(runs_from(line@, j as int, count as nat) == runs_from(
                    line@,
                    j + 1,
                    (count + 1) as nat,
                ));
            }
            count = count + 1;
        } else if count > 0 {
            proof {
                assert(runs_from(line@, j as int, count as nat) == seq![count as nat]
                    + runs_from(line@, j + 1, 0));
                lemma_clue_view_push(v@, count);
                assert(clue_view(v@).push(count as nat) + runs_from(line@, j + 1, 0) =~= clue_view(
                    v@,
                ) + (seq![count as nat] + runs_from(line@, j + 1, 0)));
            }
            v.push(count);
            count = 0;
        } else {
            proof {
                assert(runs_from(line@, j as int, count as nat) == runs_from(line@, j + 1, 0));
            }
        }
        j = j + 1;
    }
    if count > 0 {
        proof {
            assert(runs_from(line@, n as int, count as nat) == seq![count as nat]);
            lemma_clue_view_push(v@, count);
            assert(clue_view(v@).push(count as nat) =~= clue_view(v@) + seq![count as nat]);
        }
        v.push(count);
    } else {
        proof {
            assert(runs_from(line@, n as int, count as nat) =~= Seq::<nat>::empty());
            assert(clue_view(v@) + Seq::<nat>::empty() =~= clue_view(v@));
        }
    }
    if v.len() == 0 {
        proof {
            assert(clue_view(v@).len() == 0);
            assert(line_clues(line@) == seq![0nat]);
        }
        v.push(0);
        proof {
            lemma_clue_view_push(Seq::<usize>::empty(), 0);
            assert(clue_view(v@) =~= seq![0nat]);
        }
    }
    v
}

proof fn lemma_sum_singleton(k: nat)
    ensures
        seq_sum(seq![k]) == k,
{
    assert(seq![k].drop_first() =~= Seq::<nat>::empty());
    assert(seq_sum(Seq::<nat>::empty()) == 0);
    assert(seq![k][0] == k);
    assert(seq_sum(seq![k]) == seq![k][0] + seq_sum(seq![k].drop_first()));
}

proof fn lemma_sum_cons(k: nat, s: Seq<nat>)
    ensures
        seq_sum(seq![k] + s) == k + seq_sum(s),
{
    assert((seq![k] + s).drop_first() =~= s);
    assert((seq![k] + s)[0] == k);
    assert((seq![k] + s).len() == 1 + s.len());
}

proof fn lemma_runs_sum_from(line: Seq<CellState>, i: int, count: nat)
    ensures
        seq_sum(runs_from(line, i, count)) == count + filled_from(line, i),
    decreases line.len() - i,
{
    if i >= line.len() {
        if count > 0 {
            lemma_sum_singleton(count);
        }
    } else if is_filled(line[i]) {
        lemma_runs_sum_from(line, i + 1, count + 1);
    } else if count > 0 {
        lemma_runs_sum_from(line, i + 1, 0);
        lemma_sum_cons(count, runs_from(line, i + 1, 0));
    } else {
        lemma_runs_sum_from(line, i + 1, 0);
    }
}

/// Law: the sum of a line's clue sequence (with [0] summing to 0) equals the
/// number of filled cells in that line.
pub proof fn lemma_clue_sum(line: Seq<CellState>)
    ensures
        seq_sum(line_clues(line)) == count_filled(line),
{
    lemma_runs_sum_from(line, 0, 0);
    if runs_from(line, 0, 0).len() == 0 {
        lemma_sum_singleton(0);
    }
}

proof fn lemma_no_filled_runs(line: Seq<CellState>, i: int)
    requires
        filled_from(line, i) == 0,
    ensures
        runs_from(line, i, 0) == Seq::<nat>::empty(),
    decreases line.len() - i,
{
    if i < line.len() {
        lemma_no_filled_runs(line, i + 1);
    }
}

/// Law: a line with no filled cell has the clue sequence [0], never the empty
/// sequence.
pub proof fn lemma_empty_line_clues(line: Seq<CellState>)
    requires
        count_filled(line) == 0,
    ensures
        line_clues(line) == seq![0nat],
{
    lemma_no_filled_runs(line, 0);
}

} // verus!

//! Cell states and the toggle transition table.

use vstd::prelude::*;

verus! {

/// The state of one grid cell. `Crossed` is a player-only annotation meaning
/// "I have deduced this cell is empty"; it carries no solution semantics and
/// never appears in a solution grid.
#[derive(PartialEq, Eq, Structural, Clone, Copy, Debug)]
pub enum CellState {
    Empty,
    Filled,
    Crossed,
}

/// The two disjoint player input actions that drive cell transitions.
#[derive(PartialEq, Eq, Structural, Clone, Copy, Debug)]
pub enum ToggleAction {
    PrimaryToggle,
    SecondaryToggle,
}

/// The cell transition table:
///
/// | current | PrimaryToggle | SecondaryToggle |
/// |---------|---------------|-----------------|
/// | Empty   | Filled        | Crossed         |
/// | Filled  | Empty         | Crossed         |
/// | Crossed | Filled        | Empty           |
pub open spec fn toggled(c: CellState, a: ToggleAction) -> CellState {
    match a {
        ToggleAction::PrimaryToggle => match c {
            CellState::Empty => CellState::Filled,
            CellState::Filled => CellState::Empty,
            CellState::Crossed => CellState::Filled,
        },
        ToggleAction::SecondaryToggle => match c {
            CellState::Empty => CellState::Crossed,
            CellState::Filled => CellState::Crossed,
            CellState::Crossed => CellState::Empty,
        },
    }
}

/// The cell state after applying `a` to `c` a total of `n` times.
pub open spec fn toggled_n(c: CellState, a: ToggleAction, n: nat) -> CellState
    decreases n,
{
    if n == 0 {
        c
    } else {
        toggled(toggled_n(c, a, (n - 1) as nat), a)
    }
}

impl CellState {
    /// Apply one toggle action to this cell state, following the transition
    /// table.
    pub fn toggle(self, a: ToggleAction) -> (r: CellState)
        ensures
            r == toggled(self, a),
    {
        match a {
            ToggleAction::PrimaryToggle => match self {
                CellState::Empty => CellState::Filled,
                CellState::Filled => CellState::Empty,
                CellState::Crossed => CellState::Filled,
            },
            ToggleAction::SecondaryToggle => match self {
                CellState::Empty => CellState::Crossed,
                CellState::Filled => CellState::Crossed,
                CellState::Crossed => CellState::Empty,
            },
        }
    }
}

/// Law: starting from `Empty`, repeated primary toggles alternate the cell
/// between `Empty` (after an even number of calls) and `Filled` (after an odd
/// number), and a single primary toggle on a `Crossed` cell yields `Filled`.
pub proof fn lemma_primary_toggle_cycle(n: nat)
    ensures
        toggled_n(CellState::Empty, ToggleAction::PrimaryToggle, n) == (if n % 2 == 0 {
            CellState::Empty
        } else {
            CellState::Filled
        }),
        toggled(CellState::Crossed, ToggleAction::PrimaryToggle) == CellState::Filled,
    decreases n,
{
    if n > 0 {
        lemma_primary_toggle_cycle((n - 1) as nat);
    }
}

/// Law: starting from `Empty`, repeated secondary toggles alternate the cell
/// between `Empty` (after an even number of calls) and `Crossed` (after an odd
/// number), and a single secondary toggle on a `Filled` cell yields `Crossed`.
pub proof fn lemma_secondary_toggle_cycle(n: nat)
    ensures
        toggled_n(CellState::Empty, ToggleAction::SecondaryToggle, n) == (if n % 2 == 0 {
            CellState::Empty
        } else {
            CellState::Crossed
        }),
        toggled(CellState::Filled, ToggleAction::SecondaryToggle) == CellState::Crossed,
    decreases n,
{
    if n > 0 {
        lemma_secondary_toggle_cycle((n - 1) as nat);
    }
}

} // verus!

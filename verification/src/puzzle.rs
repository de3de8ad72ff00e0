//! The puzzle state and its operations: generation, clue derivation, cell
//! toggling, and win evaluation.

use vstd::prelude::*;
use crate::cell::CellState;
use crate::cell::ToggleAction;
use crate::cell::toggled;
use crate::clues::clue_view;
use crate::clues::is_filled;
use crate::clues::line_clues;
use crate::clues::line_clue_values;
use crate::random::coin_flip;

verus! {

/// The default board side length.
pub const DEFAULT_GRID_SIZE: usize = 5;

/// View of a grid as a sequence of lines of cells, row by row.
pub open spec fn grid_seq(g: Vec<Vec<CellState>>) -> Seq<Seq<CellState>> {
    g@.map_values(|row: Vec<CellState>| row@)
}

/// Column `j` of a grid, as a line of cells scanned top to bottom.
pub open spec fn col_seq(g: Seq<Seq<CellState>>, j: int) -> Seq<CellState> {
    Seq::new(g.len(), |i: int| g[i][j])
}

/// A square grid of side `n`.
pub open spec fn is_square(g: Seq<Seq<CellState>>, n: int) -> bool {
    &&& g.len() == n
    &&& forall|i: int| 0 <= i < n ==> (#[trigger] g[i]).len() == n
}

/// Every cell of the grid is `Empty` or `Filled`: a valid solution grid.
pub open spec fn no_crossed(g: Seq<Seq<CellState>>) -> bool {
    forall|i: int, j: int|
        0 <= i < g.len() && 0 <= j < g[i].len() ==> #[trigger] g[i][j] != CellState::Crossed
}

/// Every cell of the grid is `Empty`.
pub open spec fn all_empty(g: Seq<Seq<CellState>>) -> bool {
    forall|i: int, j: int|
        0 <= i < g.len() && 0 <= j < g[i].len() ==> #[trigger] g[i][j] == CellState::Empty
}

/// The relaxed match rule: the player has won when every cell is filled in
/// the player grid exactly when it is filled in the solution grid; `Crossed`
/// and `Empty` both count as not filled.
pub open spec fn grids_match(
    player: Seq<Seq<CellState>>,
    solution: Seq<Seq<CellState>>,
    n: int,
) -> bool {
    forall|i: int, j: int|
        0 <= i < n && 0 <= j < n ==> (is_filled(#[trigger] player[i][j]) == is_filled(
            #[trigger] solution[i][j],
        ))
}

/// The state of one puzzle: the hidden solution, the player's working grid,
/// the clues derived from the solution, and the cached win flag. A renderer
/// reads the public fields; play goes only through `handle_cell_click`, and a
/// new game through `generate_puzzle`.
pub struct NonogramsApp {
    /// The player's working grid; all three cell states are reachable.
    pub player_grid: Vec<Vec<CellState>>,
    /// The hidden solution; its cells are only ever `Empty` or `Filled`.
    pub solution_grid: Vec<Vec<CellState>>,
    /// Run lengths of consecutive filled cells of each solution row.
    pub row_clues: Vec<Vec<usize>>,
    /// Run lengths of consecutive filled cells of each solution column.
    pub col_clues: Vec<Vec<usize>>,
    /// The board side length.
    pub grid_size: usize,
    /// Whether the player grid matches the solution under the relaxed rule;
    /// recomputed after every player mutation.
    pub game_won: bool,
}

impl NonogramsApp {
    /// The stored clues are exactly the ones derived from the solution grid.
    pub open spec fn clues_ok(self) -> bool {
        &&& self.row_clues@.len() == self.grid_size
        &&& forall|i: int|
            0 <= i < self.grid_size ==> clue_view((#[trigger] self.row_clues@[i])@) == line_clues(
                grid_seq(self.solution_grid)[i],
            )
        &&& self.col_clues@.len() == self.grid_size
        &&& forall|j: int|
            0 <= j < self.grid_size ==> clue_view((#[trigger] self.col_clues@[j])@) == line_clues(
                col_seq(grid_seq(self.solution_grid), j),
            )
    }

    /// Well-formedness: both grids are square of side `grid_size`, the
    /// solution holds no `Crossed` cell, the stored clues are the ones
    /// derived from the solution, and the win flag is set only when the
    /// grids match.
    pub open spec fn wf(self) -> bool {
        &&& is_square(grid_seq(self.player_grid), self.grid_size as int)
        &&& is_square(grid_seq(self.solution_grid), self.grid_size as int)
        &&& no_crossed(grid_seq(self.solution_grid))
        &&& self.clues_ok()
        &&& self.game_won ==> grids_match(
            grid_seq(self.player_grid),
            grid_seq(self.solution_grid),
            self.grid_size as int,
        )
    }

    /// Derive the row and column clues from the current solution grid, one
    /// scan per line; nothing else of the state changes.
    #[verifier::loop_isolation(false)]
    pub fn calculate_clues(&mut self)
        requires
            is_square(grid_seq(old(self).solution_grid), old(self).grid_size as int),
        ensures
            final(self).player_grid == old(self).player_grid,
            final(self).solution_grid == old(self).solution_grid,
            final(self).grid_size == old(self).grid_size,
            final(self).game_won == old(self).game_won,
            final(self).clues_ok(),
    {
        let n = self.grid_size;
        let ghost sol = grid_seq(self.solution_grid);
        let mut row_clues: Vec<Vec<usize>> = Vec::new();
        let mut i: usize = 0;
        while i < n
            invariant
                i <= n,
                row_clues@.len() == i,
                forall|k: int|
                    0 <= k < i ==> clue_view((#[trigger] row_clues@[k])@) == line_clues(sol[k]),
            decreases n - i,
        {
            proof {
                assert(sol[i as int] == self.solution_grid@[i as int]@);
            }
            let v = line_clue_values(&self.solution_grid[i]);
            row_clues.push(v);
            i = i + 1;
        }
        let mut col_clues: Vec<Vec<usize>> = Vec::new();
        let mut j: usize = 0;
        while j < n
            invariant
                j <= n,
                col_clues@.len() == j,
                forall|k: int|
                    0 <= k < j ==> clue_view((#[trigger] col_clues@[k])@) == line_clues(
                        col_seq(sol, k),
                    ),
            decreases n - j,
        {
            let mut line: Vec<CellState> = Vec::new();
            let mut i2: usize = 0;
            while i2 < n
                invariant
                    i2 <= n,
                    j < n,
                    line@.len() == i2,
                    forall|m: int| 0 <= m < i2 ==> #[trigger] line@[m] == sol[m][j as int],
                decreases n - i2,
            {
                proof {
                    assert(sol[i2 as int] == self.solution_grid@[i2 as int]@);
                    assert(sol[i2 as int].len() == n);
                }
                line.push(self.solution_grid[i2][j]);
                i2 = i2 + 1;
            }
            proof {
                assert(line@ =~= col_seq(sol, j as int));
            }
            let v = line_clue_values(&line);
            col_clues.push(v);
            j = j + 1;
        }
        self.row_clues = row_clues;
        self.col_clues = col_clues;
    }

    /// Re-evaluate the win condition: set `game_won` exactly when every cell
    /// agrees with the solution on its filled bit, `Crossed` counting as not
    /// filled. Neither grid is mutated.
    #[verifier::loop_isolation(false)]
    pub fn check_win(&mut self)
        requires
            is_square(grid_seq(old(self).player_grid), old(self).grid_size as int),
            is_square(grid_seq(old(self).solution_grid), old(self).grid_size as int),
        ensures
            final(self).player_grid == old(self).player_grid,
            final(self).solution_grid == old(self).solution_grid,
            final(self).row_clues == old(self).row_clues,
            final(self).col_clues == old(self).col_clues,
            final(self).grid_size == old(self).grid_size,
            final(self).game_won == grids_match(
                grid_seq(old(self).player_grid),
                grid_seq(old(self).solution_grid),
                old(self).grid_size as int,
            ),
    {
        let n = self.grid_size;
        let ghost p = grid_seq(self.player_grid);
        let ghost s = grid_seq(self.solution_grid);
        let mut i: usize = 0;
        while i < n
            invariant
                i <= n,
                self.player_grid == old(self).player_grid,
                self.solution_grid == old(self).solution_grid,
                self.row_clues == old(self).row_clues,
                self.col_clues == old(self).col_clues,
                self.grid_size == old(self).grid_size,
                forall|a: int, b: int|
                    0 <= a < i && 0 <= b < n ==> (is_filled(#[trigger] p[a][b]) == is_filled(
                        #[trigger] s[a][b],
                    )),
            decreases n - i,
        {
            let mut j2: usize = 0;
            while j2 < n
                invariant
                    j2 <= n,
                    i < n,
                    self.player_grid == old(self).player_grid,
                    self.solution_grid == old(self).solution_grid,
                    self.row_clues == old(self).row_clues,
                    self.col_clues == old(self).col_clues,
                    self.grid_size == old(self).grid_size,
                    forall|b: int|
                        0 <= b < j2 ==> (is_filled(#[trigger] p[i as int][b]) == is_filled(
                            s[i as int][b],
                        )),
                decreases n - j2,
            {
                proof {
                    assert(p[i as int] == self.player_grid@[i as int]@);
                    assert(p[i as int].len() == n);
                    assert(s[i as int] == self.solution_grid@[i as int]@);
                    assert(s[i as int].len() == n);
                }
                let pf = self.player_grid[i][j2] == CellState::Filled;
                let sf = self.solution_grid[i][j2] == CellState::Filled;
                if pf != sf {
                    self.game_won = false;
                    proof {
                        assert(is_filled(p[i as int][j2 as int]) != is_filled(
                            s[i as int][j2 as int],
                        ));
                        assert(!grids_match(p, s, n as int));
                    }
                    return;
                }
                j2 = j2 + 1;
            }
            i = i + 1;
        }
        self.game_won = true;
        proof {
            assert(grids_match(p, s, n as int));
        }
    }

    /// Install a given solution pattern (`true` = filled) for the current
    /// grid size: replace the solution grid, reset the player grid to all
    /// `Empty`, clear the win flag, and derive the clues. Generation uses
    /// this with a random pattern; a caller may use it directly to obtain a
    /// deterministic puzzle.
    #[verifier::loop_isolation(false)]
    pub fn set_solution(&mut self, filled: &Vec<Vec<bool>>)
        requires
            filled@.len() == old(self).grid_size,
            forall|i: int|
                0 <= i < filled@.len() ==> (#[trigger] filled@[i])@.len() == old(self).grid_size,
        ensures
            final(self).wf(),
            final(self).grid_size == old(self).grid_size,
            all_empty(grid_seq(final(self).player_grid)),
            final(self).game_won == false,
            forall|i: int, j: int|
                0 <= i < final(self).grid_size && 0 <= j < final(self).grid_size ==> is_filled(
                    #[trigger] grid_seq(final(self).solution_grid)[i][j],
                ) == filled@[i]@[j],
    {
        let n = self.grid_size;
        let mut sol: Vec<Vec<CellState>> = Vec::new();
        let mut i: usize = 0;
        while i < n
            invariant
                i <= n,
                sol@.len() == i,
                forall|k: int| 0 <= k < i ==> (#[trigger] sol@[k])@.len() == n,
                forall|k: int, l: int|
                    0 <= k < i && 0 <= l < n ==> #[trigger] sol@[k]@[l] == (if filled@[k]@[l] {
                        CellState::Filled
                    } else {
                        CellState::Empty
                    }),
            decreases n - i,
        {
            let mut srow: Vec<CellState> = Vec::new();
            let mut l: usize = 0;
            while l < n
                invariant
                    l <= n,
                    i < n,
                    srow@.len() == l,
                    forall|m: int|
                        0 <= m < l ==> #[trigger] srow@[m] == (if filled@[i as int]@[m] {
                            CellState::Filled
                        } else {
                            CellState::Empty
                        }),
                decreases n - l,
            {
                if filled[i][l] {
                    srow.push(CellState::Filled);
                } else {
                    srow.push(CellState::Empty);
                }
                l = l + 1;
            }
            sol.push(srow);
            i = i + 1;
        }
        self.solution_grid = sol;
        self.player_grid = empty_grid(n);
        self.game_won = false;
        self.calculate_clues();
    }

    /// Start a new game: draw every solution cell independently from a fair
    /// coin, reset the player grid to all `Empty`, clear the win flag, and
    /// derive the clues. Always succeeds; the prior puzzle is discarded
    /// wholesale.
    #[verifier::loop_isolation(false)]
    pub fn generate_puzzle(&mut self)
        ensures
            final(self).wf(),
            final(self).grid_size == old(self).grid_size,
            all_empty(grid_seq(final(self).player_grid)),
            final(self).game_won == false,
    {
        let n = self.grid_size;
        let mut filled: Vec<Vec<bool>> = Vec::new();
        let mut i: usize = 0;
        while i < n
            invariant
                i <= n,
                filled@.len() == i,
                forall|k: int| 0 <= k < i ==> (#[trigger] filled@[k])@.len() == n,
            decreases n - i,
        {
            let mut row: Vec<bool> = Vec::new();
            let mut l: usize = 0;
            while l < n
                invariant
                    l <= n,
                    row@.len() == l,
                decreases n - l,
            {
                row.push(coin_flip());
                l = l + 1;
            }
            filled.push(row);
            i = i + 1;
        }
        self.set_solution(&filled);
    }

    /// How one player action changes the state: the target cell steps
    /// through the transition table, the win flag is recomputed over the
    /// whole grid, and nothing else changes.
    pub open spec fn click_applied(
        pre: NonogramsApp,
        post: NonogramsApp,
        row: int,
        col: int,
        action: ToggleAction,
    ) -> bool {
        let pg_pre = grid_seq(pre.player_grid);
        let pg_post = grid_seq(post.player_grid);
        &&& post.solution_grid == pre.solution_grid
        &&& post.row_clues == pre.row_clues
        &&& post.col_clues == pre.col_clues
        &&& post.grid_size == pre.grid_size
        &&& pg_post == pg_pre.update(row, pg_pre[row].update(col, toggled(pg_pre[row][col], action)))
        &&& post.game_won == grids_match(
            pg_post,
            grid_seq(pre.solution_grid),
            pre.grid_size as int,
        )
    }

    /// Apply one player action at `(row, col)`. When the game is already won
    /// the call is a no-op: play is frozen once solved. Otherwise the target
    /// cell steps through the transition table and the win condition is
    /// re-evaluated over the whole grid.
    pub fn handle_cell_click(&mut self, row: usize, col: usize, action: ToggleAction)
        requires
            old(self).wf(),
            row < old(self).grid_size,
            col < old(self).grid_size,
        ensures
            final(self).wf(),
            old(self).game_won ==> *final(self) == *old(self),
            !old(self).game_won ==> Self::click_applied(
                *old(self),
                *final(self),
                row as int,
                col as int,
                action,
            ),
    {
        if self.game_won {
            return;
        }
        let ghost pg_pre = grid_seq(self.player_grid);
        let cur = self.player_grid[row][col];
        let next = cur.toggle(action);
        self.player_grid[row][col] = next;
        proof {
            assert(grid_seq(self.player_grid) =~= pg_pre.update(
                row as int,
                pg_pre[row as int].update(col as int, toggled(pg_pre[row as int][col as int], action)),
            ));
            assert(is_square(grid_seq(self.player_grid), self.grid_size as int));
        }
        self.check_win();
    }

    /// A fresh puzzle of the given side length, with a random solution, an
    /// all-`Empty` player grid, and the clues of the solution.
    pub fn with_grid_size(grid_size: usize) -> (s: Self)
        ensures
            s.wf(),
            s.grid_size == grid_size,
            all_empty(grid_seq(s.player_grid)),
            s.game_won == false,
    {
        let mut s = NonogramsApp {
            player_grid: empty_grid(grid_size),
            solution_grid: empty_grid(grid_size),
            row_clues: Vec::new(),
            col_clues: Vec::new(),
            grid_size,
            game_won: false,
        };
        s.generate_puzzle();
        s
    }

    /// A fresh puzzle of the default side length, with a random solution.
    pub fn new() -> (s: Self)
        ensures
            s.wf(),
            s.grid_size == DEFAULT_GRID_SIZE,
            all_empty(grid_seq(s.player_grid)),
            s.game_won == false,
    {
        Self::with_grid_size(DEFAULT_GRID_SIZE)
    }
}

/// A square grid of side `n` with every cell `Empty`.
#[verifier::loop_isolation(false)]
fn empty_grid(n: usize) -> (g: Vec<Vec<CellState>>)
    ensures
        is_square(grid_seq(g), n as int),
        all_empty(grid_seq(g)),
{
    let mut g: Vec<Vec<CellState>> = Vec::new();
    let mut i: usize = 0;
    while i < n
        invariant
            i <= n,
            g@.len() == i,
            forall|k: int| 0 <= k < i ==> (#[trigger] g@[k])@.len() == n,
            forall|k: int, l: int|
                0 <= k < i && 0 <= l < n ==> #[trigger] g@[k]@[l] == CellState::Empty,
        decreases n - i,
    {
        let mut row: Vec<CellState> = Vec::new();
        let mut l: usize = 0;
        while l < n
            invariant
                l <= n,
                row@.len() == l,
                forall|m: int| 0 <= m < l ==> #[trigger] row@[m] == CellState::Empty,
            decreases n - l,
        {
            row.push(CellState::Empty);
            l = l + 1;
        }
        g.push(row);
        i = i + 1;
    }
    g
}

} // verus!

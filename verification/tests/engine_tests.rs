use nonograms::CellState;
use nonograms::NonogramsApp;
use nonograms::ToggleAction;

/// Build a solution pattern from a slice of rows of booleans.
fn pattern(rows: &[&[bool]]) -> Vec<Vec<bool>> {
    rows.iter().map(|r| r.to_vec()).collect()
}

const T: bool = true;
const F: bool = false;

#[test]
fn row_clue_derivation() {
    let mut p = NonogramsApp::with_grid_size(5);
    p.set_solution(&pattern(&[
        &[T, T, F, T, F],
        &[F, F, F, F, F],
        &[T, T, T, T, T],
        &[F, T, T, F, T],
        &[T, F, T, F, T],
    ]));
    assert_eq!(p.row_clues[0], vec![2, 1]);
    assert_eq!(p.row_clues[1], vec![0]);
    assert_eq!(p.row_clues[2], vec![5]);
    assert_eq!(p.row_clues[3], vec![2, 1]);
    assert_eq!(p.row_clues[4], vec![1, 1, 1]);
}

#[test]
fn col_clue_derivation() {
    let mut p = NonogramsApp::with_grid_size(5);
    p.set_solution(&pattern(&[
        &[T, T, F, T, F],
        &[F, F, F, F, F],
        &[T, T, T, T, T],
        &[F, T, T, F, T],
        &[T, F, T, F, T],
    ]));
    assert_eq!(p.col_clues[0], vec![1, 1, 1]);
    assert_eq!(p.col_clues[1], vec![1, 2]);
    assert_eq!(p.col_clues[2], vec![3]);
    assert_eq!(p.col_clues[3], vec![1, 1]);
    assert_eq!(p.col_clues[4], vec![3]);
}

#[test]
fn empty_line_clue_is_zero_not_empty() {
    let mut p = NonogramsApp::with_grid_size(3);
    p.set_solution(&pattern(&[&[F, F, F], &[F, F, F], &[F, F, F]]));
    for i in 0..3 {
        assert_eq!(p.row_clues[i], vec![0]);
        assert_eq!(p.col_clues[i], vec![0]);
    }
}

#[test]
fn clue_sums_equal_filled_counts() {
    let sol = pattern(&[&[T, F, T], &[T, T, F], &[F, F, F]]);
    let mut p = NonogramsApp::with_grid_size(3);
    p.set_solution(&sol);
    for i in 0..3 {
        let row_filled = (0..3).filter(|&j| sol[i][j]).count();
        let row_sum: usize = p.row_clues[i].iter().sum();
        assert_eq!(row_sum, row_filled);
        let col_filled = (0..3).filter(|&r| sol[r][i]).count();
        let col_sum: usize = p.col_clues[i].iter().sum();
        assert_eq!(col_sum, col_filled);
    }
}

#[test]
fn primary_toggle_cycles_empty_and_filled() {
    let mut c = CellState::Empty;
    for step in 0..6 {
        c = c.toggle(ToggleAction::PrimaryToggle);
        if step % 2 == 0 {
            assert_eq!(c, CellState::Filled);
        } else {
            assert_eq!(c, CellState::Empty);
        }
    }
    assert_eq!(
        CellState::Crossed.toggle(ToggleAction::PrimaryToggle),
        CellState::Filled
    );
}

#[test]
fn secondary_toggle_cycles_empty_and_crossed() {
    let mut c = CellState::Empty;
    for step in 0..6 {
        c = c.toggle(ToggleAction::SecondaryToggle);
        if step % 2 == 0 {
            assert_eq!(c, CellState::Crossed);
        } else {
            assert_eq!(c, CellState::Empty);
        }
    }
    assert_eq!(
        CellState::Filled.toggle(ToggleAction::SecondaryToggle),
        CellState::Crossed
    );
}

#[test]
fn crossed_counts_as_not_filled_for_winning() {
    let mut p = NonogramsApp::with_grid_size(1);
    p.set_solution(&pattern(&[&[F]]));
    assert!(!p.game_won);
    p.handle_cell_click(0, 0, ToggleAction::SecondaryToggle);
    assert_eq!(p.player_grid[0][0], CellState::Crossed);
    assert!(p.game_won);
}

#[test]
fn win_requires_every_cell_to_agree() {
    let mut p = NonogramsApp::with_grid_size(2);
    p.set_solution(&pattern(&[&[T, F], &[F, T]]));
    p.handle_cell_click(0, 0, ToggleAction::PrimaryToggle);
    // one required cell still differs: (1,1) is Empty but should be Filled
    assert!(!p.game_won);
    p.handle_cell_click(1, 1, ToggleAction::PrimaryToggle);
    assert!(p.game_won);
}

#[test]
fn extra_filled_cell_prevents_winning() {
    let mut p = NonogramsApp::with_grid_size(2);
    p.set_solution(&pattern(&[&[T, F], &[F, T]]));
    p.handle_cell_click(0, 0, ToggleAction::PrimaryToggle);
    p.handle_cell_click(1, 1, ToggleAction::PrimaryToggle);
    p.handle_cell_click(0, 1, ToggleAction::PrimaryToggle);
    // the board now differs from the solution in exactly one filled cell,
    // but the win flag was set before that click, so play is frozen
    assert!(p.game_won);

    // replay without winning first: the same three cells filled from the
    // start leave one disagreement, so the game is not won
    let mut q = NonogramsApp::with_grid_size(2);
    q.set_solution(&pattern(&[&[T, F], &[F, T]]));
    q.handle_cell_click(0, 1, ToggleAction::PrimaryToggle);
    q.handle_cell_click(0, 0, ToggleAction::PrimaryToggle);
    q.handle_cell_click(1, 1, ToggleAction::PrimaryToggle);
    assert!(!q.game_won);
}

#[test]
fn post_win_clicks_are_no_ops() {
    let mut p = NonogramsApp::with_grid_size(1);
    p.set_solution(&pattern(&[&[T]]));
    p.handle_cell_click(0, 0, ToggleAction::PrimaryToggle);
    assert!(p.game_won);
    p.handle_cell_click(0, 0, ToggleAction::PrimaryToggle);
    assert_eq!(p.player_grid[0][0], CellState::Filled);
    assert!(p.game_won);
    p.handle_cell_click(0, 0, ToggleAction::SecondaryToggle);
    assert_eq!(p.player_grid[0][0], CellState::Filled);
    assert!(p.game_won);
}

#[test]
fn generation_resets_player_grid_and_win_flag() {
    let mut p = NonogramsApp::with_grid_size(3);
    p.set_solution(&pattern(&[&[T, F, F], &[F, F, F], &[F, F, T]]));
    p.handle_cell_click(0, 1, ToggleAction::PrimaryToggle);
    p.handle_cell_click(2, 2, ToggleAction::SecondaryToggle);
    p.generate_puzzle();
    assert_eq!(p.grid_size, 3);
    assert!(!p.game_won);
    for i in 0..3 {
        for j in 0..3 {
            assert_eq!(p.player_grid[i][j], CellState::Empty);
        }
    }
}

#[test]
fn generated_puzzle_is_well_formed() {
    let p = NonogramsApp::new();
    assert_eq!(p.grid_size, 5);
    assert!(!p.game_won);
    assert_eq!(p.player_grid.len(), 5);
    assert_eq!(p.solution_grid.len(), 5);
    assert_eq!(p.row_clues.len(), 5);
    assert_eq!(p.col_clues.len(), 5);
    for i in 0..5 {
        assert_eq!(p.player_grid[i].len(), 5);
        assert_eq!(p.solution_grid[i].len(), 5);
        assert!(!p.row_clues[i].is_empty());
        assert!(!p.col_clues[i].is_empty());
        for j in 0..5 {
            assert_eq!(p.player_grid[i][j], CellState::Empty);
            assert_ne!(p.solution_grid[i][j], CellState::Crossed);
        }
    }
}

#[test]
fn end_to_end_two_by_two() {
    let mut p = NonogramsApp::with_grid_size(2);
    p.set_solution(&pattern(&[&[T, F], &[F, T]]));
    assert_eq!(p.row_clues, vec![vec![1], vec![1]]);
    assert_eq!(p.col_clues, vec![vec![1], vec![1]]);
    p.handle_cell_click(0, 0, ToggleAction::PrimaryToggle);
    p.handle_cell_click(1, 1, ToggleAction::PrimaryToggle);
    assert_eq!(p.player_grid[0][0], CellState::Filled);
    assert_eq!(p.player_grid[0][1], CellState::Empty);
    assert_eq!(p.player_grid[1][0], CellState::Empty);
    assert_eq!(p.player_grid[1][1], CellState::Filled);
    assert!(p.game_won);
}

#[test]
fn set_solution_records_the_given_pattern() {
    let mut p = NonogramsApp::with_grid_size(2);
    p.set_solution(&pattern(&[&[T, T], &[F, T]]));
    assert_eq!(p.solution_grid[0][0], CellState::Filled);
    assert_eq!(p.solution_grid[0][1], CellState::Filled);
    assert_eq!(p.solution_grid[1][0], CellState::Empty);
    assert_eq!(p.solution_grid[1][1], CellState::Filled);
    assert_eq!(p.row_clues, vec![vec![2], vec![1]]);
    assert_eq!(p.col_clues, vec![vec![1], vec![2]]);
}

#[test]
fn zero_size_grid_is_degenerate_but_valid() {
    let p = NonogramsApp::with_grid_size(0);
    assert_eq!(p.grid_size, 0);
    assert!(p.player_grid.is_empty());
    assert!(p.solution_grid.is_empty());
    assert!(p.row_clues.is_empty());
    assert!(p.col_clues.is_empty());
    assert!(!p.game_won);
}

use life_engine::grid::{next_state, Grid, GridError};

fn grid_with(rows: usize, columns: usize, live: &[(usize, usize)]) -> Grid {
    let mut grid = Grid::new(rows, columns);
    for &(row, column) in live {
        assert_eq!(grid.set_cell(row, column, true), Ok(()));
    }
    grid
}

fn live_cells(grid: &Grid) -> Vec<(usize, usize)> {
    let mut live = Vec::new();
    for row in 0..grid.rows() {
        for column in 0..grid.columns() {
            if grid.get(row, column) == Ok(true) {
                live.push((row, column));
            }
        }
    }
    live
}

fn all_alive(rows: usize, columns: usize) -> Grid {
    match Grid::from_cells(rows, columns, &vec![true; rows * columns]) {
        Some(grid) => grid,
        None => panic!("one state was given for each cell"),
    }
}

#[test]
fn new_grid_is_dead_and_has_its_dimensions() {
    let grid = Grid::new(4, 7);
    assert_eq!(grid.rows(), 4);
    assert_eq!(grid.columns(), 7);
    assert_eq!(grid.cell_count(), 28);
    for row in 0..4 {
        for column in 0..7 {
            assert_eq!(grid.get(row, column), Ok(false));
        }
    }
}

#[test]
fn empty_grid_is_legal() {
    let mut grid = Grid::new(0, 5);
    assert_eq!(grid.cell_count(), 0);
    assert_eq!(grid.get(0, 0), Err(GridError::OutOfBounds));
    grid.advance();
    grid.clear();
    grid.reseed();
    assert_eq!(grid.cell_count(), 0);
    let seeded = Grid::seed_random(3, 0);
    assert_eq!(seeded.rows(), 3);
    assert_eq!(seeded.columns(), 0);
    assert_eq!(seeded.cell_count(), 0);
}

#[test]
fn index_is_row_major() {
    let grid = Grid::new(3, 5);
    assert_eq!(grid.index(0, 0), Ok(0));
    assert_eq!(grid.index(0, 4), Ok(4));
    assert_eq!(grid.index(1, 0), Ok(5));
    assert_eq!(grid.index(2, 3), Ok(13));
    assert_eq!(grid.index(2, 4), Ok(14));
}

#[test]
fn index_pairs_cells_with_places() {
    let grid = Grid::new(6, 4);
    let mut seen = vec![false; 24];
    for row in 0..6 {
        for column in 0..4 {
            let place = match grid.index(row, column) {
                Ok(place) => place,
                Err(_) => panic!("the cell lies in the grid"),
            };
            assert!(place < 24);
            assert!(!seen[place]);
            seen[place] = true;
            assert_eq!(place / 4, row);
            assert_eq!(place % 4, column);
        }
    }
    assert!(seen.iter().all(|&hit| hit));
}

#[test]
fn index_out_of_bounds() {
    let grid = Grid::new(3, 5);
    assert_eq!(grid.index(3, 0), Err(GridError::OutOfBounds));
    assert_eq!(grid.index(0, 5), Err(GridError::OutOfBounds));
    assert_eq!(grid.index(usize::MAX, usize::MAX), Err(GridError::OutOfBounds));
}

#[test]
fn from_cells_keeps_the_pattern() {
    let cells = vec![true, false, false, false, true, true];
    let grid = match Grid::from_cells(2, 3, &cells) {
        Some(grid) => grid,
        None => panic!("one state was given for each cell"),
    };
    assert_eq!(grid.rows(), 2);
    assert_eq!(grid.columns(), 3);
    assert_eq!(live_cells(&grid), vec![(0, 0), (1, 1), (1, 2)]);
}

#[test]
fn from_cells_wants_one_state_for_each_cell() {
    assert!(Grid::from_cells(2, 3, &vec![false; 5]).is_none());
    assert!(Grid::from_cells(2, 3, &vec![false; 7]).is_none());
    assert!(Grid::from_cells(usize::MAX, 2, &vec![false; 4]).is_none());
    assert!(Grid::from_cells(0, 9, &Vec::new()).is_some());
}

#[test]
fn all_dead_grid_has_no_live_neighbors() {
    let grid = Grid::new(5, 6);
    for row in 0..5 {
        for column in 0..6 {
            assert_eq!(grid.count_live_neighbors(row, column), Ok(0));
        }
    }
}

#[test]
fn all_alive_grid_has_eight_live_neighbors() {
    let grid = all_alive(4, 6);
    for row in 0..4 {
        for column in 0..6 {
            assert_eq!(grid.count_live_neighbors(row, column), Ok(8));
        }
    }
}

#[test]
fn corner_of_all_alive_three_by_three_has_eight() {
    let grid = all_alive(3, 3);
    assert_eq!(grid.count_live_neighbors(0, 0), Ok(8));
    assert_eq!(grid.count_live_neighbors(2, 2), Ok(8));
}

#[test]
fn neighbors_wrap_round_the_edges() {
    let far_corner = grid_with(5, 7, &[(4, 6)]);
    assert_eq!(far_corner.count_live_neighbors(0, 0), Ok(1));
    assert_eq!(far_corner.count_live_neighbors(1, 1), Ok(0));
    let last_row = grid_with(5, 7, &[(4, 0)]);
    assert_eq!(last_row.count_live_neighbors(0, 0), Ok(1));
    assert_eq!(last_row.count_live_neighbors(0, 6), Ok(1));
    let last_column = grid_with(5, 7, &[(0, 6)]);
    assert_eq!(last_column.count_live_neighbors(0, 0), Ok(1));
    assert_eq!(last_column.count_live_neighbors(4, 0), Ok(1));
    let first = grid_with(5, 7, &[(0, 0)]);
    assert_eq!(first.count_live_neighbors(4, 6), Ok(1));
    assert_eq!(first.count_live_neighbors(0, 0), Ok(0));
}

#[test]
fn neighbor_counts_on_a_grid_that_is_not_square() {
    let grid = grid_with(3, 4, &[(0, 0), (0, 3), (2, 0)]);
    let expected = [2, 2, 1, 2, 3, 2, 1, 3, 2, 2, 1, 3];
    for row in 0..3 {
        for column in 0..4 {
            assert_eq!(grid.count_live_neighbors(row, column), Ok(expected[row * 4 + column]));
        }
    }
}

#[test]
fn neighbor_counts_on_a_two_by_two_grid() {
    let grid = grid_with(2, 2, &[(0, 0)]);
    assert_eq!(grid.count_live_neighbors(0, 0), Ok(0));
    assert_eq!(grid.count_live_neighbors(0, 1), Ok(2));
    assert_eq!(grid.count_live_neighbors(1, 0), Ok(2));
    assert_eq!(grid.count_live_neighbors(1, 1), Ok(4));
}

#[test]
fn single_cell_grid_is_its_own_neighbor() {
    let grid = grid_with(1, 1, &[(0, 0)]);
    assert_eq!(grid.count_live_neighbors(0, 0), Ok(8));
}

#[test]
fn count_live_neighbors_out_of_bounds() {
    let grid = all_alive(3, 3);
    assert_eq!(grid.count_live_neighbors(3, 0), Err(GridError::OutOfBounds));
    assert_eq!(grid.count_live_neighbors(0, 3), Err(GridError::OutOfBounds));
}

#[test]
fn rule_for_every_count() {
    let live_on = [false, false, true, true, false, false, false, false, false];
    let come_alive = [false, false, false, true, false, false, false, false, false];
    for neighbors in 0..9 {
        assert_eq!(next_state(true, neighbors), live_on[neighbors]);
        assert_eq!(next_state(false, neighbors), come_alive[neighbors]);
    }
}

#[test]
fn lone_cell_dies() {
    for size in 3..7 {
        let mut grid = grid_with(size, size, &[(1, 1)]);
        grid.advance();
        assert_eq!(live_cells(&grid), Vec::new());
    }
}

#[test]
fn block_is_stable() {
    let block = [(1, 1), (1, 2), (2, 1), (2, 2)];
    let mut grid = grid_with(6, 6, &block);
    for &(row, column) in &block {
        assert_eq!(grid.count_live_neighbors(row, column), Ok(3));
    }
    grid.advance();
    assert_eq!(live_cells(&grid), block.to_vec());
    grid.advance();
    assert_eq!(live_cells(&grid), block.to_vec());
}

#[test]
fn block_across_the_edges_is_stable() {
    let mut grid = grid_with(5, 5, &[(0, 0), (0, 4), (4, 0), (4, 4)]);
    grid.advance();
    assert_eq!(live_cells(&grid), vec![(0, 0), (0, 4), (4, 0), (4, 4)]);
}

#[test]
fn blinker_turns() {
    let mut grid = grid_with(5, 5, &[(2, 1), (2, 2), (2, 3)]);
    grid.advance();
    assert_eq!(live_cells(&grid), vec![(1, 2), (2, 2), (3, 2)]);
    grid.advance();
    assert_eq!(live_cells(&grid), vec![(2, 1), (2, 2), (2, 3)]);
}

#[test]
fn glider_moves_one_cell_in_four_generations() {
    let mut grid = grid_with(50, 50, &[(0, 2), (1, 0), (1, 2), (2, 1), (2, 2)]);
    grid.advance();
    assert_eq!(live_cells(&grid), vec![(0, 1), (1, 2), (1, 3), (2, 1), (2, 2)]);
    grid.advance();
    assert_eq!(live_cells(&grid), vec![(0, 2), (1, 3), (2, 1), (2, 2), (2, 3)]);
    grid.advance();
    assert_eq!(live_cells(&grid), vec![(1, 1), (1, 3), (2, 2), (2, 3), (3, 2)]);
    grid.advance();
    assert_eq!(live_cells(&grid), vec![(1, 3), (2, 1), (2, 3), (3, 2), (3, 3)]);
}

#[test]
fn advance_on_a_grid_that_is_not_square() {
    let mut grid = grid_with(3, 4, &[(0, 0), (0, 3), (2, 0)]);
    grid.advance();
    assert_eq!(live_cells(&grid), vec![(0, 0), (0, 3), (1, 0), (1, 3), (2, 0), (2, 3)]);
    assert_eq!(grid.rows(), 3);
    assert_eq!(grid.columns(), 4);
}

#[test]
fn advance_reads_the_generation_before() {
    let mut grid = grid_with(2, 2, &[(0, 0)]);
    grid.advance();
    assert_eq!(live_cells(&grid), Vec::new());
    let mut crowded = all_alive(4, 4);
    crowded.advance();
    assert_eq!(live_cells(&crowded), Vec::new());
}

#[test]
fn advance_is_deterministic() {
    let start = Grid::seed_random(12, 9);
    let mut cells = Vec::new();
    for row in 0..12 {
        for column in 0..9 {
            cells.push(start.get(row, column) == Ok(true));
        }
    }
    let mut first = match Grid::from_cells(12, 9, &cells) {
        Some(grid) => grid,
        None => panic!("one state was given for each cell"),
    };
    let mut second = match Grid::from_cells(12, 9, &cells) {
        Some(grid) => grid,
        None => panic!("one state was given for each cell"),
    };
    first.advance();
    second.advance();
    assert_eq!(live_cells(&first), live_cells(&second));
    first.advance();
    second.advance();
    assert_eq!(live_cells(&first), live_cells(&second));
}

#[test]
fn clear_leaves_every_cell_dead() {
    let mut grid = all_alive(5, 8);
    grid.clear();
    assert_eq!(grid.rows(), 5);
    assert_eq!(grid.columns(), 8);
    assert_eq!(grid.cell_count(), 40);
    for row in 0..5 {
        for column in 0..8 {
            assert_eq!(grid.get(row, column), Ok(false));
        }
    }
}

#[test]
fn set_cell_then_get() {
    let mut grid = Grid::new(4, 4);
    assert_eq!(grid.set_cell(2, 3, true), Ok(()));
    assert_eq!(grid.get(2, 3), Ok(true));
    assert_eq!(live_cells(&grid), vec![(2, 3)]);
    assert_eq!(grid.set_cell(2, 3, false), Ok(()));
    assert_eq!(grid.get(2, 3), Ok(false));
    assert_eq!(live_cells(&grid), Vec::new());
}

#[test]
fn get_and_set_cell_out_of_bounds() {
    let mut grid = grid_with(4, 5, &[(3, 4)]);
    assert_eq!(grid.get(4, 0), Err(GridError::OutOfBounds));
    assert_eq!(grid.get(0, 5), Err(GridError::OutOfBounds));
    assert_eq!(grid.set_cell(4, 0, true), Err(GridError::OutOfBounds));
    assert_eq!(grid.set_cell(0, 5, true), Err(GridError::OutOfBounds));
    assert_eq!(grid.set_cell(usize::MAX, 0, true), Err(GridError::OutOfBounds));
    assert_eq!(live_cells(&grid), vec![(3, 4)]);
}

#[test]
fn seed_random_has_its_dimensions() {
    let grid = Grid::seed_random(50, 50);
    assert_eq!(grid.rows(), 50);
    assert_eq!(grid.columns(), 50);
    assert_eq!(grid.cell_count(), 2500);
    let live = live_cells(&grid).len();
    assert!(live > 0);
    assert!(live < 2500);
}

#[test]
fn reseed_draws_every_cell_anew() {
    let mut grid = Grid::new(40, 40);
    grid.reseed();
    let first = live_cells(&grid);
    assert!(!first.is_empty());
    assert!(first.len() < 1600);
    grid.reseed();
    let second = live_cells(&grid);
    assert_ne!(first, second);
    assert_eq!(grid.rows(), 40);
    assert_eq!(grid.columns(), 40);
    let mut full = all_alive(40, 40);
    full.reseed();
    assert!(live_cells(&full).len() < 1600);
}

#[test]
fn fill_gives_each_cell_its_state() {
    let mut grid = Grid::new(2, 3);
    grid.fill(&vec![false, true, false, true, true, false]);
    assert_eq!(grid.rows(), 2);
    assert_eq!(grid.columns(), 3);
    assert_eq!(live_cells(&grid), vec![(0, 1), (1, 0), (1, 1)]);
}

#[test]
fn fill_keeps_nothing_of_the_cells_before() {
    let mut grid = all_alive(3, 4);
    let mut states = vec![false; 12];
    states[0] = true;
    states[7] = true;
    states[11] = true;
    grid.fill(&states);
    assert_eq!(live_cells(&grid), vec![(0, 0), (1, 3), (2, 3)]);
    grid.fill(&vec![false; 12]);
    assert_eq!(live_cells(&grid), Vec::new());
    assert_eq!(grid.cell_count(), 12);
}

#[test]
fn fill_makes_a_seeding_that_can_be_repeated() {
    let states: Vec<bool> = (0..30).map(|place| place % 3 == 0 || place % 7 == 2).collect();
    let mut first = Grid::seed_random(5, 6);
    let mut second = Grid::seed_random(5, 6);
    first.fill(&states);
    second.fill(&states);
    assert_eq!(live_cells(&first), live_cells(&second));
    for row in 0..5 {
        for column in 0..6 {
            assert_eq!(first.get(row, column), Ok(states[row * 6 + column]));
        }
    }
    first.advance();
    second.advance();
    assert_eq!(live_cells(&first), live_cells(&second));
}

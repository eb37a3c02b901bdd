use game_of_life::grid::Grid;
use game_of_life::grid::CELL_SIZE;
use game_of_life::grid::GRID_HEIGHT;
use game_of_life::grid::GRID_WIDTH;

fn dead_grid() -> Grid {
    Grid::new_with_chance(0, 1)
}

fn count_live(g: &Grid) -> usize {
    let mut n = 0;
    for x in 0..GRID_WIDTH {
        for y in 0..GRID_HEIGHT {
            if g.is_alive(x, y) {
                n += 1;
            }
        }
    }
    n
}

#[test]
fn dead_grid_stays_dead() {
    let mut g = dead_grid();
    g.step();
    assert_eq!(count_live(&g), 0);
}

#[test]
fn dead_cell_with_three_neighbors_is_born() {
    // An L-shaped triplet inside a 3x3 patch around (11, 11): the dead cell
    // at (11, 11) touches exactly 3 live cells and must come alive.
    let mut g = dead_grid();
    g.set_cell(10, 10, true);
    g.set_cell(11, 10, true);
    g.set_cell(10, 11, true);
    assert!(!g.is_alive(11, 11));
    g.step();
    assert!(g.is_alive(11, 11));
}

#[test]
fn block_is_still_life() {
    let mut g = dead_grid();
    g.set_cell(20, 20, true);
    g.set_cell(21, 20, true);
    g.set_cell(20, 21, true);
    g.set_cell(21, 21, true);
    let before = g.snapshot().clone();
    g.step();
    assert_eq!(*g.snapshot(), before);
}

#[test]
fn blinker_oscillates_with_period_two() {
    // Start vertical at center (25, 25); one step makes it horizontal, the
    // next vertical again, the third horizontal again.
    let mut g = dead_grid();
    g.set_cell(25, 24, true);
    g.set_cell(25, 25, true);
    g.set_cell(25, 26, true);
    let vertical = g.snapshot().clone();

    g.step();
    assert!(g.is_alive(24, 25) && g.is_alive(25, 25) && g.is_alive(26, 25));
    assert!(!g.is_alive(25, 24) && !g.is_alive(25, 26));
    assert_eq!(count_live(&g), 3);
    let horizontal = g.snapshot().clone();

    g.step();
    assert_eq!(*g.snapshot(), vertical);

    g.step();
    assert_eq!(*g.snapshot(), horizontal);
}

#[test]
fn corner_counts_no_wraparound_neighbors() {
    // The corner (0, 0) has two live in-bounds neighbors, so it survives.
    // Live cells on the far edges would be its neighbors under wraparound
    // and would raise the count to 5, killing it; they must not be counted.
    let mut g = dead_grid();
    g.set_cell(0, 0, true);
    g.set_cell(0, 1, true);
    g.set_cell(1, 0, true);
    g.set_cell(49, 0, true);
    g.set_cell(0, 49, true);
    g.set_cell(49, 49, true);
    g.step();
    assert!(g.is_alive(0, 0));
}

#[test]
fn corner_with_three_live_neighbors_survives() {
    // A block in the corner: (0, 0) is live with exactly 3 in-bounds live
    // neighbors among its 3 possible neighbors, so it survives.
    let mut g = dead_grid();
    g.set_cell(0, 0, true);
    g.set_cell(0, 1, true);
    g.set_cell(1, 0, true);
    g.set_cell(1, 1, true);
    g.step();
    assert!(g.is_alive(0, 0));
}

#[test]
fn chance_zero_seeds_all_dead() {
    let g = Grid::new_with_chance(0, 7);
    assert_eq!(count_live(&g), 0);
}

#[test]
fn chance_one_seeds_all_alive() {
    let g = Grid::new_with_chance(7, 7);
    assert_eq!(count_live(&g), GRID_WIDTH * GRID_HEIGHT);
}

#[test]
fn step_is_deterministic() {
    // Two independent copies of the same board step to the same board.
    let mut a = dead_grid();
    let mut b = dead_grid();
    for (x, y) in [(5, 5), (5, 6), (6, 5), (30, 30), (30, 31), (31, 30), (0, 0), (49, 49)] {
        a.set_cell(x, y, true);
        b.set_cell(x, y, true);
    }
    assert_eq!(*a.snapshot(), *b.snapshot());
    a.step();
    b.step();
    assert_eq!(*a.snapshot(), *b.snapshot());
}

#[test]
fn new_grid_is_well_formed() {
    let g = Grid::new();
    assert_eq!(g.snapshot().len(), GRID_WIDTH * GRID_HEIGHT);
}

#[test]
fn set_cell_changes_only_its_cell() {
    let mut g = dead_grid();
    g.set_cell(3, 4, true);
    assert!(g.is_alive(3, 4));
    assert_eq!(count_live(&g), 1);
    g.set_cell(3, 4, false);
    assert_eq!(count_live(&g), 0);
}

#[test]
fn live_cells_lists_exactly_the_live_cells_in_order() {
    let mut g = dead_grid();
    g.set_cell(7, 9, true);
    g.set_cell(2, 3, true);
    g.set_cell(7, 1, true);
    let v = g.live_cells();
    assert_eq!(v, vec![(2, 3), (7, 1), (7, 9)]);
}

#[test]
fn live_cells_of_dead_grid_is_empty() {
    let g = dead_grid();
    assert_eq!(g.live_cells(), vec![]);
}

#[test]
fn window_size_covers_the_board() {
    let s = Grid::window_size();
    assert_eq!(s.0 as usize, GRID_WIDTH * CELL_SIZE);
    assert_eq!(s.1 as usize, GRID_HEIGHT * CELL_SIZE);
    assert_eq!(s, (500, 500));
}

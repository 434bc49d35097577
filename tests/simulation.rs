use game_of_life::{CellState, ConfigError, SimulationState};

fn grid_from(rows: &[&str]) -> Vec<Vec<CellState>> {
    rows.iter()
        .map(|r| {
            r.chars()
                .map(|ch| if ch == '#' { CellState::Alive } else { CellState::Dead })
                .collect()
        })
        .collect()
}

fn state_from(rows: &[&str]) -> SimulationState {
    let grid = grid_from(rows);
    let n_rows = grid.len();
    let n_cols = if n_rows == 0 { 0 } else { grid[0].len() };
    SimulationState { grid, rows: n_rows, cols: n_cols }
}

fn cells(s: &SimulationState) -> Vec<Vec<CellState>> {
    (0..s.rows).map(|i| (0..s.cols).map(|j| s.get_cell(i, j)).collect()).collect()
}

#[test]
fn default_cell_is_dead() {
    assert_eq!(CellState::default(), CellState::Dead);
}

#[test]
fn full_grid_neighbor_counts() {
    let g = grid_from(&["###", "###", "###"]);
    let me = CellState::Alive;
    assert_eq!(me.count_live_neighbors(&g, 1, 1), 8);
    assert_eq!(me.count_live_neighbors(&g, 0, 0), 3);
    assert_eq!(me.count_live_neighbors(&g, 2, 2), 3);
    assert_eq!(me.count_live_neighbors(&g, 0, 2), 3);
    assert_eq!(me.count_live_neighbors(&g, 2, 0), 3);
    assert_eq!(me.count_live_neighbors(&g, 0, 1), 5);
    assert_eq!(me.count_live_neighbors(&g, 1, 0), 5);
}

#[test]
fn count_excludes_the_cell_itself() {
    let g = grid_from(&["...", ".#.", "..."]);
    assert_eq!(CellState::Alive.count_live_neighbors(&g, 1, 1), 0);
    let g = grid_from(&["#.#", ".#.", "#.#"]);
    assert_eq!(CellState::Alive.count_live_neighbors(&g, 1, 1), 4);
    assert_eq!(CellState::Dead.count_live_neighbors(&g, 0, 1), 3);
}

#[test]
fn count_has_no_wrap_around() {
    let g = grid_from(&["#...#", ".....", "#...#"]);
    assert_eq!(CellState::Dead.count_live_neighbors(&g, 0, 0), 0);
    assert_eq!(CellState::Dead.count_live_neighbors(&g, 1, 0), 2);
    assert_eq!(CellState::Dead.count_live_neighbors(&g, 1, 2), 0);
}

#[test]
fn single_row_and_single_cell_counts() {
    let g = grid_from(&["###"]);
    assert_eq!(CellState::Alive.count_live_neighbors(&g, 0, 1), 2);
    assert_eq!(CellState::Alive.count_live_neighbors(&g, 0, 0), 1);
    let g = grid_from(&["#"]);
    assert_eq!(CellState::Alive.count_live_neighbors(&g, 0, 0), 0);
}

#[test]
fn rule_table() {
    // The centre cell of a 3x3 grid with its first n neighbours alive.
    let order = [(0, 0), (0, 1), (0, 2), (1, 0), (1, 2), (2, 0), (2, 1), (2, 2)];
    for n in 0..=8usize {
        for me in [CellState::Dead, CellState::Alive] {
            let mut g = vec![vec![CellState::Dead; 3]; 3];
            for &(i, j) in order.iter().take(n) {
                g[i][j] = CellState::Alive;
            }
            g[1][1] = me;
            let expected = match me {
                CellState::Alive if n == 2 || n == 3 => CellState::Alive,
                CellState::Dead if n == 3 => CellState::Alive,
                _ => CellState::Dead,
            };
            assert_eq!(me.count_live_neighbors(&g, 1, 1) as usize, n);
            assert_eq!(me.next_state(&g, 1, 1), expected, "state {:?}, n = {}", me, n);
        }
    }
}

#[test]
fn update_matches_any_computation_order() {
    let start = state_from(&[".#..#", "##.#.", "..###", "#.#..", ".##.#"]);
    let snapshot = start.grid.clone();
    // Column-major, from the last column back, always reading the snapshot.
    let mut expected = snapshot.clone();
    for j in (0..start.cols).rev() {
        for i in 0..start.rows {
            expected[i][j] = snapshot[i][j].next_state(&snapshot, i, j);
        }
    }
    let mut s = start.clone();
    s.update();
    assert_eq!(cells(&s), expected);
    assert_eq!(s.rows, 5);
    assert_eq!(s.cols, 5);
}

#[test]
fn block_is_still_life() {
    let rows = ["......", "..##..", "..##..", "......"];
    let mut s = state_from(&rows);
    for _ in 0..3 {
        s.update();
        assert_eq!(cells(&s), grid_from(&rows));
    }
}

#[test]
fn block_in_corner_is_still_life() {
    let rows = ["##.", "##.", "..."];
    let mut s = state_from(&rows);
    s.update();
    assert_eq!(cells(&s), grid_from(&rows));
}

#[test]
fn blinker_oscillates() {
    let horizontal = [".....", ".....", ".###.", ".....", "....."];
    let vertical = [".....", "..#..", "..#..", "..#..", "....."];
    let mut s = state_from(&horizontal);
    s.update();
    assert_eq!(cells(&s), grid_from(&vertical));
    s.update();
    assert_eq!(cells(&s), grid_from(&horizontal));
}

#[test]
fn blinker_with_minimal_margin() {
    let mut s = state_from(&["...", "###", "..."]);
    s.update();
    assert_eq!(cells(&s), grid_from(&[".#.", ".#.", ".#."]));
    s.update();
    assert_eq!(cells(&s), grid_from(&["...", "###", "..."]));
}

#[test]
fn dead_grid_stays_dead() {
    let mut s = state_from(&["....", "....", "...."]);
    for _ in 0..10 {
        s.update();
        assert_eq!(cells(&s), vec![vec![CellState::Dead; 4]; 3]);
    }
}

#[test]
fn new_with_zero_chance_is_all_dead() {
    for (rows, cols) in [(0, 0), (0, 5), (5, 0), (1, 1), (7, 11)] {
        let s = SimulationState::new(rows, cols, 0, 1).unwrap();
        assert_eq!(s.rows, rows);
        assert_eq!(s.cols, cols);
        assert_eq!(cells(&s), vec![vec![CellState::Dead; cols]; rows]);
    }
    let s = SimulationState::new(4, 4, 0, 10).unwrap();
    assert_eq!(cells(&s), vec![vec![CellState::Dead; 4]; 4]);
}

#[test]
fn new_with_full_chance_is_all_alive() {
    for (rows, cols) in [(0, 0), (0, 5), (5, 0), (1, 1), (7, 11)] {
        let s = SimulationState::new(rows, cols, 1, 1).unwrap();
        assert_eq!(cells(&s), vec![vec![CellState::Alive; cols]; rows]);
    }
    let s = SimulationState::new(4, 4, 10, 10).unwrap();
    assert_eq!(cells(&s), vec![vec![CellState::Alive; 4]; 4]);
}

#[test]
fn new_with_partial_chance_has_the_shape() {
    let s = SimulationState::new(20, 30, 3, 10).unwrap();
    assert_eq!(s.grid.len(), 20);
    assert!(s.grid.iter().all(|r| r.len() == 30));
}

#[test]
fn new_rejects_chance_out_of_range() {
    // -0.1 and 1.1 written as ratios.
    assert!(matches!(SimulationState::new(3, 3, -1, 10), Err(ConfigError::ProbabilityOutOfRange)));
    assert!(matches!(SimulationState::new(3, 3, 11, 10), Err(ConfigError::ProbabilityOutOfRange)));
    assert!(matches!(SimulationState::new(3, 3, 0, 0), Err(ConfigError::ProbabilityOutOfRange)));
    assert!(matches!(SimulationState::new(0, 0, 2, 1), Err(ConfigError::ProbabilityOutOfRange)));
}

#[test]
fn cell_colors() {
    let white = CellState::Alive.get_color();
    let black = CellState::Dead.get_color();
    assert_eq!(white.data, 0xFFFF_FFFF);
    assert_eq!(black.data, 0xFF00_0000);
    assert_eq!((white.r(), white.g(), white.b(), white.a()), (255, 255, 255, 255));
    assert_eq!((black.r(), black.g(), black.b(), black.a()), (0, 0, 0, 255));
}

#[test]
fn get_cell_reads_the_grid() {
    let s = state_from(&["#.", ".#", "#."]);
    assert_eq!(s.get_cell(0, 0), CellState::Alive);
    assert_eq!(s.get_cell(0, 1), CellState::Dead);
    assert_eq!(s.get_cell(1, 1), CellState::Alive);
    assert_eq!(s.get_cell(2, 1), CellState::Dead);
}

#[test]
fn default_state_is_empty_and_updates() {
    let mut s = SimulationState::default();
    assert_eq!((s.rows, s.cols, s.grid.len()), (0, 0, 0));
    s.update();
    assert_eq!((s.rows, s.cols, s.grid.len()), (0, 0, 0));
}

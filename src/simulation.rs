use crate::platform::draw_ratio;
use orbclient::Color;
use vstd::prelude::*;

verus! {

/// The state of a cell in the game grid.
#[derive(Clone, Copy, Debug, PartialEq, Eq, Structural)]
pub enum CellState {
    Dead,
    Alive,
}

impl Default for CellState {
    fn default() -> (r: CellState)
        ensures
            r == CellState::Dead,
    {
        CellState::Dead
    }
}

/// A grid is rectangular when every row is as long as the first one.
pub open spec fn is_rectangular(g: Seq<Seq<CellState>>) -> bool {
    forall|i: int| 0 <= i < g.len() ==> #[trigger] g[i].len() == g[0].len()
}

/// The mathematical value of a sequence of rows.
pub open spec fn grid_view(grid: Seq<Vec<CellState>>) -> Seq<Seq<CellState>> {
    grid.map_values(|row: Vec<CellState>| row@)
}

/// `g` has exactly `rows` rows of `cols` cells each.
pub open spec fn has_shape(g: Seq<Seq<CellState>>, rows: int, cols: int) -> bool {
    &&& g.len() == rows
    &&& forall|i: int| 0 <= i < rows ==> #[trigger] g[i].len() == cols
}

/// 1 if `(i, j)` lies inside the grid and holds a live cell, 0 otherwise.
pub open spec fn live_at(g: Seq<Seq<CellState>>, i: int, j: int) -> int {
    if 0 <= i < g.len() && 0 <= j < g[i].len() && g[i][j] == CellState::Alive {
        1
    } else {
        0
    }
}

/// Number of live cells among the (up to) eight Moore neighbours of
/// `(r, c)`; positions outside the grid do not count and there is no wrap.
pub open spec fn live_neighbors(g: Seq<Seq<CellState>>, r: int, c: int) -> int {
    live_at(g, r - 1, c - 1) + live_at(g, r - 1, c) + live_at(g, r - 1, c + 1)
        + live_at(g, r, c - 1) + live_at(g, r, c + 1)
        + live_at(g, r + 1, c - 1) + live_at(g, r + 1, c) + live_at(g, r + 1, c + 1)
}

/// The B3/S23 rule: a live cell survives with two or three live neighbours,
/// a dead cell is born with exactly three.
pub open spec fn rule(s: CellState, n: int) -> CellState {
    match s {
        CellState::Alive => if n == 2 || n == 3 {
            CellState::Alive
        } else {
            CellState::Dead
        },
        CellState::Dead => if n == 3 {
            CellState::Alive
        } else {
            CellState::Dead
        },
    }
}

/// 1 when `grid[i][j]` is alive, 0 when it is dead or `j` is past the row.
fn live_in_row(grid: &[Vec<CellState>], i: usize, j: usize) -> (r: u8)
    requires
        i < grid@.len(),
    ensures
        r as int == live_at(grid_view(grid@), i as int, j as int),
{
    if j < grid[i].len() && grid[i][j] == CellState::Alive {
        1
    } else {
        0
    }
}

impl CellState {
    /// Count the live neighbours of the cell at `(row, col)`.
    pub fn count_live_neighbors(&self, grid: &[Vec<CellState>], row: usize, col: usize) -> (r: u8)
        requires
            is_rectangular(grid_view(grid@)),
            row < grid@.len(),
            col < grid@[0]@.len(),
        ensures
            r as int == live_neighbors(grid_view(grid@), row as int, col as int),
            r <= 8,
    {
        let rows = grid.len();
        let cols = grid[0].len();
        assert(col + 1 <= cols);
        let mut count: u8 = 0;
        if row > 0 {
            if col > 0 {
                count = count + live_in_row(grid, row - 1, col - 1);
            }
            count = count + live_in_row(grid, row - 1, col);
            count = count + live_in_row(grid, row - 1, col + 1);
        }
        if col > 0 {
            count = count + live_in_row(grid, row, col - 1);
        }
        count = count + live_in_row(grid, row, col + 1);
        if row + 1 < rows {
            if col > 0 {
                count = count + live_in_row(grid, row + 1, col - 1);
            }
            count = count + live_in_row(grid, row + 1, col);
            count = count + live_in_row(grid, row + 1, col + 1);
        }
        count
    }

    /// The state of the cell at `(row, col)` in the next generation, with
    /// `self` as its current state and `grid` as the current generation.
    pub fn next_state(&self, grid: &[Vec<CellState>], row: usize, col: usize) -> (r: CellState)
        requires
            is_rectangular(grid_view(grid@)),
            row < grid@.len(),
            col < grid@[0]@.len(),
        ensures
            r == rule(*self, live_neighbors(grid_view(grid@), row as int, col as int)),
    {
        let live_neighbors = self.count_live_neighbors(grid, row, col);
        match self {
            CellState::Alive => {
                if live_neighbors < 2 || live_neighbors > 3 {
                    CellState::Dead
                } else {
                    CellState::Alive
                }
            },
            CellState::Dead => {
                if live_neighbors == 3 {
                    CellState::Alive
                } else {
                    CellState::Dead
                }
            },
        }
    }

    /// The colour a cell is drawn in: opaque white when alive, opaque black
    /// when dead.
    pub fn get_color(&self) -> (c: Color)
        ensures
            c.data == color_value(*self),
    {
        match self {
            CellState::Alive => {
                let c = Color::rgb(255, 255, 255);
                assert(0xFF00_0000u32 | (255u32 << 16u32) | (255u32 << 8u32) | 255u32 == 0xFFFF_FFFFu32)
                    by (bit_vector);
                c
            },
            CellState::Dead => {
                let c = Color::rgb(0, 0, 0);
                assert(0xFF00_0000u32 | (0u32 << 16u32) | (0u32 << 8u32) | 0u32 == 0xFF00_0000u32)
                    by (bit_vector);
                c
            },
        }
    }
}

/// The packed ARGB value of a cell's colour.
pub open spec fn color_value(s: CellState) -> u32 {
    match s {
        CellState::Alive => 0xFFFF_FFFF,
        CellState::Dead => 0xFF00_0000,
    }
}

/// The grid one generation after `g`: every cell follows the rule applied to
/// its own state and its live neighbours in `g`.
pub open spec fn next_generation(g: Seq<Seq<CellState>>) -> Seq<Seq<CellState>> {
    Seq::new(
        g.len(),
        |i: int| Seq::new(g[i].len(), |j: int| rule(g[i][j], live_neighbors(g, i, j))),
    )
}

/// The grid after `n` generations starting from `g`.
pub open spec fn generations(g: Seq<Seq<CellState>>, n: nat) -> Seq<Seq<CellState>>
    decreases n,
{
    if n == 0 {
        g
    } else {
        next_generation(generations(g, (n - 1) as nat))
    }
}

/// Every cell of `g` is in state `s`.
pub open spec fn all_cells(g: Seq<Seq<CellState>>, s: CellState) -> bool {
    forall|i: int, j: int| 0 <= i < g.len() && 0 <= j < g[i].len() ==> #[trigger] g[i][j] == s
}

/// A chance `numerator / denominator` is a probability in `[0, 1]`.
pub open spec fn valid_chance(numerator: i64, denominator: u32) -> bool {
    0 < denominator && 0 <= numerator <= denominator
}

/// A rejected construction parameter.
#[derive(Clone, Copy, Debug, PartialEq, Eq, Structural)]
pub enum ConfigError {
    /// The chance of starting alive lies outside `[0, 1]` or has a zero
    /// denominator.
    ProbabilityOutOfRange,
}

/// The simulation state: a `rows` by `cols` grid of cells.
#[derive(Clone, Debug)]
pub struct SimulationState {
    pub grid: Vec<Vec<CellState>>,
    pub rows: usize,
    pub cols: usize,
}

impl Default for SimulationState {
    /// An empty grid with no rows and no columns.
    fn default() -> (r: SimulationState)
        ensures
            r.wf(),
            r.rows == 0,
            r.cols == 0,
            r.cells().len() == 0,
    {
        let r = SimulationState { grid: Vec::new(), rows: 0, cols: 0 };
        assert(r.cells() =~= Seq::<Seq<CellState>>::empty());
        r
    }
}

impl SimulationState {
    /// The grid as rows of cell states.
    pub open spec fn cells(&self) -> Seq<Seq<CellState>> {
        grid_view(self.grid@)
    }

    /// The grid has `rows` rows of `cols` cells each.
    pub open spec fn wf(&self) -> bool {
        has_shape(self.cells(), self.rows as int, self.cols as int)
    }

    /// A `rows` by `cols` grid where each cell independently starts alive with
    /// chance `alive_numerator / alive_denominator`.
    pub fn new(rows: usize, cols: usize, alive_numerator: i64, alive_denominator: u32) -> (r: Result<
        SimulationState,
        ConfigError,
    >)
        ensures
            match r {
                Ok(s) => {
                    &&& valid_chance(alive_numerator, alive_denominator)
                    &&& s.wf()
                    &&& s.rows == rows
                    &&& s.cols == cols
                    &&& alive_numerator == 0 ==> all_cells(s.cells(), CellState::Dead)
                    &&& alive_numerator == alive_denominator ==> all_cells(s.cells(), CellState::Alive)
                },
                Err(e) => {
                    &&& !valid_chance(alive_numerator, alive_denominator)
                    &&& e == ConfigError::ProbabilityOutOfRange
                },
            },
    {
        if alive_denominator == 0 || alive_numerator < 0 || alive_numerator > alive_denominator as i64 {
            return Err(ConfigError::ProbabilityOutOfRange);
        }
        let numerator = alive_numerator as u32;
        let mut grid: Vec<Vec<CellState>> = Vec::new();
        let mut i: usize = 0;
        while i < rows
            invariant
                i <= rows,
                numerator as int == alive_numerator,
                valid_chance(alive_numerator, alive_denominator),
                has_shape(grid_view(grid@), i as int, cols as int),
                numerator == 0 ==> all_cells(grid_view(grid@), CellState::Dead),
                numerator == alive_denominator ==> all_cells(grid_view(grid@), CellState::Alive),
            decreases rows - i,
        {
            let mut row: Vec<CellState> = Vec::new();
            let mut j: usize = 0;
            while j < cols
                invariant
                    j <= cols,
                    numerator as int == alive_numerator,
                    valid_chance(alive_numerator, alive_denominator),
                    row@.len() == j,
                    numerator == 0 ==> forall|k: int| 0 <= k < j ==> row@[k] == CellState::Dead,
                    numerator == alive_denominator ==> forall|k: int|
                        0 <= k < j ==> row@[k] == CellState::Alive,
                decreases cols - j,
            {
                let alive = draw_ratio(numerator, alive_denominator);
                row.push(if alive { CellState::Alive } else { CellState::Dead });
                j = j + 1;
            }
            let ghost before = grid@;
            grid.push(row);
            assert(grid_view(grid@) =~= grid_view(before).push(row@));
            i = i + 1;
        }
        Ok(SimulationState { grid, rows, cols })
    }

    /// Advance the simulation by one generation. Every new cell is computed
    /// from the grid as it was before the call, never from cells already
    /// updated, so the order of the per-cell computation does not matter.
    pub fn update(&mut self)
        requires
            old(self).wf(),
        ensures
            final(self).wf(),
            final(self).rows == old(self).rows,
            final(self).cols == old(self).cols,
            final(self).cells() == next_generation(old(self).cells()),
    {
        let ghost g = self.cells();
        let mut next: Vec<Vec<CellState>> = Vec::new();
        let mut i: usize = 0;
        while i < self.rows
            invariant
                *self == *old(self),
                self.wf(),
                g == self.cells(),
                i <= self.rows,
                next@.len() == i,
                forall|k: int| 0 <= k < i ==> #[trigger] next@[k]@ == next_generation(g)[k],
            decreases self.rows - i,
        {
            assert(g[0].len() == self.cols);
            let mut row: Vec<CellState> = Vec::new();
            let mut j: usize = 0;
            while j < self.cols
                invariant
                    is_rectangular(g),
                    g[0].len() == self.cols,
                    *self == *old(self),
                    self.wf(),
                    g == self.cells(),
                    i < self.rows,
                    j <= self.cols,
                    row@.len() == j,
                    forall|l: int|
                        0 <= l < j ==> #[trigger] row@[l] == rule(g[i as int][l], live_neighbors(g, i as int, l)),
                decreases self.cols - j,
            {
                let cell = self.grid[i][j];
                row.push(cell.next_state(self.grid.as_slice(), i, j));
                j = j + 1;
            }
            assert(row@ =~= next_generation(g)[i as int]);
            next.push(row);
            i = i + 1;
        }
        self.grid = next;
        assert(self.cells() =~~= next_generation(g));
    }

    /// The current state of the cell at `(row, col)`.
    pub fn get_cell(&self, row: usize, col: usize) -> (r: CellState)
        requires
            self.wf(),
            row < self.rows,
            col < self.cols,
        ensures
            r == self.cells()[row as int][col as int],
    {
        self.grid[row][col]
    }
}

} // verus!

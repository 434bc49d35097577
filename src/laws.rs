//! Properties of neighbour counting and of the generation step.

use crate::simulation::{
    all_cells, generations, is_rectangular, live_at, live_neighbors, next_generation, CellState,
};
use vstd::prelude::*;

verus! {

/// A `rows` by `cols` grid whose live cells are exactly the 2x2 block with
/// top-left corner `(r, c)`.
pub open spec fn block(rows: nat, cols: nat, r: int, c: int) -> Seq<Seq<CellState>> {
    Seq::new(
        rows,
        |i: int|
            Seq::new(
                cols,
                |j: int|
                    if r <= i <= r + 1 && c <= j <= c + 1 {
                        CellState::Alive
                    } else {
                        CellState::Dead
                    },
            ),
    )
}

/// A `rows` by `cols` grid whose live cells are exactly `(r, c - 1)`,
/// `(r, c)` and `(r, c + 1)`.
pub open spec fn horizontal_blinker(rows: nat, cols: nat, r: int, c: int) -> Seq<Seq<CellState>> {
    Seq::new(
        rows,
        |i: int|
            Seq::new(
                cols,
                |j: int|
                    if i == r && c - 1 <= j <= c + 1 {
                        CellState::Alive
                    } else {
                        CellState::Dead
                    },
            ),
    )
}

/// A `rows` by `cols` grid whose live cells are exactly `(r - 1, c)`,
/// `(r, c)` and `(r + 1, c)`.
pub open spec fn vertical_blinker(rows: nat, cols: nat, r: int, c: int) -> Seq<Seq<CellState>> {
    Seq::new(
        rows,
        |i: int|
            Seq::new(
                cols,
                |j: int|
                    if j == c && r - 1 <= i <= r + 1 {
                        CellState::Alive
                    } else {
                        CellState::Dead
                    },
            ),
    )
}

/// A cell has between zero and eight live neighbours, and its own state is
/// not among them: setting the cell to any state leaves its count unchanged.
pub proof fn lemma_neighbors_exclude_cell(g: Seq<Seq<CellState>>, r: int, c: int, s: CellState)
    requires
        0 <= r < g.len(),
        0 <= c < g[r].len(),
    ensures
        0 <= live_neighbors(g, r, c) <= 8,
        live_neighbors(g.update(r, g[r].update(c, s)), r, c) == live_neighbors(g, r, c),
{
    let h = g.update(r, g[r].update(c, s));
    assert forall|i: int, j: int| !(i == r && j == c) implies live_at(h, i, j) == live_at(g, i, j) by {
        if i == r {
            assert(h[i] == g[r].update(c, s));
        }
    }
    assert(live_at(h, r - 1, c - 1) == live_at(g, r - 1, c - 1));
    assert(live_at(h, r - 1, c) == live_at(g, r - 1, c));
    assert(live_at(h, r - 1, c + 1) == live_at(g, r - 1, c + 1));
    assert(live_at(h, r, c - 1) == live_at(g, r, c - 1));
    assert(live_at(h, r, c + 1) == live_at(g, r, c + 1));
    assert(live_at(h, r + 1, c - 1) == live_at(g, r + 1, c - 1));
    assert(live_at(h, r + 1, c) == live_at(g, r + 1, c));
    assert(live_at(h, r + 1, c + 1) == live_at(g, r + 1, c + 1));
}

/// Only in-bounds positions count: a corner cell has at most three live
/// neighbours and any other cell on the border at most five.
pub proof fn lemma_border_neighbors(g: Seq<Seq<CellState>>, r: int, c: int)
    requires
        is_rectangular(g),
        0 <= r < g.len(),
        0 <= c < g[0].len(),
    ensures
        (r == 0 || r == g.len() - 1) && (c == 0 || c == g[0].len() - 1) ==> live_neighbors(g, r, c) <= 3,
        (r == 0 || r == g.len() - 1 || c == 0 || c == g[0].len() - 1) ==> live_neighbors(g, r, c) <= 5,
{
    assert forall|i: int| 0 <= i < g.len() implies #[trigger] g[i].len() == g[0].len() by {}
    if r - 1 >= 0 {
        assert(g[r - 1].len() == g[0].len());
    }
    if r + 1 < g.len() {
        assert(g[r + 1].len() == g[0].len());
    }
    assert(g[r].len() == g[0].len());
}

/// A 2x2 block of live cells with every other cell dead is a still life:
/// one generation leaves it unchanged.
pub proof fn lemma_block_is_still(rows: nat, cols: nat, r: int, c: int)
    requires
        0 <= r,
        r + 1 < rows,
        0 <= c,
        c + 1 < cols,
    ensures
        next_generation(block(rows, cols, r, c)) == block(rows, cols, r, c),
{
    let g = block(rows, cols, r, c);
    let n = next_generation(g);
    assert forall|i: int, j: int| 0 <= i < rows && 0 <= j < cols implies #[trigger] n[i][j] == g[i][j] by {
    }
    assert(n =~~= g);
}

/// A horizontal blinker turns into a vertical one in one generation and back
/// into the horizontal one in the next.
pub proof fn lemma_blinker_oscillates(rows: nat, cols: nat, r: int, c: int)
    requires
        1 <= r,
        r + 1 < rows,
        1 <= c,
        c + 1 < cols,
    ensures
        next_generation(horizontal_blinker(rows, cols, r, c)) == vertical_blinker(rows, cols, r, c),
        next_generation(vertical_blinker(rows, cols, r, c)) == horizontal_blinker(rows, cols, r, c),
        generations(horizontal_blinker(rows, cols, r, c), 2) == horizontal_blinker(rows, cols, r, c),
{
    let h = horizontal_blinker(rows, cols, r, c);
    let v = vertical_blinker(rows, cols, r, c);
    let nh = next_generation(h);
    let nv = next_generation(v);
    assert forall|i: int, j: int| 0 <= i < rows && 0 <= j < cols implies #[trigger] nh[i][j] == v[i][j] by {}
    assert(nh =~~= v);
    assert forall|i: int, j: int| 0 <= i < rows && 0 <= j < cols implies #[trigger] nv[i][j] == h[i][j] by {}
    assert(nv =~~= h);
    assert(generations(h, 1) == next_generation(generations(h, 0)));
    assert(generations(h, 2) == next_generation(generations(h, 1)));
}

/// A grid with no live cell keeps no live cell for any number of generations.
pub proof fn lemma_dead_grid_stays_dead(g: Seq<Seq<CellState>>, n: nat)
    requires
        all_cells(g, CellState::Dead),
    ensures
        all_cells(generations(g, n), CellState::Dead),
    decreases n,
{
    if n > 0 {
        let p = generations(g, (n - 1) as nat);
        lemma_dead_grid_stays_dead(g, (n - 1) as nat);
        assert forall|i: int, j: int| 0 <= i < p.len() && 0 <= j < p[i].len() implies
            #[trigger] next_generation(p)[i][j] == CellState::Dead by {
            assert forall|a: int, b: int| #[trigger] live_at(p, a, b) == 0 by {
                if 0 <= a < p.len() && 0 <= b < p[a].len() {
                    assert(p[a][b] == CellState::Dead);
                }
            }
            assert(live_neighbors(p, i, j) == 0);
        }
    }
}

} // verus!

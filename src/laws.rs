use vstd::prelude::*;

use crate::board::{
    all_in_grid, generation, in_grid, lemma_cells_of_in_grid, lemma_cells_of_index, lemma_cells_of_len,
    lemma_live_count_bound, step, Board, Position, cells_of,
};
use crate::condition::{all_hold, count_in_rect, exact_of, in_rect};
use core::ops::Range;

verus! {

/// Counting over the whole grid of a board counts every cell of an on-grid set.
pub proof fn lemma_count_whole_grid(size: u16, cells: Set<(int, int)>)
    requires
        cells.finite(),
        forall|c: (int, int)| #[trigger] cells.contains(c) ==> in_grid(size as int, c),
    ensures
        count_in_rect(
            cells,
            Range { start: 0u16, end: size },
            Range { start: 0u16, end: size },
        ) == cells.len(),
{
    let xr = Range { start: 0u16, end: size };
    assert(cells.filter(|c: (int, int)| in_rect(c, xr, xr)) =~= cells);
}

/// A list of distinct on-grid cells meets the exact-match conditions it gives.
pub proof fn lemma_cells_meet_their_exact_conditions(size: u16, cells: Seq<Position>)
    requires
        forall|i: int| 0 <= i < cells.len() ==> in_grid(size as int, #[trigger] cells[i].key()),
        cells.no_duplicates(),
        cells.len() <= u32::MAX,
    ensures
        all_hold(exact_of(size, cells), cells_of(cells)),
{
    let conds = exact_of(size, cells);
    lemma_cells_of_len(cells);
    lemma_cells_of_in_grid(cells, size as int);
    lemma_count_whole_grid(size, cells_of(cells));
    assert forall|i: int| 0 <= i < conds.len() implies #[trigger] conds[i].holds(cells_of(cells)) by {
        if i < cells.len() {
            lemma_cells_of_index(cells, i);
        }
    }
}

/// A board meets its own exact-match conditions.
pub proof fn lemma_board_meets_its_exact_conditions(b: Board)
    requires
        b.wf(),
    ensures
        all_hold(b.exact_conditions(), b.live_set()),
{
    lemma_live_count_bound(b);
    lemma_cells_meet_their_exact_conditions(b.size, b.live_cells@);
}

/// A board with one more live cell than `b`, and otherwise the same, fails the
/// exact-match conditions of `b`: the count over the whole grid is one too many.
pub proof fn lemma_extra_cell_fails_exact_conditions(b: Board, c: Board, p: (int, int))
    requires
        b.wf(),
        c.wf(),
        c.size == b.size,
        !b.live_set().contains(p),
        c.live_set() == b.live_set().insert(p),
    ensures
        !all_hold(b.exact_conditions(), c.live_set()),
{
    let conds = b.exact_conditions();
    lemma_cells_of_len(b.live_cells@);
    lemma_cells_of_len(c.live_cells@);
    lemma_cells_of_in_grid(c.live_cells@, c.size as int);
    lemma_count_whole_grid(c.size, c.live_set());
    lemma_live_count_bound(b);
    assert(!conds[conds.len() - 1].holds(c.live_set()));
}

/// A board with one live cell of `b` taken away, and otherwise the same, fails the
/// exact-match conditions of `b`.
pub proof fn lemma_missing_cell_fails_exact_conditions(b: Board, c: Board, p: (int, int))
    requires
        b.wf(),
        c.wf(),
        c.size == b.size,
        b.live_set().contains(p),
        c.live_set() == b.live_set().remove(p),
    ensures
        !all_hold(b.exact_conditions(), c.live_set()),
{
    let conds = b.exact_conditions();
    lemma_cells_of_len(b.live_cells@);
    lemma_cells_of_len(c.live_cells@);
    lemma_cells_of_in_grid(c.live_cells@, c.size as int);
    lemma_count_whole_grid(c.size, c.live_set());
    lemma_live_count_bound(b);
    assert(!conds[conds.len() - 1].holds(c.live_set()));
}

/// Zero steps leave the cells as they are, and each further step is one more
/// application of the rule.
pub proof fn lemma_generation_steps(size: int, cells: Set<(int, int)>, n: nat)
    ensures
        generation(size, cells, 0) == cells,
        generation(size, cells, n + 1) == step(size, generation(size, cells, n)),
{
}

/// Advancing `m` steps and then `n` steps is advancing `m + n` steps.
pub proof fn lemma_generation_compose(size: int, cells: Set<(int, int)>, m: nat, n: nat)
    ensures
        generation(size, generation(size, cells, m), n) == generation(size, cells, m + n),
    decreases n,
{
    if n > 0 {
        lemma_generation_compose(size, cells, m, (n - 1) as nat);
        assert((m + n - 1) as nat == m + (n - 1) as nat);
    }
}

/// A pattern that is back to itself after two steps repeats with period two ever after.
pub proof fn lemma_period_two_repeats(size: int, cells: Set<(int, int)>, n: nat)
    requires
        generation(size, cells, 2) == cells,
    ensures
        generation(size, cells, n + 2) == generation(size, cells, n),
{
    lemma_generation_compose(size, cells, 2, n);
    assert(2 + n == n + 2);
}

/// A live cell in the corner `(0, 0)` with none of its three neighbors on the grid live
/// dies in the next step, whatever the size of the grid.
pub proof fn lemma_lonely_corner_cell_dies(size: int, cells: Set<(int, int)>)
    requires
        all_in_grid(size, cells),
        !cells.contains((1, 0)),
        !cells.contains((0, 1)),
        !cells.contains((1, 1)),
    ensures
        !step(size, cells).contains((0, 0)),
{
    assert(!cells.contains((-1, -1)) && !cells.contains((0, -1)) && !cells.contains((1, -1)));
    assert(!cells.contains((-1, 0)) && !cells.contains((-1, 1)));
}

} // verus!

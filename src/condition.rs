use vstd::prelude::*;

use crate::board::{
    cells_of, lemma_cells_of_len, lemma_cells_of_member, lemma_cells_of_push,
    lemma_live_count_bound, Board, Position,
};
use core::ops::Range;

verus! {

/// A test on a board.
#[derive(Debug, PartialEq, Eq)]
pub enum Condition {
    /// Holds when the cell at `position` is live exactly when `is_live` says so.
    TestPosition { position: Position, is_live: bool },
    /// Holds when the number of live cells in the half-open rectangle
    /// `x_range` by `y_range` lies between the two counts, both included.
    TestRectangle {
        x_range: Range<u16>,
        y_range: Range<u16>,
        min_live_count: u32,
        max_live_count: u32,
    },
}

impl Clone for Condition {
    fn clone(&self) -> (r: Condition)
        ensures
            r == *self,
    {
        match self {
            Condition::TestPosition { position, is_live } => Condition::TestPosition {
                position: *position,
                is_live: *is_live,
            },
            Condition::TestRectangle { x_range, y_range, min_live_count, max_live_count } => {
                Condition::TestRectangle {
                    x_range: Range { start: x_range.start, end: x_range.end },
                    y_range: Range { start: y_range.start, end: y_range.end },
                    min_live_count: *min_live_count,
                    max_live_count: *max_live_count,
                }
            },
        }
    }
}

/// Whether a cell lies in the half-open rectangle `x_range` by `y_range`.
pub open spec fn in_rect(c: (int, int), x_range: Range<u16>, y_range: Range<u16>) -> bool {
    x_range.start <= c.0 < x_range.end && y_range.start <= c.1 < y_range.end
}

/// The number of cells of a set in the rectangle `x_range` by `y_range`.
pub open spec fn count_in_rect(cells: Set<(int, int)>, x_range: Range<u16>, y_range: Range<u16>) -> nat {
    cells.filter(|c: (int, int)| in_rect(c, x_range, y_range)).len()
}

impl Condition {
    /// Whether the condition holds of a board whose live cells are `cells`.
    pub open spec fn holds(&self, cells: Set<(int, int)>) -> bool {
        match *self {
            Condition::TestPosition { position, is_live } => cells.contains(position.key())
                == is_live,
            Condition::TestRectangle { x_range, y_range, min_live_count, max_live_count } => {
                let n = count_in_rect(cells, x_range, y_range);
                min_live_count <= n && n <= max_live_count
            },
        }
    }

    /// Whether the condition holds of `board`.
    pub fn evaluate(&self, board: &Board) -> (r: bool)
        requires
            board.wf(),
        ensures
            r == self.holds(board.live_set()),
    {
        match self {
            Condition::TestPosition { position, is_live } => board.is_live(*position) == *is_live,
            Condition::TestRectangle { x_range, y_range, min_live_count, max_live_count } => {
                let n = count_live_in_rect(board, x_range, y_range);
                *min_live_count as u64 <= n && n <= *max_live_count as u64
            },
        }
    }
}

/// Whether every condition of a list holds of a board whose live cells are `cells`.
pub open spec fn all_hold(conditions: Seq<Condition>, cells: Set<(int, int)>) -> bool {
    forall|i: int| 0 <= i < conditions.len() ==> #[trigger] conditions[i].holds(cells)
}

/// Whether every condition of a list holds of `board`; an empty list always holds.
pub fn evaluate_all(conditions: &Vec<Condition>, board: &Board) -> (r: bool)
    requires
        board.wf(),
    ensures
        r == all_hold(conditions@, board.live_set()),
{
    let mut i: usize = 0;
    while i < conditions.len()
        invariant
            board.wf(),
            i <= conditions@.len(),
            forall|j: int| 0 <= j < i ==> #[trigger] conditions@[j].holds(board.live_set()),
        decreases conditions@.len() - i,
    {
        if !conditions[i].evaluate(board) {
            return false;
        }
        i += 1;
    }
    true
}

/// The exact-match conditions of a board of side `size` with live cells `cells`: one
/// live-cell test for each cell, in order, then a count of exactly that many live cells
/// over the whole grid.
pub open spec fn exact_of(size: u16, cells: Seq<Position>) -> Seq<Condition> {
    Seq::new(cells.len(), |i: int| Condition::TestPosition { position: cells[i], is_live: true }).push(
        Condition::TestRectangle {
            x_range: Range { start: 0u16, end: size },
            y_range: Range { start: 0u16, end: size },
            min_live_count: cells.len() as u32,
            max_live_count: cells.len() as u32,
        },
    )
}

impl Board {
    /// The conditions that this board meets and every other board of its size fails:
    /// one live-cell test for each live cell, in the board's order, then a count of
    /// exactly that many live cells over the whole grid.
    pub open spec fn exact_conditions(&self) -> Seq<Condition> {
        exact_of(self.size, self.live_cells@)
    }

    /// The conditions that single out this board among the boards of its size.
    pub fn to_exactly_matching_conditions(&self) -> (r: Vec<Condition>)
        requires
            self.wf(),
        ensures
            r@ == self.exact_conditions(),
    {
        proof {
            lemma_live_count_bound(*self);
        }
        let mut r: Vec<Condition> = Vec::new();
        let mut i: usize = 0;
        while i < self.live_cells.len()
            invariant
                i <= self.live_cells@.len(),
                r@.len() == i,
                forall|j: int|
                    0 <= j < i ==> r@[j] == (Condition::TestPosition {
                        position: self.live_cells@[j],
                        is_live: true,
                    }),
            decreases self.live_cells@.len() - i,
        {
            r.push(Condition::TestPosition { position: self.live_cells[i], is_live: true });
            i += 1;
        }
        let n = self.live_cells.len() as u32;
        r.push(
            Condition::TestRectangle {
                x_range: Range { start: 0, end: self.size },
                y_range: Range { start: 0, end: self.size },
                min_live_count: n,
                max_live_count: n,
            },
        );
        assert(r@ =~= self.exact_conditions());
        r
    }
}

/// A copy of a list of conditions.
pub fn copy_conditions(conditions: &Vec<Condition>) -> (r: Vec<Condition>)
    ensures
        r@ == conditions@,
{
    let mut r: Vec<Condition> = Vec::new();
    let mut i: usize = 0;
    while i < conditions.len()
        invariant
            i <= conditions@.len(),
            r@ == conditions@.take(i as int),
        decreases conditions@.len() - i,
    {
        r.push(conditions[i].clone());
        assert(conditions@.take(i + 1) =~= conditions@.take(i as int).push(conditions@[i as int]));
        i += 1;
    }
    assert(conditions@.take(conditions@.len() as int) =~= conditions@);
    r
}

proof fn lemma_count_push(s: Seq<Position>, p: Position, x_range: Range<u16>, y_range: Range<u16>)
    requires
        s.push(p).no_duplicates(),
    ensures
        count_in_rect(cells_of(s.push(p)), x_range, y_range) == count_in_rect(
            cells_of(s),
            x_range,
            y_range,
        ) + if in_rect(p.key(), x_range, y_range) {
            1int
        } else {
            0int
        },
{
    let f = |c: (int, int)| in_rect(c, x_range, y_range);
    assert(s =~= s.push(p).drop_last());
    assert(s.no_duplicates());
    lemma_cells_of_len(s);
    lemma_cells_of_push(s, p);
    if cells_of(s).contains(p.key()) {
        lemma_cells_of_member(s, p.key());
        let k = choose|k: int| 0 <= k < s.len() && s[k].key() == p.key();
        assert(s.push(p)[k] == s.push(p)[s.len() as int]);
    }
    cells_of(s).lemma_len_filter(f);
    if f(p.key()) {
        assert(cells_of(s).insert(p.key()).filter(f) =~= cells_of(s).filter(f).insert(p.key()));
    } else {
        assert(cells_of(s).insert(p.key()).filter(f) =~= cells_of(s).filter(f));
    }
}

/// The number of live cells of `board` in the rectangle `x_range` by `y_range`.
fn count_live_in_rect(board: &Board, x_range: &Range<u16>, y_range: &Range<u16>) -> (r: u64)
    requires
        board.wf(),
    ensures
        r == count_in_rect(board.live_set(), *x_range, *y_range),
{
    let cells = &board.live_cells;
    let mut n: u64 = 0;
    let mut i: usize = 0;
    assert(cells_of(cells@.take(0)).filter(|c: (int, int)| in_rect(c, *x_range, *y_range))
        =~= Set::empty());
    while i < cells.len()
        invariant
            board.wf(),
            cells == &board.live_cells,
            i <= cells@.len(),
            n <= i,
            n == count_in_rect(cells_of(cells@.take(i as int)), *x_range, *y_range),
        decreases cells@.len() - i,
    {
        let p = cells[i];
        assert(cells@.take(i + 1) =~= cells@.take(i as int).push(p));
        assert(cells@.take(i + 1).no_duplicates());
        proof {
            lemma_count_push(cells@.take(i as int), p, *x_range, *y_range);
        }
        if x_range.start <= p.x && p.x < x_range.end && y_range.start <= p.y && p.y < y_range.end {
            n += 1;
        }
        i += 1;
    }
    assert(cells@.take(cells@.len() as int) =~= cells@);
    n
}

} // verus!

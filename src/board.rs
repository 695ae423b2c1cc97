use vstd::prelude::*;

verus! {

/// A cell coordinate on the board; the origin is the top-left corner.
#[derive(Clone, Copy, Debug, PartialEq, Eq, Structural, PartialOrd, Ord, Hash)]
pub struct Position {
    pub x: u16,
    pub y: u16,
}

impl Position {
    /// The coordinate pair of this position, as mathematical integers.
    pub open spec fn key(self) -> (int, int) {
        (self.x as int, self.y as int)
    }
}

/// The coordinates held by a sequence of positions.
pub open spec fn cells_of(s: Seq<Position>) -> Set<(int, int)>
    decreases s.len(),
{
    if s.len() == 0 {
        Set::empty()
    } else {
        cells_of(s.drop_last()).insert(s.last().key())
    }
}

/// Whether the cell `a` comes before the cell `b`: by column, then by row.
pub open spec fn before(a: (int, int), b: (int, int)) -> bool {
    a.0 < b.0 || (a.0 == b.0 && a.1 < b.1)
}

/// Whether a list of positions is strictly increasing, by column and then by row.
pub open spec fn sorted(s: Seq<Position>) -> bool {
    forall|i: int, j: int|
        0 <= i < j < s.len() ==> before(#[trigger] s[i].key(), #[trigger] s[j].key())
}

/// Whether a coordinate pair lies on a `size` by `size` grid.
pub open spec fn in_grid(size: int, c: (int, int)) -> bool {
    0 <= c.0 < size && 0 <= c.1 < size
}

/// Whether every cell of a set lies on a `size` by `size` grid.
pub open spec fn all_in_grid(size: int, cells: Set<(int, int)>) -> bool {
    forall|c: (int, int)| #[trigger] cells.contains(c) ==> in_grid(size, c)
}

/// One for a live cell, zero otherwise.
pub open spec fn live_bit(cells: Set<(int, int)>, x: int, y: int) -> int {
    if cells.contains((x, y)) {
        1
    } else {
        0
    }
}

/// The number of live cells among the eight cells around `(x, y)`.
pub open spec fn live_neighbors(cells: Set<(int, int)>, x: int, y: int) -> int {
    live_bit(cells, x - 1, y - 1) + live_bit(cells, x, y - 1) + live_bit(cells, x + 1, y - 1)
        + live_bit(cells, x - 1, y) + live_bit(cells, x + 1, y) + live_bit(cells, x - 1, y + 1)
        + live_bit(cells, x, y + 1) + live_bit(cells, x + 1, y + 1)
}

/// The rule of the game: a cell is live in the next generation when it has three live
/// neighbors, or two and is live now.
pub open spec fn lives_on(cells: Set<(int, int)>, x: int, y: int) -> bool {
    let n = live_neighbors(cells, x, y);
    n == 3 || (n == 2 && cells.contains((x, y)))
}

/// The next generation on a `size` by `size` grid; nothing lives off the grid.
pub open spec fn step(size: int, cells: Set<(int, int)>) -> Set<(int, int)> {
    Set::new(|c: (int, int)| in_grid(size, c) && lives_on(cells, c.0, c.1))
}

/// The generation `n` steps after `cells`.
pub open spec fn generation(size: int, cells: Set<(int, int)>, n: nat) -> Set<(int, int)>
    decreases n,
{
    if n == 0 {
        cells
    } else {
        step(size, generation(size, cells, (n - 1) as nat))
    }
}

/// Each listed position is among the coordinates of the list.
pub proof fn lemma_cells_of_index(s: Seq<Position>, i: int)
    requires
        0 <= i < s.len(),
    ensures
        cells_of(s).contains(s[i].key()),
    decreases s.len(),
{
    if i < s.len() - 1 {
        lemma_cells_of_index(s.drop_last(), i);
    }
}

/// Each coordinate of a list comes from one of its positions.
pub proof fn lemma_cells_of_member(s: Seq<Position>, c: (int, int))
    requires
        cells_of(s).contains(c),
    ensures
        exists|i: int| 0 <= i < s.len() && s[i].key() == c,
    decreases s.len(),
{
    if s.len() > 0 && s.last().key() != c {
        lemma_cells_of_member(s.drop_last(), c);
        let i = choose|i: int| 0 <= i < s.len() - 1 && s.drop_last()[i].key() == c;
        assert(s[i].key() == c);
    }
}

/// A sequence without repeats holds as many positions as it has coordinates.
pub proof fn lemma_cells_of_len(s: Seq<Position>)
    requires
        s.no_duplicates(),
    ensures
        cells_of(s).finite(),
        cells_of(s).len() == s.len(),
    decreases s.len(),
{
    if s.len() > 0 {
        let t = s.drop_last();
        assert(t.no_duplicates());
        lemma_cells_of_len(t);
        if cells_of(t).contains(s.last().key()) {
            lemma_cells_of_member(t, s.last().key());
            let i = choose|i: int| 0 <= i < t.len() && t[i].key() == s.last().key();
            assert(s[i] == s[s.len() - 1]);
        }
    }
}

/// A list of on-grid positions has only on-grid coordinates.
pub proof fn lemma_cells_of_in_grid(s: Seq<Position>, size: int)
    requires
        forall|i: int| 0 <= i < s.len() ==> in_grid(size, #[trigger] s[i].key()),
    ensures
        all_in_grid(size, cells_of(s)),
{
    assert forall|c: (int, int)| #[trigger] cells_of(s).contains(c) implies in_grid(size, c) by {
        lemma_cells_of_member(s, c);
    }
}

/// Appending a position adds its coordinates.
pub proof fn lemma_cells_of_push(s: Seq<Position>, p: Position)
    ensures
        cells_of(s.push(p)) == cells_of(s).insert(p.key()),
{
    assert(s.push(p).drop_last() =~= s);
}

/// Inserting a position anywhere adds its coordinates.
pub proof fn lemma_cells_of_insert(s: Seq<Position>, k: int, p: Position)
    requires
        0 <= k <= s.len(),
    ensures
        cells_of(s.insert(k, p)) == cells_of(s).insert(p.key()),
{
    let t = s.insert(k, p);
    assert forall|c: (int, int)|
        #[trigger] cells_of(t).contains(c) <==> cells_of(s).insert(p.key()).contains(c) by {
        if cells_of(t).contains(c) {
            lemma_cells_of_member(t, c);
            let j = choose|j: int| 0 <= j < t.len() && t[j].key() == c;
            if j < k {
                lemma_cells_of_index(s, j);
            } else if j > k {
                lemma_cells_of_index(s, j - 1);
            }
        }
        if cells_of(s).contains(c) {
            lemma_cells_of_member(s, c);
            let j = choose|j: int| 0 <= j < s.len() && s[j].key() == c;
            if j < k {
                lemma_cells_of_index(t, j);
            } else {
                lemma_cells_of_index(t, j + 1);
            }
        }
        if c == p.key() {
            lemma_cells_of_index(t, k);
        }
    }
    assert(cells_of(t) =~= cells_of(s).insert(p.key()));
}

/// A sorted list lists no position twice.
pub proof fn lemma_sorted_distinct(s: Seq<Position>)
    requires
        sorted(s),
    ensures
        s.no_duplicates(),
{
    assert forall|i: int, j: int| 0 <= i < s.len() && 0 <= j < s.len() && i != j implies s[i]
        != s[j] by {
        if i < j {
            assert(before(s[i].key(), s[j].key()));
        } else {
            assert(before(s[j].key(), s[i].key()));
        }
    }
}

/// The last position of a sorted list is not among the coordinates of the others.
proof fn lemma_sorted_last_is_new(s: Seq<Position>)
    requires
        sorted(s),
        s.len() > 0,
    ensures
        !cells_of(s.drop_last()).contains(s.last().key()),
        cells_of(s.drop_last()) == cells_of(s).remove(s.last().key()),
        sorted(s.drop_last()),
{
    let d = s.drop_last();
    if cells_of(d).contains(s.last().key()) {
        lemma_cells_of_member(d, s.last().key());
        let k = choose|k: int| 0 <= k < d.len() && d[k].key() == s.last().key();
        assert(before(s[k].key(), s[s.len() - 1].key()));
    }
    assert(cells_of(d) =~= cells_of(s).remove(s.last().key()));
    assert forall|i: int, j: int| 0 <= i < j < d.len() implies before(
        #[trigger] d[i].key(),
        #[trigger] d[j].key(),
    ) by {
        assert(before(s[i].key(), s[j].key()));
    }
}

/// Two sorted lists with the same coordinates are the same list: the order of a
/// board's live cells is fixed by which cells are live.
pub proof fn lemma_sorted_cells_agree(s: Seq<Position>, t: Seq<Position>)
    requires
        sorted(s),
        sorted(t),
        cells_of(s) == cells_of(t),
    ensures
        s == t,
    decreases s.len(),
{
    if s.len() == 0 || t.len() == 0 {
        if s.len() > 0 {
            lemma_cells_of_index(s, s.len() - 1);
        }
        if t.len() > 0 {
            lemma_cells_of_index(t, t.len() - 1);
        }
        assert(s =~= t);
    } else {
        let a = s.last();
        let b = t.last();
        lemma_cells_of_index(s, s.len() - 1);
        lemma_cells_of_index(t, t.len() - 1);
        lemma_cells_of_member(t, a.key());
        lemma_cells_of_member(s, b.key());
        let ka = choose|k: int| 0 <= k < t.len() && t[k].key() == a.key();
        let kb = choose|k: int| 0 <= k < s.len() && s[k].key() == b.key();
        if ka < t.len() - 1 {
            assert(before(t[ka].key(), t[t.len() - 1].key()));
        }
        if kb < s.len() - 1 {
            assert(before(s[kb].key(), s[s.len() - 1].key()));
        }
        assert(a == b);
        lemma_sorted_last_is_new(s);
        lemma_sorted_last_is_new(t);
        lemma_sorted_cells_agree(s.drop_last(), t.drop_last());
        assert(s =~= s.drop_last().push(a));
        assert(t =~= t.drop_last().push(b));
    }
}

/// Two well-formed boards with the same live cells list them in the same order, so
/// they have the same exact-match conditions too.
pub proof fn lemma_boards_with_same_cells_agree(a: Board, b: Board)
    requires
        a.wf(),
        b.wf(),
        a.live_set() == b.live_set(),
    ensures
        a.live_cells@ == b.live_cells@,
{
    lemma_sorted_cells_agree(a.live_cells@, b.live_cells@);
}

/// Where the cell `(x, y)` sits in a flat, column-major grid of side `size`.
pub open spec fn grid_index(size: int, x: int, y: int) -> int {
    x * size + y
}

/// A flat grid of side `size` that holds exactly the cells of `cells`.
pub open spec fn grid_holds(g: Seq<bool>, size: int, cells: Set<(int, int)>) -> bool {
    &&& g.len() == size * size
    &&& forall|x: int, y: int|
        0 <= x < size && 0 <= y < size ==> g[#[trigger] grid_index(size, x, y)] == cells.contains(
            (x, y),
        )
}

/// A cell of the grid has an index inside the flat grid.
proof fn lemma_grid_index_bounds(size: int, x: int, y: int)
    requires
        0 <= x < size,
        0 <= y < size,
    ensures
        0 <= grid_index(size, x, y) < size * size,
{
    assert(0 <= x * size + y < size * size) by (nonlinear_arith)
        requires
            0 <= x < size,
            0 <= y < size,
    ;
}

/// Two cells of the grid have different indices in the flat grid.
proof fn lemma_grid_index_distinct(size: int, x1: int, y1: int, x2: int, y2: int)
    requires
        0 <= x1 < size,
        0 <= y1 < size,
        0 <= x2 < size,
        0 <= y2 < size,
        x1 != x2 || y1 != y2,
    ensures
        grid_index(size, x1, y1) != grid_index(size, x2, y2),
{
    if x1 < x2 {
        assert(x1 * size + y1 < x2 * size + y2) by (nonlinear_arith)
            requires
                x1 < x2,
                0 <= y1 < size,
                0 <= y2,
        ;
    } else if x2 < x1 {
        assert(x2 * size + y2 < x1 * size + y1) by (nonlinear_arith)
            requires
                x2 < x1,
                0 <= y2 < size,
                0 <= y1,
        ;
    }
}

/// The flat grid of the largest board fits in 32 bits.
proof fn lemma_grid_len_fits(size: int)
    requires
        0 <= size <= 65535,
    ensures
        size * size <= 4294836225,
{
    assert(size * size <= 65535 * 65535) by (nonlinear_arith)
        requires
            0 <= size <= 65535,
    ;
}

/// A board holds at most one live cell per square of its grid.
pub proof fn lemma_live_count_bound(b: Board)
    requires
        b.wf(),
    ensures
        b.live_cells@.len() <= b.size * b.size,
        b.live_cells@.len() <= 4294836225,
{
    let size = b.size as int;
    let x = b.live_set();
    lemma_cells_of_len(b.live_cells@);
    lemma_cells_of_in_grid(b.live_cells@, size);
    let f = |c: (int, int)| grid_index(size, c.0, c.1);
    assert forall|c1: (int, int), c2: (int, int)|
        x.contains(c1) && x.contains(c2) && #[trigger] f(c1) == #[trigger] f(c2) implies c1
        == c2 by {
        if c1 != c2 {
            lemma_grid_index_distinct(size, c1.0, c1.1, c2.0, c2.1);
        }
    }
    let y = x.map(f);
    vstd::set_lib::lemma_map_size(x, y, f);
    assert forall|k: int| #[trigger] y.contains(k) implies vstd::set_lib::set_int_range(
        0,
        size * size,
    ).contains(k) by {
        let c = choose|c: (int, int)| x.contains(c) && f(c) == k;
        lemma_grid_index_bounds(size, c.0, c.1);
    }
    assert(0 <= size * size) by (nonlinear_arith);
    vstd::set_lib::lemma_int_range(0, size * size);
    vstd::set_lib::lemma_len_subset(y, vstd::set_lib::set_int_range(0, size * size));
    lemma_grid_len_fits(size);
}

/// A position that does not lie on the board it was meant for.
#[derive(Clone, Copy, Debug, PartialEq, Eq, Structural)]
pub struct OutOfBoundsPosition {
    pub position: Position,
}

/// The board: a `size` by `size` grid and the positions of its live cells, each once.
#[derive(Clone, Debug)]
pub struct Board {
    pub size: u16,
    pub live_cells: Vec<Position>,
}

impl Board {
    /// Every live cell lies on the grid, and the cells are listed by column, then by
    /// row, each once.
    pub open spec fn wf(&self) -> bool {
        &&& forall|i: int|
            0 <= i < self.live_cells@.len() ==> in_grid(
                self.size as int,
                #[trigger] self.live_cells@[i].key(),
            )
        &&& sorted(self.live_cells@)
        &&& self.live_cells@.no_duplicates()
    }

    /// The coordinates of the live cells.
    pub open spec fn live_set(&self) -> Set<(int, int)> {
        cells_of(self.live_cells@)
    }

    /// A board of the given size whose live cells are the given positions, listed by
    /// column and then by row; a position given twice is one live cell.
    pub fn with_live_cells(size: u16, positions: Vec<Position>) -> (r: Board)
        requires
            forall|i: int|
                0 <= i < positions@.len() ==> in_grid(size as int, #[trigger] positions@[i].key()),
        ensures
            r.wf(),
            r.size == size,
            r.live_set() == cells_of(positions@),
            positions@.no_duplicates() ==> r.live_cells@.len() == positions@.len(),
    {
        let mut cells: Vec<Position> = Vec::new();
        let mut i: usize = 0;
        while i < positions.len()
            invariant
                i <= positions@.len(),
                forall|j: int|
                    0 <= j < positions@.len() ==> in_grid(
                        size as int,
                        #[trigger] positions@[j].key(),
                    ),
                cells_of(cells@) == cells_of(positions@.take(i as int)),
                sorted(cells@),
                forall|j: int|
                    0 <= j < cells@.len() ==> in_grid(size as int, #[trigger] cells@[j].key()),
            decreases positions@.len() - i,
        {
            let p = positions[i];
            let ghost old_cells = cells@;
            assert(positions@.take(i + 1).drop_last() =~= positions@.take(i as int));
            let mut k: usize = 0;
            while k < cells.len() && (cells[k].x < p.x || (cells[k].x == p.x && cells[k].y < p.y))
                invariant
                    cells@ == old_cells,
                    k <= cells@.len(),
                    forall|j: int| 0 <= j < k ==> before(#[trigger] cells@[j].key(), p.key()),
                decreases cells@.len() - k,
            {
                k += 1;
            }
            if k < cells.len() && cells[k] == p {
                proof {
                    lemma_cells_of_index(old_cells, k as int);
                    assert(cells_of(positions@.take(i + 1)) =~= cells_of(old_cells));
                }
            } else {
                cells.insert(k, p);
                proof {
                    lemma_cells_of_insert(old_cells, k as int, p);
                    assert forall|a: int, b: int| 0 <= a < b < cells@.len() implies before(
                        #[trigger] cells@[a].key(),
                        #[trigger] cells@[b].key(),
                    ) by {
                        if a < k && b > k {
                            assert(before(old_cells[a].key(), p.key()));
                            assert(!before(old_cells[k as int].key(), p.key()));
                            if b - 1 > k {
                                assert(before(old_cells[k as int].key(), old_cells[b - 1].key()));
                            }
                        } else if a == k && b > k {
                            assert(!before(old_cells[k as int].key(), p.key()));
                            if b - 1 > k {
                                assert(before(old_cells[k as int].key(), old_cells[b - 1].key()));
                            }
                        } else if a > k {
                            assert(before(old_cells[a - 1].key(), old_cells[b - 1].key()));
                        } else if a < k && b < k {
                            assert(before(old_cells[a].key(), old_cells[b].key()));
                        }
                    }
                }
            }
            i += 1;
        }
        assert(positions@.take(positions@.len() as int) =~= positions@);
        proof {
            lemma_sorted_distinct(cells@);
            if positions@.no_duplicates() {
                lemma_cells_of_len(cells@);
                lemma_cells_of_len(positions@);
            }
        }
        Board { size, live_cells: cells }
    }

    /// A board of the given size whose live cells are the given positions, or the first
    /// position that lies off the grid.
    pub fn try_with_live_cells(size: u16, positions: Vec<Position>) -> (r: Result<
        Board,
        OutOfBoundsPosition,
    >)
        ensures
            match r {
                Ok(b) => {
                    &&& forall|i: int|
                        0 <= i < positions@.len() ==> in_grid(
                            size as int,
                            #[trigger] positions@[i].key(),
                        )
                    &&& b.wf()
                    &&& b.size == size
                    &&& b.live_set() == cells_of(positions@)
                },
                Err(e) => exists|k: int|
                    0 <= k < positions@.len() && positions@[k] == e.position && !in_grid(
                        size as int,
                        e.position.key(),
                    ) && forall|j: int|
                        0 <= j < k ==> in_grid(size as int, #[trigger] positions@[j].key()),
            },
    {
        let mut i: usize = 0;
        while i < positions.len()
            invariant
                i <= positions@.len(),
                forall|j: int| 0 <= j < i ==> in_grid(size as int, #[trigger] positions@[j].key()),
            decreases positions@.len() - i,
        {
            let p = positions[i];
            if p.x >= size || p.y >= size {
                return Err(OutOfBoundsPosition { position: p });
            }
            i += 1;
        }
        Ok(Board::with_live_cells(size, positions))
    }

    /// Whether the cell at `p` is live.
    pub fn is_live(&self, p: Position) -> (r: bool)
        ensures
            r == self.live_set().contains(p.key()),
    {
        let found = contains_position(&self.live_cells, p);
        proof {
            if found {
                let k = choose|k: int| 0 <= k < self.live_cells@.len() && self.live_cells@[k] == p;
                lemma_cells_of_index(self.live_cells@, k);
            } else if self.live_set().contains(p.key()) {
                lemma_cells_of_member(self.live_cells@, p.key());
                let k = choose|k: int|
                    0 <= k < self.live_cells@.len() && self.live_cells@[k].key() == p.key();
                assert(self.live_cells@[k] == p);
            }
        }
        found
    }

    /// A flat grid of the board's cells, for constant-time lookups.
    fn grid(&self) -> (g: Vec<bool>)
        requires
            self.wf(),
        ensures
            grid_holds(g@, self.size as int, self.live_set()),
    {
        let size = self.size;
        proof {
            lemma_grid_len_fits(size as int);
        }
        let n: usize = (size as usize) * (size as usize);
        let mut g: Vec<bool> = Vec::new();
        let mut k: usize = 0;
        while k < n
            invariant
                k <= n,
                n == size * size,
                g@.len() == k,
                forall|j: int| 0 <= j < k ==> !g@[j],
            decreases n - k,
        {
            g.push(false);
            k += 1;
        }
        assert(cells_of(self.live_cells@.take(0)) == Set::<(int, int)>::empty());
        assert forall|x: int, y: int|
            0 <= x < size && 0 <= y < size implies g@[#[trigger] grid_index(size as int, x, y)]
            == cells_of(self.live_cells@.take(0)).contains((x, y)) by {
            lemma_grid_index_bounds(size as int, x, y);
        }
        let mut i: usize = 0;
        while i < self.live_cells.len()
            invariant
                self.wf(),
                i <= self.live_cells@.len(),
                n == size * size,
                size == self.size,
                grid_holds(g@, size as int, cells_of(self.live_cells@.take(i as int))),
            decreases self.live_cells@.len() - i,
        {
            let p = self.live_cells[i];
            let ghost before = g@;
            let ghost prev = cells_of(self.live_cells@.take(i as int));
            assert(self.live_cells@.take(i + 1) =~= self.live_cells@.take(i as int).push(p));
            proof {
                lemma_cells_of_push(self.live_cells@.take(i as int), p);
                assert(in_grid(size as int, self.live_cells@[i as int].key()));
                lemma_grid_index_bounds(size as int, p.x as int, p.y as int);
                assert(p.x * size <= grid_index(size as int, p.x as int, p.y as int));
            }
            let idx: usize = (p.x as usize) * (size as usize) + (p.y as usize);
            assert(idx == grid_index(size as int, p.x as int, p.y as int));
            g.set(idx, true);
            assert forall|x: int, y: int|
                0 <= x < size && 0 <= y < size implies g@[#[trigger] grid_index(size as int, x, y)]
                == cells_of(self.live_cells@.take(i + 1)).contains((x, y)) by {
                lemma_grid_index_bounds(size as int, x, y);
                if x != p.x || y != p.y {
                    lemma_grid_index_distinct(size as int, x, y, p.x as int, p.y as int);
                }
            }
            i += 1;
        }
        assert(self.live_cells@.take(self.live_cells@.len() as int) =~= self.live_cells@);
        g
    }

    /// The board one generation later. Cells off the grid count as dead and never
    /// come to life.
    pub fn advance_once(&self) -> (r: Board)
        requires
            self.wf(),
        ensures
            r.wf(),
            r.size == self.size,
            r.live_set() == step(self.size as int, self.live_set()),
    {
        let size = self.size;
        let ghost cells = self.live_set();
        let g = self.grid();
        proof {
            lemma_cells_of_in_grid(self.live_cells@, size as int);
        }
        let mut out: Vec<Position> = Vec::new();
        let mut x: u16 = 0;
        while x < size
            invariant
                x <= size,
                size == self.size,
                cells == self.live_set(),
                grid_holds(g@, size as int, cells),
                all_in_grid(size as int, cells),
                out@.no_duplicates(),
                sorted(out@),
                forall|j: int| 0 <= j < out@.len() ==> in_grid(size as int, #[trigger] out@[j].key()),
                forall|c: (int, int)|
                    #[trigger] cells_of(out@).contains(c) <==> (in_grid(size as int, c) && c.0 < x
                        && lives_on(cells, c.0, c.1)),
            decreases size - x,
        {
            let mut y: u16 = 0;
            while y < size
                invariant
                    x < size,
                    y <= size,
                    size == self.size,
                    cells == self.live_set(),
                    grid_holds(g@, size as int, cells),
                    all_in_grid(size as int, cells),
                    out@.no_duplicates(),
                sorted(out@),
                    forall|j: int|
                        0 <= j < out@.len() ==> in_grid(size as int, #[trigger] out@[j].key()),
                    forall|c: (int, int)|
                        #[trigger] cells_of(out@).contains(c) <==> (in_grid(size as int, c) && (c.0
                            < x || (c.0 == x && c.1 < y)) && lives_on(cells, c.0, c.1)),
                decreases size - y,
            {
                let xi = x as i32;
                let yi = y as i32;
                let n: u8 = grid_bit(&g, size, xi - 1, yi - 1, Ghost(cells)) + grid_bit(
                    &g,
                    size,
                    xi,
                    yi - 1,
                    Ghost(cells),
                ) + grid_bit(&g, size, xi + 1, yi - 1, Ghost(cells)) + grid_bit(
                    &g,
                    size,
                    xi - 1,
                    yi,
                    Ghost(cells),
                ) + grid_bit(&g, size, xi + 1, yi, Ghost(cells)) + grid_bit(
                    &g,
                    size,
                    xi - 1,
                    yi + 1,
                    Ghost(cells),
                ) + grid_bit(&g, size, xi, yi + 1, Ghost(cells)) + grid_bit(
                    &g,
                    size,
                    xi + 1,
                    yi + 1,
                    Ghost(cells),
                );
                let alive = grid_bit(&g, size, xi, yi, Ghost(cells)) == 1;
                assert(n == live_neighbors(cells, x as int, y as int));
                let ghost prev_out = out@;
                if n == 3 || (n == 2 && alive) {
                    let p = Position { x, y };
                    out.push(p);
                    proof {
                        lemma_cells_of_push(prev_out, p);
                        if prev_out.contains(p) {
                            let k = choose|k: int| 0 <= k < prev_out.len() && prev_out[k] == p;
                            lemma_cells_of_index(prev_out, k);
                        }
                        assert forall|a: int, b: int| 0 <= a < b < out@.len() implies before(
                            #[trigger] out@[a].key(),
                            #[trigger] out@[b].key(),
                        ) by {
                            if b == out@.len() - 1 {
                                lemma_cells_of_index(prev_out, a);
                            }
                        }
                        assert(out@.no_duplicates()) by {
                            assert forall|a: int, b: int|
                                0 <= a < b < out@.len() implies out@[a] != out@[b] by {
                                if b == out@.len() - 1 {
                                    assert(prev_out.contains(prev_out[a]));
                                }
                            }
                        }
                    }
                }
                y += 1;
            }
            x += 1;
        }
        let r = Board { size, live_cells: out };
        assert(r.live_set() =~= step(size as int, cells));
        r
    }

    /// A copy of the board, with its live cells in the same order.
    pub fn duplicate(&self) -> (r: Board)
        ensures
            r.size == self.size,
            r.live_cells@ == self.live_cells@,
    {
        let mut cells: Vec<Position> = Vec::new();
        let mut i: usize = 0;
        while i < self.live_cells.len()
            invariant
                i <= self.live_cells@.len(),
                cells@ == self.live_cells@.take(i as int),
            decreases self.live_cells@.len() - i,
        {
            cells.push(self.live_cells[i]);
            assert(self.live_cells@.take(i + 1) =~= self.live_cells@.take(i as int).push(
                self.live_cells@[i as int],
            ));
            i += 1;
        }
        assert(self.live_cells@.take(self.live_cells@.len() as int) =~= self.live_cells@);
        Board { size: self.size, live_cells: cells }
    }

    /// The board `steps` generations later; zero steps give an equal board.
    pub fn advance(&self, steps: u16) -> (r: Board)
        requires
            self.wf(),
        ensures
            r.wf(),
            r.size == self.size,
            r.live_set() == generation(self.size as int, self.live_set(), steps as nat),
    {
        let mut b = self.duplicate();
        let mut i: u16 = 0;
        while i < steps
            invariant
                i <= steps,
                b.wf(),
                b.size == self.size,
                b.live_set() == generation(self.size as int, self.live_set(), i as nat),
            decreases steps - i,
        {
            b = b.advance_once();
            i += 1;
        }
        b
    }
}

/// Every position of `a` occurs in `b`.
fn all_occur_in(a: &Vec<Position>, b: &Vec<Position>) -> (r: bool)
    ensures
        r == cells_of(a@).subset_of(cells_of(b@)),
{
    let mut i: usize = 0;
    while i < a.len()
        invariant
            i <= a@.len(),
            forall|j: int| 0 <= j < i ==> cells_of(b@).contains(#[trigger] a@[j].key()),
        decreases a@.len() - i,
    {
        let found = contains_position(b, a[i]);
        proof {
            if found {
                let k = choose|k: int| 0 <= k < b@.len() && b@[k] == a@[i as int];
                lemma_cells_of_index(b@, k);
            } else if cells_of(b@).contains(a@[i as int].key()) {
                lemma_cells_of_member(b@, a@[i as int].key());
                let k = choose|k: int| 0 <= k < b@.len() && b@[k].key() == a@[i as int].key();
                assert(b@[k] == a@[i as int]);
            }
        }
        if !found {
            proof {
                lemma_cells_of_index(a@, i as int);
            }
            return false;
        }
        i += 1;
    }
    assert forall|c: (int, int)| #[trigger] cells_of(a@).contains(c) implies cells_of(b@).contains(
        c,
    ) by {
        lemma_cells_of_member(a@, c);
    }
    true
}

/// Two boards are equal when they have the same size and the same live cells, in
/// whatever order they are listed.
impl PartialEq for Board {
    fn eq(&self, other: &Board) -> (r: bool) {
        let r = self.size == other.size && all_occur_in(&self.live_cells, &other.live_cells)
            && all_occur_in(&other.live_cells, &self.live_cells);
        proof {
            if r {
                assert(self.live_set() =~= other.live_set());
            }
        }
        r
    }
}

impl vstd::std_specs::cmp::PartialEqSpecImpl for Board {
    open spec fn obeys_eq_spec() -> bool {
        true
    }

    open spec fn eq_spec(&self, other: &Board) -> bool {
        self.size == other.size && self.live_set() == other.live_set()
    }
}

/// Whether the cell `(x, y)` of a grid is live, as one or zero; cells off the grid are dead.
fn grid_bit(g: &Vec<bool>, size: u16, x: i32, y: i32, Ghost(cells): Ghost<Set<(int, int)>>) -> (r: u8)
    requires
        grid_holds(g@, size as int, cells),
        all_in_grid(size as int, cells),
    ensures
        r == live_bit(cells, x as int, y as int),
{
    if x < 0 || y < 0 || x >= size as i32 || y >= size as i32 {
        assert(!in_grid(size as int, (x as int, y as int)));
        0
    } else {
        proof {
            lemma_grid_len_fits(size as int);
            lemma_grid_index_bounds(size as int, x as int, y as int);
            assert(x * size <= grid_index(size as int, x as int, y as int));
        }
        let idx: usize = (x as usize) * (size as usize) + (y as usize);
        assert(idx == grid_index(size as int, x as int, y as int));
        if g[idx] {
            1
        } else {
            0
        }
    }
}

fn contains_position(v: &Vec<Position>, p: Position) -> (r: bool)
    ensures
        r == v@.contains(p),
{
    let mut i: usize = 0;
    while i < v.len()
        invariant
            i <= v@.len(),
            forall|j: int| 0 <= j < i ==> v@[j] != p,
        decreases v@.len() - i,
    {
        if v[i] == p {
            return true;
        }
        i += 1;
    }
    false
}

} // verus!

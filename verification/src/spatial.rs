//! A grid over the ground plane that sorts colliders into square cells, so that collision
//! tests only compare objects that share a cell. Cells are named by their column and row;
//! objects by their 64-bit entity id. Turning a position into a cell is left to the
//! caller (it is floating-point work).

use vstd::prelude::*;

verus! {

/// No two entries name the same cell.
pub open spec fn keys_unique(s: Seq<((i32, i32), Vec<u64>)>) -> bool {
    forall|i: int, j: int| 0 <= i < s.len() && 0 <= j < s.len() && i != j ==> s[i].0 != s[j].0
}

/// Whether some entry names cell `c`.
pub open spec fn has_cell(s: Seq<((i32, i32), Vec<u64>)>, c: (i32, i32)) -> bool {
    exists|i: int| 0 <= i < s.len() && s[i].0 == c
}

/// The map from cell to the entities in it that a list of entries stands for.
pub open spec fn cells_map(s: Seq<((i32, i32), Vec<u64>)>) -> Map<(i32, i32), Seq<u64>> {
    Map::new(
        |c: (i32, i32)| has_cell(s, c),
        |c: (i32, i32)| s[choose|i: int| 0 <= i < s.len() && s[i].0 == c].1@,
    )
}

/// The entities in cell `c` of a grid (none for a cell never filled).
pub open spec fn cell_contents(m: Map<(i32, i32), Seq<u64>>, c: (i32, i32)) -> Seq<u64> {
    if m.dom().contains(c) {
        m[c]
    } else {
        Seq::empty()
    }
}

/// Whether cell `c` lies within `radius` cells of `center` in both directions.
pub open spec fn in_square(c: (i32, i32), center: (i32, i32), radius: int) -> bool {
    &&& center.0 - radius <= c.0 <= center.0 + radius
    &&& center.1 - radius <= c.1 <= center.1 + radius
}

/// The cells within `radius` of `center`, column by column (the column offset runs from
/// `-radius` to `radius`, and within it the row offset).
pub open spec fn spec_square(center: (i32, i32), radius: int) -> Seq<(i32, i32)> {
    let n = 2 * radius + 1;
    if radius < 0 {
        Seq::empty()
    } else {
        Seq::new(
            (n * n) as nat,
            |k: int| ((center.0 - radius + k / n) as i32, (center.1 - radius + k % n) as i32),
        )
    }
}

/// The entities of the listed cells, cell after cell.
pub open spec fn spec_gather(m: Map<(i32, i32), Seq<u64>>, cells: Seq<(i32, i32)>) -> Seq<u64>
    decreases cells.len(),
{
    if cells.len() == 0 {
        Seq::empty()
    } else {
        spec_gather(m, cells.drop_last()) + cell_contents(m, cells.last())
    }
}

proof fn lemma_value_at(s: Seq<((i32, i32), Vec<u64>)>, i: int)
    requires
        keys_unique(s),
        0 <= i < s.len(),
    ensures
        cells_map(s).dom().contains(s[i].0),
        cells_map(s)[s[i].0] == s[i].1@,
{
    let c = s[i].0;
    assert(has_cell(s, c));
    let j = choose|j: int| 0 <= j < s.len() && s[j].0 == c;
    assert(j == i);
}

proof fn lemma_set_value(s: Seq<((i32, i32), Vec<u64>)>, i: int, v: Vec<u64>)
    requires
        keys_unique(s),
        0 <= i < s.len(),
    ensures
        keys_unique(s.update(i, (s[i].0, v))),
        cells_map(s.update(i, (s[i].0, v))) == cells_map(s).insert(s[i].0, v@),
{
    let n = s.update(i, (s[i].0, v));
    let key = s[i].0;
    assert(keys_unique(n));
    assert forall|c: (i32, i32)| has_cell(n, c) <==> has_cell(s, c) by {
        if has_cell(n, c) {
            let j = choose|j: int| 0 <= j < n.len() && n[j].0 == c;
            assert(s[j].0 == c);
        }
        if has_cell(s, c) {
            let j = choose|j: int| 0 <= j < s.len() && s[j].0 == c;
            assert(n[j].0 == c);
        }
    }
    assert forall|c: (i32, i32)| #[trigger] has_cell(n, c) implies cells_map(n)[c] == cells_map(
        s,
    ).insert(key, v@)[c] by {
        let j = choose|j: int| 0 <= j < n.len() && n[j].0 == c;
        lemma_value_at(n, j);
        if j == i {
            assert(c == key);
        } else {
            assert(n[j] == s[j]);
            lemma_value_at(s, j);
            assert(c != key);
        }
    }
    assert(cells_map(n) =~= cells_map(s).insert(key, v@));
}

proof fn lemma_push_new(s: Seq<((i32, i32), Vec<u64>)>, c: (i32, i32), v: Vec<u64>)
    requires
        keys_unique(s),
        !has_cell(s, c),
    ensures
        keys_unique(s.push((c, v))),
        cells_map(s.push((c, v))) == cells_map(s).insert(c, v@),
{
    let n = s.push((c, v));
    assert forall|i: int, j: int|
        0 <= i < n.len() && 0 <= j < n.len() && i != j implies n[i].0 != n[j].0 by {
        if i < s.len() && j < s.len() {
            assert(n[i] == s[i] && n[j] == s[j]);
        } else if i < s.len() {
            assert(n[i] == s[i]);
        } else if j < s.len() {
            assert(n[j] == s[j]);
        }
    }
    assert forall|d: (i32, i32)| has_cell(n, d) <==> (has_cell(s, d) || d == c) by {
        if has_cell(n, d) {
            let j = choose|j: int| 0 <= j < n.len() && n[j].0 == d;
            if j < s.len() {
                assert(s[j].0 == d);
            }
        }
        if has_cell(s, d) {
            let j = choose|j: int| 0 <= j < s.len() && s[j].0 == d;
            assert(n[j].0 == d);
        }
        if d == c {
            assert(n[s.len() as int].0 == d);
        }
    }
    assert forall|d: (i32, i32)| #[trigger] has_cell(n, d) implies cells_map(n)[d] == cells_map(
        s,
    ).insert(c, v@)[d] by {
        let j = choose|j: int| 0 <= j < n.len() && n[j].0 == d;
        lemma_value_at(n, j);
        if j < s.len() {
            assert(n[j] == s[j]);
            lemma_value_at(s, j);
        }
    }
    assert(cells_map(n) =~= cells_map(s).insert(c, v@));
}

/// Position of the entry of cell `c`, if there is one.
fn find_cell(cells: &Vec<((i32, i32), Vec<u64>)>, c: (i32, i32)) -> (r: Option<usize>)
    requires
        keys_unique(cells@),
    ensures
        r matches Some(i) ==> i < cells@.len() && cells@[i as int].0 == c,
        r is None ==> !has_cell(cells@, c),
{
    let mut i: usize = 0;
    while i < cells.len()
        invariant
            i <= cells@.len(),
            forall|k: int| 0 <= k < i ==> cells@[k].0 != c,
        decreases cells@.len() - i,
    {
        if cells[i].0.0 == c.0 && cells[i].0.1 == c.1 {
            return Some(i);
        }
        i = i + 1;
    }
    None
}

/// Adds entity `e` at the end of the list of cell `c`.
fn add_to_cell(cells: &mut Vec<((i32, i32), Vec<u64>)>, c: (i32, i32), e: u64)
    requires
        keys_unique(old(cells)@),
    ensures
        keys_unique(final(cells)@),
        cells_map(final(cells)@) == cells_map(old(cells)@).insert(
            c,
            cell_contents(cells_map(old(cells)@), c).push(e),
        ),
{
    let ghost s = cells@;
    match find_cell(cells, c) {
        Some(i) => {
            proof {
                lemma_value_at(s, i as int);
            }
            let mut v: Vec<u64> = Vec::new();
            std::mem::swap(&mut v, &mut cells[i].1);
            v.push(e);
            let ghost nv = v;
            cells.set(i, (c, v));
            proof {
                lemma_set_value(s, i as int, nv);
                assert(cells@ =~= s.update(i as int, (s[i as int].0, nv)));
            }
        },
        None => {
            let mut v: Vec<u64> = Vec::new();
            v.push(e);
            proof {
                lemma_push_new(s, c, v);
                assert(cell_contents(cells_map(s), c) =~= Seq::<u64>::empty());
                assert(v@ =~= seq![e]);
            }
            cells.push((c, v));
        },
    }
}

/// The cells within `radius` of `center`, column by column, as the grid visits them.
pub fn relevant_cells(center: (i32, i32), radius: i32) -> (r: Vec<(i32, i32)>)
    requires
        radius < 0 || (i32::MIN <= center.0 - radius && center.0 + radius <= i32::MAX && i32::MIN
            <= center.1 - radius && center.1 + radius <= i32::MAX),
    ensures
        r@ == spec_square(center, radius as int),
{
    let mut out: Vec<(i32, i32)> = Vec::new();
    if radius < 0 {
        assert(out@ =~= spec_square(center, radius as int));
        return out;
    }
    let ghost n: int = 2 * radius + 1;
    let ghost target = spec_square(center, radius as int);
    let mut dx: i64 = -(radius as i64);
    assert((dx + radius) * n == 0) by (nonlinear_arith)
        requires dx + radius == 0;
    while dx <= radius as i64
        invariant
            0 <= radius,
            n == 2 * radius + 1,
            -radius <= dx <= radius + 1,
            i32::MIN <= center.0 - radius && center.0 + radius <= i32::MAX,
            i32::MIN <= center.1 - radius && center.1 + radius <= i32::MAX,
            target == spec_square(center, radius as int),
            out@.len() == (dx + radius) * n,
            forall|k: int| 0 <= k < out@.len() ==> #[trigger] out@[k] == target[k],
        decreases radius + 1 - dx,
    {
        let ghost row: int = dx + radius;
        let mut dz: i64 = -(radius as i64);
        while dz <= radius as i64
            invariant
                0 <= radius,
                n == 2 * radius + 1,
                -radius <= dx <= radius,
                row == dx + radius,
                -radius <= dz <= radius + 1,
                i32::MIN <= center.0 - radius && center.0 + radius <= i32::MAX,
                i32::MIN <= center.1 - radius && center.1 + radius <= i32::MAX,
                target == spec_square(center, radius as int),
                out@.len() == row * n + (dz + radius),
                forall|k: int| 0 <= k < out@.len() ==> #[trigger] out@[k] == target[k],
            decreases radius + 1 - dz,
        {
            let ghost k: int = row * n + (dz + radius);
            proof {
                vstd::arithmetic::div_mod::lemma_fundamental_div_mod_converse(
                    k,
                    n,
                    row,
                    dz + radius,
                );
                assert(0 <= row * n) by (nonlinear_arith)
                    requires 0 <= row, 0 <= n;
                assert(k < n * n) by (nonlinear_arith)
                    requires 0 <= row < n, 0 <= dz + radius < n, k == row * n + (dz + radius);
            }
            out.push(((center.0 as i64 + dx) as i32, (center.1 as i64 + dz) as i32));
            dz = dz + 1;
        }
        proof {
            assert((row + 1) * n == row * n + n) by (nonlinear_arith);
        }
        dx = dx + 1;
    }
    proof {
        assert(out@.len() == n * n) by (nonlinear_arith)
            requires out@.len() == (dx + radius) * n, dx == radius + 1, n == 2 * radius + 1;
    }
    assert(out@ =~= target);
    out
}

/// The cells that `relevant_cells` lists are exactly the cells within the radius, each
/// listed once, which are the cells that `SpatialGrid::insert` fills.
pub proof fn lemma_square_cells(center: (i32, i32), radius: int, c: (i32, i32))
    requires
        radius < 0 || (i32::MIN <= center.0 - radius && center.0 + radius <= i32::MAX && i32::MIN
            <= center.1 - radius && center.1 + radius <= i32::MAX),
    ensures
        spec_square(center, radius).contains(c) <==> in_square(c, center, radius),
        spec_square(center, radius).no_duplicates(),
{
    let sq = spec_square(center, radius);
    if radius >= 0 {
        let n = 2 * radius + 1;
        assert forall|k: int| 0 <= k < sq.len() implies #[trigger] in_square(sq[k], center, radius)
            && sq[k].0 == center.0 - radius + k / n && sq[k].1 == center.1 - radius + k % n by {
            assert(k < n * n);
            vstd::arithmetic::div_mod::lemma_fundamental_div_mod(k, n);
            assert(0 <= k / n < n) by (nonlinear_arith)
                requires 0 <= k < n * n, n > 0, k == n * (k / n) + k % n, 0 <= k % n < n;
        }
        if in_square(c, center, radius) {
            let row = c.0 - (center.0 - radius);
            let col = c.1 - (center.1 - radius);
            let k = row * n + col;
            vstd::arithmetic::div_mod::lemma_fundamental_div_mod_converse(k, n, row, col);
            assert(0 <= k < n * n) by (nonlinear_arith)
                requires 0 <= row < n, 0 <= col < n, k == row * n + col;
            assert(in_square(sq[k], center, radius));
            assert(sq[k] == c);
        }
        if sq.contains(c) {
            let k = choose|k: int| 0 <= k < sq.len() && sq[k] == c;
            assert(in_square(sq[k], center, radius));
        }
        assert forall|a: int, b: int| 0 <= a < sq.len() && 0 <= b < sq.len() && a != b implies sq[a]
            != sq[b] by {
            assert(in_square(sq[a], center, radius));
            assert(in_square(sq[b], center, radius));
            vstd::arithmetic::div_mod::lemma_fundamental_div_mod(a, n);
            vstd::arithmetic::div_mod::lemma_fundamental_div_mod(b, n);
        }
    }
}

/// The grid: for each cell that something was put in, the entities in it, in the order
/// they were put there.
pub struct SpatialGrid {
    cells: Vec<((i32, i32), Vec<u64>)>,
}

impl View for SpatialGrid {
    type V = Map<(i32, i32), Seq<u64>>;

    closed spec fn view(&self) -> Map<(i32, i32), Seq<u64>> {
        cells_map(self.cells@)
    }
}

impl SpatialGrid {
    #[verifier::type_invariant]
    closed spec fn wf(self) -> bool {
        keys_unique(self.cells@)
    }

    pub fn new() -> (r: SpatialGrid)
        ensures
            r@ == Map::<(i32, i32), Seq<u64>>::empty(),
    {
        let r = SpatialGrid { cells: Vec::new() };
        assert(r@ =~= Map::<(i32, i32), Seq<u64>>::empty());
        r
    }

    /// Empties every cell.
    pub fn clear(&mut self)
        ensures
            final(self)@ == Map::<(i32, i32), Seq<u64>>::empty(),
    {
        self.cells = Vec::new();
        assert(self@ =~= Map::<(i32, i32), Seq<u64>>::empty());
    }

    /// Puts `entity` into every cell within `radius` of `center` (none for a negative
    /// radius), at the end of each cell's list.
    pub fn insert(&mut self, entity: u64, center: (i32, i32), radius: i32)
        requires
            radius < 0 || (i32::MIN <= center.0 - radius && center.0 + radius <= i32::MAX
                && i32::MIN <= center.1 - radius && center.1 + radius <= i32::MAX),
        ensures
            forall|c: (i32, i32)|
                #![trigger final(self)@.dom().contains(c)]
                final(self)@.dom().contains(c) <==> (old(self)@.dom().contains(c) || in_square(
                    c,
                    center,
                    radius as int,
                )),
            forall|c: (i32, i32)|
                #[trigger] final(self)@.dom().contains(c) ==> final(self)@[c] == if in_square(
                    c,
                    center,
                    radius as int,
                ) {
                    cell_contents(old(self)@, c).push(entity)
                } else {
                    old(self)@[c]
                },
    {
        proof {
            use_type_invariant(&*self);
        }
        let ghost m0 = self@;
        let mut cells: Vec<((i32, i32), Vec<u64>)> = Vec::new();
        std::mem::swap(&mut cells, &mut self.cells);
        proof {
            assert(cells_map(cells@) == m0);
        }
        if radius >= 0 {
            let mut dx: i64 = -(radius as i64);
            while dx <= radius as i64
                invariant
                    0 <= radius,
                    -radius <= dx <= radius + 1,
                    i32::MIN <= center.0 - radius && center.0 + radius <= i32::MAX,
                    i32::MIN <= center.1 - radius && center.1 + radius <= i32::MAX,
                    keys_unique(cells@),
                    forall|c: (i32, i32)|
                        #![trigger cells_map(cells@).dom().contains(c)]
                        cells_map(cells@).dom().contains(c) <==> (m0.dom().contains(c) || (
                        in_square(c, center, radius as int) && c.0 < center.0 + dx)),
                    forall|c: (i32, i32)|
                        #[trigger] cells_map(cells@).dom().contains(c) ==> cells_map(cells@)[c] == if in_square(
                            c,
                            center,
                            radius as int,
                        ) && c.0 < center.0 + dx {
                            cell_contents(m0, c).push(entity)
                        } else {
                            m0[c]
                        },
                decreases radius + 1 - dx,
            {
                let mut dz: i64 = -(radius as i64);
                while dz <= radius as i64
                    invariant
                        0 <= radius,
                        -radius <= dx <= radius,
                        -radius <= dz <= radius + 1,
                        i32::MIN <= center.0 - radius && center.0 + radius <= i32::MAX,
                        i32::MIN <= center.1 - radius && center.1 + radius <= i32::MAX,
                        keys_unique(cells@),
                        forall|c: (i32, i32)|
                            #![trigger cells_map(cells@).dom().contains(c)]
                            cells_map(cells@).dom().contains(c) <==> (m0.dom().contains(c) || (
                            in_square(c, center, radius as int) && (c.0 < center.0 + dx || (c.0
                                == center.0 + dx && c.1 < center.1 + dz)))),
                        forall|c: (i32, i32)|
                            #[trigger] cells_map(cells@).dom().contains(c) ==> cells_map(cells@)[c]
                                == if in_square(c, center, radius as int) && (c.0 < center.0 + dx
                                || (c.0 == center.0 + dx && c.1 < center.1 + dz)) {
                                cell_contents(m0, c).push(entity)
                            } else {
                                m0[c]
                            },
                    decreases radius + 1 - dz,
                {
                    let cell = ((center.0 as i64 + dx) as i32, (center.1 as i64 + dz) as i32);
                    let ghost before = cells_map(cells@);
                    proof {
                        assert(cell_contents(before, cell) == cell_contents(m0, cell));
                    }
                    add_to_cell(&mut cells, cell, entity);
                    dz = dz + 1;
                }
                dx = dx + 1;
            }
        }
        self.cells = cells;
    }

    /// The entities in a cell, in the order they were put there.
    pub fn get_entities_in_cell(&self, cell: (i32, i32)) -> (r: &[u64])
        ensures
            r@ == cell_contents(self@, cell),
    {
        proof {
            use_type_invariant(self);
        }
        match find_cell(&self.cells, cell) {
            Some(i) => {
                proof {
                    lemma_value_at(self.cells@, i as int);
                }
                self.cells[i].1.as_slice()
            },
            None => {
                let r: &[u64] = &[];
                assert(r@ =~= cell_contents(self@, cell));
                r
            },
        }
    }

    /// The cells that hold something, each once, in no particular order.
    pub fn get_all_cells(&self) -> (r: Vec<(i32, i32)>)
        ensures
            r@.no_duplicates(),
            r@.to_set() == self@.dom(),
    {
        proof {
            use_type_invariant(self);
        }
        let mut out: Vec<(i32, i32)> = Vec::new();
        let mut i: usize = 0;
        while i < self.cells.len()
            invariant
                i <= self.cells@.len(),
                keys_unique(self.cells@),
                out@.len() == i,
                forall|k: int| 0 <= k < i ==> #[trigger] out@[k] == self.cells@[k].0,
            decreases self.cells@.len() - i,
        {
            out.push(self.cells[i].0);
            i = i + 1;
        }
        proof {
            assert forall|a: int, b: int| 0 <= a < b < out@.len() implies out@[a] != out@[b] by {
                assert(out@[a] == self.cells@[a].0 && out@[b] == self.cells@[b].0);
            }
            assert forall|c: (i32, i32)| out@.to_set().contains(c) <==> self@.dom().contains(c) by {
                if out@.to_set().contains(c) {
                    let k = choose|k: int| 0 <= k < out@.len() && out@[k] == c;
                    assert(self.cells@[k].0 == c);
                }
                if self@.dom().contains(c) {
                    let k = choose|k: int| 0 <= k < self.cells@.len() && self.cells@[k].0 == c;
                    assert(out@[k] == c);
                }
            }
            assert(out@.to_set() =~= self@.dom());
        }
        out
    }

    /// The entities of the listed cells, cell after cell; an entity in several of the cells
    /// comes once for each.
    pub fn get_entities_in_cells(&self, cells: &[(i32, i32)]) -> (r: Vec<u64>)
        ensures
            r@ == spec_gather(self@, cells@),
    {
        let mut out: Vec<u64> = Vec::new();
        let mut i: usize = 0;
        while i < cells.len()
            invariant
                i <= cells@.len(),
                out@ == spec_gather(self@, cells@.take(i as int)),
            decreases cells@.len() - i,
        {
            let part = self.get_entities_in_cell(cells[i]);
            let mut j: usize = 0;
            let ghost start = out@;
            while j < part.len()
                invariant
                    j <= part@.len(),
                    out@ == start + part@.take(j as int),
                decreases part@.len() - j,
            {
                out.push(part[j]);
                j = j + 1;
                assert(out@ =~= start + part@.take(j as int));
            }
            proof {
                assert(part@.take(part@.len() as int) =~= part@);
                assert(cells@.take(i + 1).drop_last() =~= cells@.take(i as int));
            }
            i = i + 1;
        }
        assert(cells@.take(cells@.len() as int) =~= cells@);
        out
    }
}

impl Default for SpatialGrid {
    fn default() -> (r: SpatialGrid)
        ensures
            r@ == Map::<(i32, i32), Seq<u64>>::empty(),
    {
        Self::new()
    }
}

} // verus!

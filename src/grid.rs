//! The frame grid: a sparse map from integer cell coordinates to the samples
//! that landed in each cell during the current frame. Cells are kept in the
//! order in which they were first touched.
use std::collections::HashMap;
use vstd::prelude::*;

verus! {

broadcast use vstd::std_specs::hash::group_hash_axioms;

/// One occupied cell and its samples, in arrival order.
pub struct GridCell<S> {
    pub column: u32,
    pub row: u32,
    pub samples: Vec<S>,
}

/// What a grid holds: for each occupied cell, its column, row and samples.
pub type GridView<S> = Seq<(u32, u32, Seq<S>)>;

/// No two entries describe the same cell.
pub open spec fn distinct_cells<S>(v: GridView<S>) -> bool {
    forall|i: int, j: int|
        0 <= i < v.len() && 0 <= j < v.len() && i != j ==> (#[trigger] v[i].0 != #[trigger] v[j].0
            || v[i].1 != v[j].1)
}

pub open spec fn has_cell<S>(v: GridView<S>, column: u32, row: u32) -> bool {
    exists|i: int| 0 <= i < v.len() && v[i].0 == column && v[i].1 == row
}

/// The samples of a cell; empty for a cell that nothing has landed in.
pub open spec fn cell_samples<S>(v: GridView<S>, column: u32, row: u32) -> Seq<S> {
    if has_cell(v, column, row) {
        let i = choose|i: int| 0 <= i < v.len() && v[i].0 == column && v[i].1 == row;
        v[i].2
    } else {
        Seq::empty()
    }
}

/// Appending a sample: pushed onto its cell's list, or a new cell is opened
/// at the end.
pub open spec fn spec_append<S>(v: GridView<S>, column: u32, row: u32, sample: S) -> GridView<S> {
    if has_cell(v, column, row) {
        let i = choose|i: int| 0 <= i < v.len() && v[i].0 == column && v[i].1 == row;
        v.update(i, (column, row, v[i].2.push(sample)))
    } else {
        v.push((column, row, seq![sample]))
    }
}

pub open spec fn cell_key(column: u32, row: u32) -> u64 {
    (column * 0x1_0000_0000 + row) as u64
}

proof fn lemma_cell_key_injective(c1: u32, r1: u32, c2: u32, r2: u32)
    ensures
        cell_key(c1, r1) == cell_key(c2, r2) ==> c1 == c2 && r1 == r2,
{
    assert(c1 * 0x1_0000_0000 + r1 <= u64::MAX) by (nonlinear_arith)
        requires
            c1 <= u32::MAX,
            r1 <= u32::MAX,
    ;
    assert(c2 * 0x1_0000_0000 + r2 <= u64::MAX) by (nonlinear_arith)
        requires
            c2 <= u32::MAX,
            r2 <= u32::MAX,
    ;
    if cell_key(c1, r1) == cell_key(c2, r2) {
        let k = c1 * 0x1_0000_0000 + r1;
        assert(k == c2 * 0x1_0000_0000 + r2);
        assert(c1 == c2) by (nonlinear_arith)
            requires
                c1 * 0x1_0000_0000 + r1 == c2 * 0x1_0000_0000 + r2,
                0 <= r1 < 0x1_0000_0000,
                0 <= r2 < 0x1_0000_0000,
                c1 >= 0,
                c2 >= 0,
        ;
    }
}

proof fn lemma_cell_samples_at<S>(v: GridView<S>, i: int)
    requires
        distinct_cells(v),
        0 <= i < v.len(),
    ensures
        has_cell(v, v[i].0, v[i].1),
        cell_samples(v, v[i].0, v[i].1) == v[i].2,
{
    let j = choose|j: int| 0 <= j < v.len() && v[j].0 == v[i].0 && v[j].1 == v[i].1;
    assert(j == i);
}

proof fn lemma_push_new_cell<S>(v: GridView<S>, column: u32, row: u32, sample: S)
    requires
        distinct_cells(v),
        !has_cell(v, column, row),
    ensures
        spec_append(v, column, row, sample) == v.push((column, row, seq![sample])),
        distinct_cells(v.push((column, row, seq![sample]))),
        cell_samples(v.push((column, row, seq![sample])), column, row) == seq![sample],
        forall|c: u32, r: u32|
            (c != column || r != row) ==> cell_samples(v.push((column, row, seq![sample])), c, r)
                == cell_samples(v, c, r),
{
    let w = v.push((column, row, seq![sample]));
    assert forall|i: int, j: int|
        0 <= i < w.len() && 0 <= j < w.len() && i != j implies (#[trigger] w[i].0
        != #[trigger] w[j].0 || w[i].1 != w[j].1) by {
        if i < v.len() && j < v.len() {
            assert(w[i] == v[i] && w[j] == v[j]);
        } else if i < v.len() {
            assert(w[i] == v[i]);
        } else {
            assert(w[j] == v[j]);
        }
    }
    lemma_cell_samples_at(w, v.len() as int);
    assert forall|c: u32, r: u32|
        (c != column || r != row) implies cell_samples(w, c, r) == cell_samples(v, c, r) by {
        if has_cell(v, c, r) {
            let i = choose|i: int| 0 <= i < v.len() && v[i].0 == c && v[i].1 == r;
            lemma_cell_samples_at(v, i);
            assert(w[i] == v[i]);
            lemma_cell_samples_at(w, i);
        } else {
            assert(!has_cell(w, c, r)) by {
                if has_cell(w, c, r) {
                    let i = choose|i: int| 0 <= i < w.len() && w[i].0 == c && w[i].1 == r;
                    assert(i < v.len());
                    assert(w[i] == v[i]);
                }
            }
        }
    }
}

/// Samples fed into one grid cell are kept whole and in arrival order: a cell
/// that held nothing holds exactly `[a]` once `a` has arrived, and `[a, b]` once
/// `b` has followed; the first sample leaves every other cell as it was.
pub proof fn law_cell_collects_samples<S>(v: GridView<S>, column: u32, row: u32, a: S, b: S)
    requires
        distinct_cells(v),
        !has_cell(v, column, row),
    ensures
        cell_samples(spec_append(v, column, row, a), column, row) == seq![a],
        cell_samples(spec_append(spec_append(v, column, row, a), column, row, b), column, row)
            == seq![a, b],
        forall|c: u32, r: u32|
            (c != column || r != row) ==> cell_samples(spec_append(v, column, row, a), c, r)
                == cell_samples(v, c, r),
{
    lemma_push_new_cell(v, column, row, a);
    let w = v.push((column, row, seq![a]));
    let n = v.len() as int;
    lemma_cell_samples_at(w, n);
    let i = choose|i: int| 0 <= i < w.len() && w[i].0 == column && w[i].1 == row;
    assert(i == n);
    let u = w.update(n, (column, row, seq![a].push(b)));
    assert(spec_append(w, column, row, b) == u);
    assert(distinct_cells(u)) by {
        assert forall|i: int, j: int|
            0 <= i < u.len() && 0 <= j < u.len() && i != j implies (#[trigger] u[i].0
            != #[trigger] u[j].0 || u[i].1 != u[j].1) by {
            assert(u[i].0 == w[i].0 && u[i].1 == w[i].1);
            assert(u[j].0 == w[j].0 && u[j].1 == w[j].1);
        }
    }
    lemma_cell_samples_at(u, n);
    assert(seq![a].push(b) =~= seq![a, b]);
}

/// The cells of one frame.
pub struct Grid<S> {
    index: HashMap<u64, usize>,
    cells: Vec<GridCell<S>>,
}

impl<S> View for Grid<S> {
    type V = GridView<S>;

    closed spec fn view(&self) -> GridView<S> {
        self.cells@.map_values(|c: GridCell<S>| (c.column, c.row, c.samples@))
    }
}

impl<S> Grid<S> {
    /// The index maps each cell's key to its position, and nothing else.
    pub closed spec fn wf(&self) -> bool {
        &&& forall|i: int|
            0 <= i < self.cells@.len() ==> {
                let k = cell_key(#[trigger] self.cells@[i].column, self.cells@[i].row);
                &&& self.index@.contains_key(k)
                &&& self.index@[k] == i
            }
        &&& forall|k: u64| #[trigger]
            self.index@.contains_key(k) ==> {
                let i = self.index@[k] as int;
                &&& 0 <= i < self.cells@.len()
                &&& cell_key(self.cells@[i].column, self.cells@[i].row) == k
            }
    }

    proof fn lemma_wf_distinct(&self)
        requires
            self.wf(),
        ensures
            distinct_cells(self@),
    {
        assert forall|i: int, j: int|
            0 <= i < self@.len() && 0 <= j < self@.len() && i != j implies (#[trigger] self@[i].0
            != #[trigger] self@[j].0 || self@[i].1 != self@[j].1) by {
            let ci = self.cells@[i];
            let cj = self.cells@[j];
            lemma_cell_key_injective(ci.column, ci.row, cj.column, cj.row);
            assert(self.index@[cell_key(ci.column, ci.row)] == i);
            assert(self.index@[cell_key(cj.column, cj.row)] == j);
        }
    }

    /// An empty grid.
    pub fn new() -> (r: Grid<S>)
        ensures
            r.wf(),
            r@ == GridView::<S>::empty(),
    {
        let r = Grid { index: HashMap::new(), cells: Vec::new() };
        assert(r@ =~= GridView::<S>::empty());
        r
    }

    /// Discards every cell, at the start of a frame.
    pub fn clear(&mut self)
        ensures
            final(self).wf(),
            final(self)@ == GridView::<S>::empty(),
    {
        self.index.clear();
        self.cells.clear();
        assert(self@ =~= GridView::<S>::empty());
    }

    /// The samples of the cell at (`column`, `row`); empty if nothing landed there.
    pub fn samples_at(&self, column: u32, row: u32) -> (r: &[S])
        requires
            self.wf(),
        ensures
            r@ == cell_samples(self@, column, row),
    {
        proof {
            self.lemma_wf_distinct();
        }
        let key: u64 = column as u64 * 0x1_0000_0000 + row as u64;
        match self.index.get(&key) {
            Some(i) => {
                let i = *i;
                proof {
                    let c = self.cells@[i as int];
                    lemma_cell_key_injective(c.column, c.row, column, row);
                    lemma_cell_samples_at(self@, i as int);
                }
                self.cells[i].samples.as_slice()
            },
            None => {
                proof {
                    if has_cell(self@, column, row) {
                        let j = choose|j: int|
                            0 <= j < self@.len() && self@[j].0 == column && self@[j].1 == row;
                        assert(self.index@.contains_key(
                            cell_key(self.cells@[j].column, self.cells@[j].row),
                        ));
                    }
                }
                &[]
            },
        }
    }

    /// The number of occupied cells.
    pub fn len(&self) -> (r: usize)
        ensures
            r == self@.len(),
    {
        self.cells.len()
    }

    /// The cell at position `i`, in the order cells were first touched.
    pub fn cell(&self, i: usize) -> (r: &GridCell<S>)
        requires
            i < self@.len(),
        ensures
            (r.column, r.row, r.samples@) == self@[i as int],
    {
        &self.cells[i]
    }

    /// Adds a sample to the cell at (`column`, `row`), opening the cell if it
    /// was empty.
    pub fn append(&mut self, column: u32, row: u32, sample: S)
        requires
            old(self).wf(),
        ensures
            final(self).wf(),
            final(self)@ == spec_append(old(self)@, column, row, sample),
            distinct_cells(final(self)@),
    {
        proof {
            self.lemma_wf_distinct();
        }
        let key: u64 = column as u64 * 0x1_0000_0000 + row as u64;
        let found: Option<usize> = match self.index.get(&key) {
            Some(i) => Some(*i),
            None => None,
        };
        let ghost v = self@;
        match found {
            Some(i) => {
                proof {
                    let c = self.cells@[i as int];
                    lemma_cell_key_injective(c.column, c.row, column, row);
                    assert(v[i as int].0 == column && v[i as int].1 == row);
                    let j = choose|j: int| 0 <= j < v.len() && v[j].0 == column && v[j].1 == row;
                    assert(j == i);
                }
                self.cells[i].samples.push(sample);
                proof {
                    assert(self@ =~= spec_append(v, column, row, sample));
                }
            },
            None => {
                proof {
                    if has_cell(v, column, row) {
                        let j = choose|j: int| 0 <= j < v.len() && v[j].0 == column && v[j].1 == row;
                        assert(self.index@.contains_key(cell_key(self.cells@[j].column, self.cells@[j].row)));
                    }
                }
                let n = self.cells.len();
                let mut samples: Vec<S> = Vec::new();
                samples.push(sample);
                self.cells.push(GridCell { column, row, samples });
                self.index.insert(key, n);
                proof {
                    assert(self@ =~= spec_append(v, column, row, sample));
                    assert forall|k: u64| #[trigger] self.index@.contains_key(k) implies ({
                        let i = self.index@[k] as int;
                        &&& 0 <= i < self.cells@.len()
                        &&& cell_key(self.cells@[i].column, self.cells@[i].row) == k
                    }) by {
                        if k != key {
                            assert(old(self).index@.contains_key(k));
                        }
                    }
                }
            },
        }
        proof {
            self.lemma_wf_distinct();
        }
    }
}

} // verus!

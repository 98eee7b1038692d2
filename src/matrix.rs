use vstd::prelude::*;

verus! {

/// Number of rows, and of columns, of the grid.
pub const GRID_SIDE: usize = 8;

/// Number of cells of the grid.
pub const GRID_CELLS: usize = 64;

/// Position of cell `(i, j)` in the row-major model of the grid.
pub open spec fn cell_index(i: int, j: int) -> int {
    i * 8 + j
}

/// The shared state matrix: an 8 by 8 grid of independently updatable
/// 128-bit cells.
///
/// Each cell is consistent on its own; the grid as a whole offers no
/// atomicity across cells, so a reader of several cells may see a mix of
/// old and new values.
pub struct SystemPsyche {
    cells: Vec<u128>,
}

impl View for SystemPsyche {
    type V = Seq<u128>;

    /// The cells in row-major order.
    closed spec fn view(&self) -> Seq<u128> {
        self.cells@
    }
}

impl SystemPsyche {
    /// The grid always has exactly `GRID_CELLS` cells.
    pub open spec fn wf(&self) -> bool {
        self@.len() == 64
    }

    /// Value of cell `(i, j)` in the model.
    pub open spec fn cell(&self, i: int, j: int) -> u128 {
        self@[cell_index(i, j)]
    }

    /// A grid whose cells all hold zero.
    pub fn new() -> (r: SystemPsyche)
        ensures
            r.wf(),
            forall|k: int| 0 <= k < 64 ==> r@[k] == 0,
    {
        let mut cells: Vec<u128> = Vec::new();
        let mut k: usize = 0;
        while k < GRID_CELLS
            invariant
                k <= 64,
                cells@.len() == k,
                forall|m: int| 0 <= m < k ==> cells@[m] == 0,
            decreases 64 - k,
        {
            cells.push(0);
            k = k + 1;
        }
        SystemPsyche { cells }
    }

    /// Reads cell `(i, j)`.
    pub fn read(&self, i: usize, j: usize) -> (r: u128)
        requires
            self.wf(),
            i < 8,
            j < 8,
        ensures
            r == self.cell(i as int, j as int),
    {
        self.cells[i * GRID_SIDE + j]
    }

    /// Writes `value` into cell `(i, j)` and leaves every other cell as it was.
    pub fn write(&mut self, i: usize, j: usize, value: u128)
        requires
            old(self).wf(),
            i < 8,
            j < 8,
        ensures
            final(self).wf(),
            final(self)@ == old(self)@.update(cell_index(i as int, j as int), value),
    {
        self.cells.set(i * GRID_SIDE + j, value);
    }

    /// Copies every cell, in row-major order.
    ///
    /// The copy is taken cell by cell: it holds no promise of consistency
    /// across cells against concurrent writers.
    pub fn read_all(&self) -> (r: Vec<u128>)
        requires
            self.wf(),
        ensures
            r@ == self@,
    {
        self.cells.clone()
    }

    /// A write to a cell followed by a read of the same cell, with no write in
    /// between, returns the value written; the other cells keep their values.
    pub proof fn lemma_read_after_write(pre: SystemPsyche, post: SystemPsyche, i: int, j: int, value: u128)
        requires
            pre.wf(),
            0 <= i < 8,
            0 <= j < 8,
            post@ == pre@.update(cell_index(i, j), value),
        ensures
            post.wf(),
            post.cell(i, j) == value,
            forall|a: int, b: int|
                0 <= a < 8 && 0 <= b < 8 && (a != i || b != j) ==> post.cell(a, b) == pre.cell(a, b),
    {
        assert forall|a: int, b: int|
            0 <= a < 8 && 0 <= b < 8 && (a != i || b != j) implies post.cell(a, b) == pre.cell(a, b) by {
            assert(cell_index(a, b) != cell_index(i, j)) by (nonlinear_arith)
                requires
                    0 <= a < 8, 0 <= b < 8, 0 <= i < 8, 0 <= j < 8, a != i || b != j;
        }
    }
}

} // verus!

//! The assignment grid: every column's cells, the written-once discipline,
//! selector values, copy constraints and region bookkeeping.
//!
//! A `Grid` is created empty for a configuration, grows row by row as
//! regions are allocated, and is populated exactly once per cell during
//! synthesis. Nothing is mutated after verification begins.

use crate::cells::{cell_wf, CellRef, CellValue, Region};
use crate::config::Config;
use crate::field::modulus_wf;
use vstd::prelude::*;

verus! {

/// Errors surfaced while assigning the grid; all are fatal synthesis bugs.
#[derive(Clone, Copy, Debug, PartialEq, Eq, Structural)]
pub enum SynthesisError {
    /// A cell, selector or row reference does not exist in the grid.
    OutOfRange,
    /// A second value was written to an already assigned cell.
    AssignmentConflict,
    /// A copy constraint names a column without copy support.
    MissingCopySupport,
}

/// The assigned state of a circuit: cell values, written-once flags,
/// selector values, recorded copy constraints and region annotations.
pub struct Grid {
    /// The field modulus every known cell value lies below.
    pub modulus: u64,
    /// Rows allocated so far; every column has exactly this many cells.
    pub num_rows: usize,
    /// Cell values, indexed by column then row.
    pub cells: Vec<Vec<CellValue>>,
    /// Whether a cell has been written, indexed by column then row.
    pub written: Vec<Vec<bool>>,
    /// Gate-enable flags, indexed by selector then row.
    pub selectors: Vec<Vec<bool>>,
    /// Declared equalities between pairs of cells.
    pub copies: Vec<(CellRef, CellRef)>,
    /// Diagnostic record of the rows each operation claimed.
    pub regions: Vec<Region>,
    /// How many leading rows of the public columns the circuit exposes.
    pub public_rows: usize,
}

/// The grid's cells as a sequence of columns, each a sequence of values.
pub open spec fn cells_view(g: Grid) -> Seq<Seq<CellValue>> {
    g.cells@.map_values(|v: Vec<CellValue>| v@)
}

/// `post` is `pre` extended by `n` copies of `fill`.
pub open spec fn seq_padded<T>(post: Seq<T>, pre: Seq<T>, n: int, fill: T) -> bool {
    &&& post.len() == pre.len() + n
    &&& forall|i: int| 0 <= i < pre.len() ==> post[i] == pre[i]
    &&& forall|i: int| pre.len() <= i < post.len() ==> post[i] == fill
}

/// Shape invariant of a grid on its own: every column and selector holds
/// exactly `num_rows` entries and every known value is a residue below the
/// modulus.
pub open spec fn grid_shape_wf(g: Grid) -> bool {
    &&& modulus_wf(g.modulus)
    &&& g.written@.len() == g.cells@.len()
    &&& forall|c: int| 0 <= c < g.cells@.len() ==> (#[trigger] g.cells@[c])@.len() == g.num_rows
    &&& forall|c: int|
        0 <= c < g.written@.len() ==> (#[trigger] g.written@[c])@.len() == g.num_rows
    &&& forall|s: int|
        0 <= s < g.selectors@.len() ==> (#[trigger] g.selectors@[s])@.len() == g.num_rows
    &&& forall|c: int, r: int|
        0 <= c < g.cells@.len() && 0 <= r < g.num_rows ==> cell_wf(
            #[trigger] g.cells@[c]@[r],
            g.modulus,
        )
}

/// One recorded copy constraint is meaningful for a configuration: both
/// endpoints exist and both columns take part in copy constraints.
pub open spec fn copy_pair_wf(pair: (CellRef, CellRef), cfg: Config, rows: int) -> bool {
    &&& pair.0.column < cfg.columns@.len()
    &&& pair.1.column < cfg.columns@.len()
    &&& pair.0.row < rows
    &&& pair.1.row < rows
    &&& cfg.columns@[pair.0.column as int].equality
    &&& cfg.columns@[pair.1.column as int].equality
}

/// Full invariant of a grid for a configuration: the shape matches the
/// declared columns and selectors, and every copy constraint is meaningful.
pub open spec fn grid_wf(cfg: Config, g: Grid) -> bool {
    &&& grid_shape_wf(g)
    &&& g.cells@.len() == cfg.columns@.len()
    &&& g.selectors@.len() == cfg.num_selectors
    &&& forall|i: int|
        0 <= i < g.copies@.len() ==> copy_pair_wf(#[trigger] g.copies@[i], cfg, g.num_rows as int)
}

/// Appends `n` copies of `value` to a vector.
fn push_repeat<T: Copy>(v: &mut Vec<T>, n: usize, value: T)
    requires
        old(v)@.len() + n <= usize::MAX,
    ensures
        seq_padded(final(v)@, old(v)@, n as int, value),
{
    let mut k: usize = 0;
    while k < n
        invariant
            k <= n,
            v@.len() == old(v)@.len() + k,
            forall|i: int| 0 <= i < old(v)@.len() ==> v@[i] == old(v)@[i],
            forall|i: int| old(v)@.len() <= i < v@.len() ==> v@[i] == value,
        decreases n - k,
    {
        v.push(value);
        k = k + 1;
    }
}

impl Grid {
    /// An empty grid for a configuration: no rows, no copies, no regions.
    pub fn new(cfg: &Config, modulus: u64) -> (g: Grid)
        requires
            modulus_wf(modulus),
        ensures
            grid_wf(*cfg, g),
            g.modulus == modulus,
            g.num_rows == 0,
            g.cells@.len() == cfg.columns@.len(),
            g.copies@.len() == 0,
            g.regions@.len() == 0,
            g.public_rows == 0,
    {
        let ncols = cfg.columns.len();
        let mut cells: Vec<Vec<CellValue>> = Vec::new();
        let mut written: Vec<Vec<bool>> = Vec::new();
        let mut c: usize = 0;
        while c < ncols
            invariant
                c <= ncols,
                cells@.len() == c,
                written@.len() == c,
                forall|i: int| 0 <= i < c ==> (#[trigger] cells@[i])@.len() == 0,
                forall|i: int| 0 <= i < c ==> (#[trigger] written@[i])@.len() == 0,
            decreases ncols - c,
        {
            cells.push(Vec::new());
            written.push(Vec::new());
            c = c + 1;
        }
        let nsels = cfg.num_selectors;
        let mut selectors: Vec<Vec<bool>> = Vec::new();
        let mut s: usize = 0;
        while s < nsels
            invariant
                s <= nsels,
                selectors@.len() == s,
                forall|i: int| 0 <= i < s ==> (#[trigger] selectors@[i])@.len() == 0,
            decreases nsels - s,
        {
            selectors.push(Vec::new());
            s = s + 1;
        }
        Grid {
            modulus,
            num_rows: 0,
            cells,
            written,
            selectors,
            copies: Vec::new(),
            regions: Vec::new(),
            public_rows: 0,
        }
    }

    /// Allocates a fresh region of `rows` rows at the bottom of the grid and
    /// returns its first row. New cells start unknown and unwritten, new
    /// selector entries start off. The label is diagnostic only.
    pub fn alloc_region(&mut self, cfg: &Config, rows: usize, label: Option<&'static str>) -> (start:
        usize)
        requires
            grid_wf(*cfg, *old(self)),
            old(self).num_rows + rows <= usize::MAX,
        ensures
            grid_wf(*cfg, *final(self)),
            start == old(self).num_rows,
            final(self).num_rows == old(self).num_rows + rows,
            final(self).cells@.len() == old(self).cells@.len(),
            final(self).written@.len() == old(self).written@.len(),
            final(self).selectors@.len() == old(self).selectors@.len(),
            forall|c: int|
                0 <= c < old(self).cells@.len() ==> seq_padded(
                    (#[trigger] final(self).cells@[c])@,
                    old(self).cells@[c]@,
                    rows as int,
                    CellValue::Unknown,
                ),
            forall|c: int|
                0 <= c < old(self).written@.len() ==> seq_padded(
                    (#[trigger] final(self).written@[c])@,
                    old(self).written@[c]@,
                    rows as int,
                    false,
                ),
            forall|s: int|
                0 <= s < old(self).selectors@.len() ==> seq_padded(
                    (#[trigger] final(self).selectors@[s])@,
                    old(self).selectors@[s]@,
                    rows as int,
                    false,
                ),
            final(self).copies@ == old(self).copies@,
            final(self).regions@ == old(self).regions@.push(
                Region { start: old(self).num_rows, rows, label },
            ),
            final(self).public_rows == old(self).public_rows,
            final(self).modulus == old(self).modulus,
    {
        let start = self.num_rows;
        let ghost pre = *self;
        let ncols = self.cells.len();
        let mut c: usize = 0;
        while c < ncols
            invariant
                c <= ncols,
                ncols == self.cells@.len(),
                self.cells@.len() == pre.cells@.len(),
                grid_wf(*cfg, pre),
                pre.num_rows + rows <= usize::MAX,
                forall|j: int| c <= j < ncols ==> self.cells@[j] == pre.cells@[j],
                forall|j: int|
                    0 <= j < c ==> seq_padded(
                        (#[trigger] self.cells@[j])@,
                        pre.cells@[j]@,
                        rows as int,
                        CellValue::Unknown,
                    ),
                self.written == pre.written,
                self.selectors == pre.selectors,
                self.copies == pre.copies,
                self.regions == pre.regions,
                self.num_rows == pre.num_rows,
                self.public_rows == pre.public_rows,
                self.modulus == pre.modulus,
            decreases ncols - c,
        {
            proof {
                assert(self.cells@[c as int] == pre.cells@[c as int]);
                assert(pre.cells@[c as int]@.len() == pre.num_rows);
            }
            push_repeat(&mut self.cells[c], rows, CellValue::Unknown);
            c = c + 1;
        }
        let nw = self.written.len();
        let mut w: usize = 0;
        while w < nw
            invariant
                w <= nw,
                nw == self.written@.len(),
                self.written@.len() == pre.written@.len(),
                grid_wf(*cfg, pre),
                pre.num_rows + rows <= usize::MAX,
                forall|j: int| w <= j < nw ==> self.written@[j] == pre.written@[j],
                forall|j: int|
                    0 <= j < w ==> seq_padded(
                        (#[trigger] self.written@[j])@,
                        pre.written@[j]@,
                        rows as int,
                        false,
                    ),
                self.cells@.len() == pre.cells@.len(),
                forall|j: int|
                    0 <= j < pre.cells@.len() ==> seq_padded(
                        (#[trigger] self.cells@[j])@,
                        pre.cells@[j]@,
                        rows as int,
                        CellValue::Unknown,
                    ),
                self.selectors == pre.selectors,
                self.copies == pre.copies,
                self.regions == pre.regions,
                self.num_rows == pre.num_rows,
                self.public_rows == pre.public_rows,
                self.modulus == pre.modulus,
            decreases nw - w,
        {
            proof {
                assert(self.written@[w as int] == pre.written@[w as int]);
                assert(pre.written@[w as int]@.len() == pre.num_rows);
            }
            push_repeat(&mut self.written[w], rows, false);
            w = w + 1;
        }
        let nsel = self.selectors.len();
        let mut s: usize = 0;
        while s < nsel
            invariant
                s <= nsel,
                nsel == self.selectors@.len(),
                self.selectors@.len() == pre.selectors@.len(),
                grid_wf(*cfg, pre),
                pre.num_rows + rows <= usize::MAX,
                forall|j: int| s <= j < nsel ==> self.selectors@[j] == pre.selectors@[j],
                forall|j: int|
                    0 <= j < s ==> seq_padded(
                        (#[trigger] self.selectors@[j])@,
                        pre.selectors@[j]@,
                        rows as int,
                        false,
                    ),
                self.cells@.len() == pre.cells@.len(),
                forall|j: int|
                    0 <= j < pre.cells@.len() ==> seq_padded(
                        (#[trigger] self.cells@[j])@,
                        pre.cells@[j]@,
                        rows as int,
                        CellValue::Unknown,
                    ),
                self.written@.len() == pre.written@.len(),
                forall|j: int|
                    0 <= j < pre.written@.len() ==> seq_padded(
                        (#[trigger] self.written@[j])@,
                        pre.written@[j]@,
                        rows as int,
                        false,
                    ),
                self.copies == pre.copies,
                self.regions == pre.regions,
                self.num_rows == pre.num_rows,
                self.public_rows == pre.public_rows,
                self.modulus == pre.modulus,
            decreases nsel - s,
        {
            proof {
                assert(self.selectors@[s as int] == pre.selectors@[s as int]);
                assert(pre.selectors@[s as int]@.len() == pre.num_rows);
            }
            push_repeat(&mut self.selectors[s], rows, false);
            s = s + 1;
        }
        self.num_rows = self.num_rows + rows;
        self.regions.push(Region { start, rows, label });
        start
    }

    /// Reads the value of an existing cell.
    pub fn value_at(&self, cell: CellRef) -> (r: CellValue)
        requires
            grid_shape_wf(*self),
            cell.column < self.cells@.len(),
            cell.row < self.num_rows,
        ensures
            r == self.cells@[cell.column as int]@[cell.row as int],
            cell_wf(r, self.modulus),
    {
        self.cells[cell.column][cell.row]
    }

    /// Writes `value` into a cell. Each cell accepts exactly one write: a
    /// second write reports an assignment conflict and changes nothing.
    pub fn assign(&mut self, cell: CellRef, value: CellValue) -> (r: Result<(), SynthesisError>)
        requires
            grid_shape_wf(*old(self)),
            cell_wf(value, old(self).modulus),
        ensures
            grid_shape_wf(*final(self)),
            r is Ok <==> (cell.column < old(self).cells@.len() && cell.row < old(self).num_rows
                && !old(self).written@[cell.column as int]@[cell.row as int]),
            r is Ok ==> {
                &&& final(self).cells@.len() == old(self).cells@.len()
                &&& final(self).written@.len() == old(self).written@.len()
                &&& forall|j: int|
                    0 <= j < old(self).cells@.len() && j != cell.column ==> final(self).cells@[j]
                        == old(self).cells@[j] && final(self).written@[j] == old(self).written@[j]
                &&& final(self).cells@[cell.column as int]@ == old(self).cells@[cell.column as int]@.update(
                    cell.row as int,
                    value,
                )
                &&& final(self).written@[cell.column as int]@ == old(self).written@[cell.column as int]@.update(
                    cell.row as int,
                    true,
                )
            },
            r is Err ==> *final(self) == *old(self),
            r matches Err(e) ==> e == (if cell.column < old(self).cells@.len() && cell.row < old(self).num_rows {
                SynthesisError::AssignmentConflict
            } else {
                SynthesisError::OutOfRange
            }),
            final(self).num_rows == old(self).num_rows,
            final(self).selectors == old(self).selectors,
            final(self).copies == old(self).copies,
            final(self).regions == old(self).regions,
            final(self).public_rows == old(self).public_rows,
            final(self).modulus == old(self).modulus,
    {
        if cell.column >= self.cells.len() || cell.row >= self.num_rows {
            return Err(SynthesisError::OutOfRange);
        }
        if self.written[cell.column][cell.row] {
            return Err(SynthesisError::AssignmentConflict);
        }
        self.cells[cell.column][cell.row] = value;
        self.written[cell.column][cell.row] = true;
        Ok(())
    }

    /// Turns a gate-enable flag on at a row. Enabling an already enabled
    /// flag is idempotent.
    pub fn enable_selector(&mut self, selector: usize, row: usize) -> (r: Result<
        (),
        SynthesisError,
    >)
        requires
            grid_shape_wf(*old(self)),
        ensures
            grid_shape_wf(*final(self)),
            r is Ok <==> (selector < old(self).selectors@.len() && row < old(self).num_rows),
            r is Ok ==> {
                &&& final(self).selectors@.len() == old(self).selectors@.len()
                &&& forall|j: int|
                    0 <= j < old(self).selectors@.len() && j != selector ==> final(self).selectors@[j] == old(self).selectors@[j]
                &&& final(self).selectors@[selector as int]@ == old(self).selectors@[selector as int]@.update(
                    row as int,
                    true,
                )
            },
            r is Err ==> *final(self) == *old(self) && r == Result::<(), SynthesisError>::Err(
                SynthesisError::OutOfRange,
            ),
            final(self).cells == old(self).cells,
            final(self).written == old(self).written,
            final(self).num_rows == old(self).num_rows,
            final(self).copies == old(self).copies,
            final(self).regions == old(self).regions,
            final(self).public_rows == old(self).public_rows,
            final(self).modulus == old(self).modulus,
    {
        if selector >= self.selectors.len() || row >= self.num_rows {
            return Err(SynthesisError::OutOfRange);
        }
        self.selectors[selector][row] = true;
        Ok(())
    }

    /// Records a copy constraint: the two cells must hold equal values at
    /// verification time. Both columns must support copy constraints.
    pub fn record_copy(&mut self, cfg: &Config, left: CellRef, right: CellRef) -> (r: Result<
        (),
        SynthesisError,
    >)
        requires
            grid_wf(*cfg, *old(self)),
        ensures
            grid_wf(*cfg, *final(self)),
            r is Ok <==> (left.column < cfg.columns@.len() && right.column < cfg.columns@.len()
                && left.row < old(self).num_rows && right.row < old(self).num_rows
                && cfg.columns@[left.column as int].equality
                && cfg.columns@[right.column as int].equality),
            r is Ok ==> final(self).copies@ == old(self).copies@.push((left, right)),
            r is Err ==> *final(self) == *old(self),
            r matches Err(e) ==> e == (if left.column < cfg.columns@.len() && right.column
                < cfg.columns@.len() && left.row < old(self).num_rows && right.row < old(self).num_rows {
                SynthesisError::MissingCopySupport
            } else {
                SynthesisError::OutOfRange
            }),
            final(self).cells == old(self).cells,
            final(self).written == old(self).written,
            final(self).selectors == old(self).selectors,
            final(self).num_rows == old(self).num_rows,
            final(self).regions == old(self).regions,
            final(self).public_rows == old(self).public_rows,
            final(self).modulus == old(self).modulus,
    {
        if left.column >= self.cells.len() || right.column >= self.cells.len() || left.row
            >= self.num_rows || right.row >= self.num_rows {
            return Err(SynthesisError::OutOfRange);
        }
        let ok = {
            let li = &cfg.columns[left.column];
            let ri = &cfg.columns[right.column];
            li.equality && ri.equality
        };
        if !ok {
            return Err(SynthesisError::MissingCopySupport);
        }
        self.copies.push((left, right));
        Ok(())
    }
}

} // verus!

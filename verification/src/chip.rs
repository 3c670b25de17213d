//! The chip: the library of primitive circuit operations.
//!
//! `configure` declares the chip's columns, selectors and the two algebraic
//! gates once per circuit shape. Each operation then claims one fresh region
//! (one row), fills its cells, and returns a handle to the cell holding the
//! operation's result.

use crate::cells::{cell_as_int, cell_wf, CellRef, CellValue};
use crate::config::{config_wf, ColumnInfo, ColumnKind, Config};
use crate::expr::{cell_at, eval_expr, Expr};
use crate::field::{add_mod, fp_wf, mul_mod, neg_mod, Fp};
use crate::grid::{grid_wf, Grid, SynthesisError};
use vstd::prelude::*;

verus! {

/// The chip's bindings into a configuration: which columns and selectors
/// its operations use.
#[derive(Clone, Copy, Debug, PartialEq, Eq, Structural)]
pub struct ChipConfig {
    /// Witness column holding an operation's left operand.
    pub lhs: usize,
    /// Witness column holding an operation's right operand.
    pub rhs: usize,
    /// Witness column holding an operation's result.
    pub out: usize,
    /// Column holding baked-in constants.
    pub constants: usize,
    /// Column checked against the public inputs.
    pub public: usize,
    /// Enable flag of the multiplication gate.
    pub mul_selector: usize,
    /// Enable flag of the addition gate.
    pub add_selector: usize,
}

/// The chip's bindings are meaningful for a configuration: every column
/// exists with the right kind and copy support, the columns are distinct,
/// and both selectors exist and are distinct.
pub open spec fn chip_wf(cc: ChipConfig, cfg: Config) -> bool {
    &&& cc.lhs < cfg.columns@.len()
    &&& cc.rhs < cfg.columns@.len()
    &&& cc.out < cfg.columns@.len()
    &&& cc.constants < cfg.columns@.len()
    &&& cc.public < cfg.columns@.len()
    &&& cfg.columns@[cc.lhs as int] == (ColumnInfo { kind: ColumnKind::Witness, equality: true })
    &&& cfg.columns@[cc.rhs as int] == (ColumnInfo { kind: ColumnKind::Witness, equality: true })
    &&& cfg.columns@[cc.out as int] == (ColumnInfo { kind: ColumnKind::Witness, equality: true })
    &&& cfg.columns@[cc.constants as int] == (ColumnInfo {
        kind: ColumnKind::Constant,
        equality: true,
    })
    &&& cfg.columns@[cc.public as int] == (ColumnInfo { kind: ColumnKind::Public, equality: true })
    &&& cc.lhs != cc.rhs && cc.lhs != cc.out && cc.rhs != cc.out
    &&& cc.constants != cc.lhs && cc.constants != cc.rhs && cc.constants != cc.out
    &&& cc.public != cc.lhs && cc.public != cc.rhs && cc.public != cc.out && cc.public
        != cc.constants
    &&& cc.mul_selector < cfg.num_selectors
    &&& cc.add_selector < cfg.num_selectors
    &&& cc.mul_selector != cc.add_selector
}

/// The value of the multiplication gate's polynomial at a row:
/// `lhs * rhs - out`, or `None` when an operand cell is unknown.
pub open spec fn mul_constraint(cc: ChipConfig, cells: Seq<Seq<CellValue>>, row: int, p: int) -> Option<int> {
    match (
        cell_as_int(cell_at(cells, cc.lhs as int, row)),
        cell_as_int(cell_at(cells, cc.rhs as int, row)),
        cell_as_int(cell_at(cells, cc.out as int, row)),
    ) {
        (Some(a), Some(b), Some(o)) => Some(add_mod(mul_mod(a, b, p), neg_mod(o, p), p)),
        _ => None,
    }
}

/// The value of the addition gate's polynomial at a row:
/// `lhs + rhs - out`, or `None` when an operand cell is unknown.
pub open spec fn add_constraint(cc: ChipConfig, cells: Seq<Seq<CellValue>>, row: int, p: int) -> Option<int> {
    match (
        cell_as_int(cell_at(cells, cc.lhs as int, row)),
        cell_as_int(cell_at(cells, cc.rhs as int, row)),
        cell_as_int(cell_at(cells, cc.out as int, row)),
    ) {
        (Some(a), Some(b), Some(o)) => Some(add_mod(add_mod(a, b, p), neg_mod(o, p), p)),
        _ => None,
    }
}

/// The grid after an operation keeps every previously allocated cell,
/// written flag and selector entry, and the sizes and modulus, unchanged.
pub open spec fn extends(post: Grid, pre: Grid) -> bool {
    &&& post.modulus == pre.modulus
    &&& post.cells@.len() == pre.cells@.len()
    &&& post.written@.len() == pre.written@.len()
    &&& post.selectors@.len() == pre.selectors@.len()
    &&& forall|c: int, r: int|
        0 <= c < pre.cells@.len() && 0 <= r < pre.num_rows ==> post.cells@[c]@[r]
            == pre.cells@[c]@[r]
    &&& forall|c: int, r: int|
        0 <= c < pre.written@.len() && 0 <= r < pre.num_rows ==> post.written@[c]@[r]
            == pre.written@[c]@[r]
    &&& forall|s: int, r: int|
        0 <= s < pre.selectors@.len() && 0 <= r < pre.num_rows ==> post.selectors@[s]@[r]
            == pre.selectors@[s]@[r]
}

/// A handle may be copied from: its cell exists and its column supports
/// copy constraints.
pub open spec fn handle_ok(h: CellRef, cfg: Config, g: Grid) -> bool {
    &&& h.column < cfg.columns@.len()
    &&& h.row < g.num_rows
    &&& cfg.columns@[h.column as int].equality
}

/// Declares the chip's columns, selectors and gates in `cfg` and returns
/// the chip's bindings. Building the same configuration twice yields the
/// same identifiers and the same constraint polynomials.
pub fn configure(cfg: &mut Config) -> (cc: ChipConfig)
    requires
        config_wf(*old(cfg)),
        old(cfg).columns@.len() + 5 <= usize::MAX,
        old(cfg).num_selectors + 2 <= usize::MAX,
    ensures
        config_wf(*final(cfg)),
        chip_wf(cc, *final(cfg)),
        cc.lhs == old(cfg).columns@.len(),
        cc.rhs == old(cfg).columns@.len() + 1,
        cc.out == old(cfg).columns@.len() + 2,
        cc.constants == old(cfg).columns@.len() + 3,
        cc.public == old(cfg).columns@.len() + 4,
        cc.mul_selector == old(cfg).num_selectors,
        cc.add_selector == old(cfg).num_selectors + 1,
        final(cfg).columns@.len() == old(cfg).columns@.len() + 5,
        forall|c: int|
            0 <= c < old(cfg).columns@.len() ==> final(cfg).columns@[c] == old(cfg).columns@[c],
        final(cfg).num_selectors == old(cfg).num_selectors + 2,
        final(cfg).gates@.len() == old(cfg).gates@.len() + 2,
        forall|g: int| 0 <= g < old(cfg).gates@.len() ==> final(cfg).gates@[g] == old(cfg).gates@[g],
        final(cfg).gates@[old(cfg).gates@.len() as int].selector == cc.mul_selector,
        final(cfg).gates@[old(cfg).gates@.len() as int + 1].selector == cc.add_selector,
        forall|cells: Seq<Seq<CellValue>>, row: int, p: int|
            eval_expr(
                (#[trigger] final(cfg).gates@[old(cfg).gates@.len() as int].poly),
                cells,
                row,
                p,
            ) == mul_constraint(cc, cells, row, p),
        forall|cells: Seq<Seq<CellValue>>, row: int, p: int|
            eval_expr(
                (#[trigger] final(cfg).gates@[old(cfg).gates@.len() as int + 1].poly),
                cells,
                row,
                p,
            ) == add_constraint(cc, cells, row, p),
{
    let lhs = cfg.add_column(ColumnKind::Witness);
    let rhs = cfg.add_column(ColumnKind::Witness);
    let out = cfg.add_column(ColumnKind::Witness);
    let constants = cfg.add_column(ColumnKind::Constant);
    let public = cfg.add_column(ColumnKind::Public);
    let r1 = cfg.enable_equality(lhs);
    let r2 = cfg.enable_equality(rhs);
    let r3 = cfg.enable_equality(out);
    let r4 = cfg.enable_equality(constants);
    let r5 = cfg.enable_equality(public);
    proof {
        assert(r1 is Ok && r2 is Ok && r3 is Ok && r4 is Ok && r5 is Ok);
    }
    let mul_selector = cfg.add_selector();
    let add_selector = cfg.add_selector();
    let mul_poly = Expr::Sum(
        Box::new(
            Expr::Product(
                Box::new(Expr::Cell { column: lhs, rotation: 0 }),
                Box::new(Expr::Cell { column: rhs, rotation: 0 }),
            ),
        ),
        Box::new(Expr::Negated(Box::new(Expr::Cell { column: out, rotation: 0 }))),
    );
    let add_poly = Expr::Sum(
        Box::new(
            Expr::Sum(
                Box::new(Expr::Cell { column: lhs, rotation: 0 }),
                Box::new(Expr::Cell { column: rhs, rotation: 0 }),
            ),
        ),
        Box::new(Expr::Negated(Box::new(Expr::Cell { column: out, rotation: 0 }))),
    );
    let ghost mul_poly_spec = mul_poly;
    let ghost add_poly_spec = add_poly;
    proof {
        reveal_with_fuel(crate::expr::expr_wf, 6);
        assert(crate::expr::expr_wf(mul_poly_spec, cfg.columns@.len() as int));
        assert(crate::expr::expr_wf(add_poly_spec, cfg.columns@.len() as int));
    }
    let gm = cfg.add_gate(mul_selector, mul_poly, Some("mul"));
    let ga = cfg.add_gate(add_selector, add_poly, Some("add"));
    proof {
        assert(gm is Ok && ga is Ok);
    }
    let cc = ChipConfig { lhs, rhs, out, constants, public, mul_selector, add_selector };
    proof {
        assert forall|cells: Seq<Seq<CellValue>>, row: int, p: int|
            eval_expr((#[trigger] cfg.gates@[old(cfg).gates@.len() as int].poly), cells, row, p)
                == mul_constraint(cc, cells, row, p) by {
            reveal_with_fuel(crate::expr::eval_expr, 6);
            assert(cfg.gates@[old(cfg).gates@.len() as int].poly == mul_poly_spec);
        }
        assert forall|cells: Seq<Seq<CellValue>>, row: int, p: int|
            eval_expr((#[trigger] cfg.gates@[old(cfg).gates@.len() as int + 1].poly), cells, row, p)
                == add_constraint(cc, cells, row, p) by {
            reveal_with_fuel(crate::expr::eval_expr, 6);
            assert(cfg.gates@[old(cfg).gates@.len() as int + 1].poly == add_poly_spec);
        }
    }
    cc
}

/// The result cell of a binary operation: known exactly when both operand
/// cells are known.
pub open spec fn product_value(a: Option<int>, b: Option<int>, p: int) -> Option<int> {
    match (a, b) {
        (Some(x), Some(y)) => Some(mul_mod(x, y, p)),
        _ => None,
    }
}

/// The result cell of an addition: known exactly when both operand cells
/// are known.
pub open spec fn sum_value(a: Option<int>, b: Option<int>, p: int) -> Option<int> {
    match (a, b) {
        (Some(x), Some(y)) => Some(add_mod(x, y, p)),
        _ => None,
    }
}

impl ChipConfig {
    /// Writes a private value (or leaves the cell unknown, for shape-only
    /// inspection) into a fresh witness cell and returns its handle.
    pub fn load_private(self, cfg: &Config, grid: &mut Grid, value: CellValue) -> (r: Result<
        CellRef,
        SynthesisError,
    >)
        requires
            config_wf(*cfg),
            chip_wf(self, *cfg),
            grid_wf(*cfg, *old(grid)),
            cell_wf(value, old(grid).modulus),
            old(grid).num_rows + 1 <= usize::MAX,
        ensures
            grid_wf(*cfg, *final(grid)),
            extends(*final(grid), *old(grid)),
            r == Result::<CellRef, SynthesisError>::Ok(
                CellRef { column: self.lhs, row: old(grid).num_rows },
            ),
            final(grid).num_rows == old(grid).num_rows + 1,
            final(grid).cells@[self.lhs as int]@[old(grid).num_rows as int] == value,
            final(grid).written@[self.lhs as int]@[old(grid).num_rows as int],
            forall|c: int|
                0 <= c < cfg.columns@.len() && c != self.lhs ==> (#[trigger] final(grid).cells@[c])@[old(grid).num_rows as int] == CellValue::Unknown && !final(grid).written@[c]@[old(grid).num_rows as int],
            forall|s: int|
                0 <= s < final(grid).selectors@.len() ==> !(#[trigger] final(grid).selectors@[s])@[old(grid).num_rows as int],
            final(grid).copies@ == old(grid).copies@,
            final(grid).public_rows == old(grid).public_rows,
    {
        let start = grid.alloc_region(cfg, 1, Some("load private"));
        let cell = CellRef { column: self.lhs, row: start };
        match grid.assign(cell, value) {
            Ok(()) => Ok(cell),
            Err(e) => Err(e),
        }
    }

    /// Writes a constant into the constants column and into a fresh witness
    /// cell, records the copy constraint linking them, and returns the
    /// witness cell's handle.
    pub fn load_constant(self, cfg: &Config, grid: &mut Grid, constant: Fp) -> (r: Result<
        CellRef,
        SynthesisError,
    >)
        requires
            config_wf(*cfg),
            chip_wf(self, *cfg),
            grid_wf(*cfg, *old(grid)),
            fp_wf(constant, old(grid).modulus),
            old(grid).num_rows + 1 <= usize::MAX,
        ensures
            grid_wf(*cfg, *final(grid)),
            extends(*final(grid), *old(grid)),
            r == Result::<CellRef, SynthesisError>::Ok(
                CellRef { column: self.lhs, row: old(grid).num_rows },
            ),
            final(grid).num_rows == old(grid).num_rows + 1,
            final(grid).cells@[self.lhs as int]@[old(grid).num_rows as int] == CellValue::Known(
                constant,
            ),
            final(grid).cells@[self.constants as int]@[old(grid).num_rows as int]
                == CellValue::Known(constant),
            final(grid).written@[self.lhs as int]@[old(grid).num_rows as int],
            final(grid).written@[self.constants as int]@[old(grid).num_rows as int],
            forall|c: int|
                0 <= c < cfg.columns@.len() && c != self.lhs && c != self.constants ==> (
                #[trigger] final(grid).cells@[c])@[old(grid).num_rows as int] == CellValue::Unknown
                    && !final(grid).written@[c]@[old(grid).num_rows as int],
            forall|s: int|
                0 <= s < final(grid).selectors@.len() ==> !(#[trigger] final(grid).selectors@[s])@[old(grid).num_rows as int],
            final(grid).copies@ == old(grid).copies@.push(
                (
                    CellRef { column: self.constants, row: old(grid).num_rows },
                    CellRef { column: self.lhs, row: old(grid).num_rows },
                ),
            ),
            final(grid).public_rows == old(grid).public_rows,
    {
        let start = grid.alloc_region(cfg, 1, Some("load constant"));
        let ccell = CellRef { column: self.constants, row: start };
        let wcell = CellRef { column: self.lhs, row: start };
        match grid.assign(ccell, CellValue::Known(constant)) {
            Ok(()) => (),
            Err(e) => {
                return Err(e);
            },
        }
        match grid.assign(wcell, CellValue::Known(constant)) {
            Ok(()) => (),
            Err(e) => {
                return Err(e);
            },
        }
        match grid.record_copy(cfg, ccell, wcell) {
            Ok(()) => Ok(wcell),
            Err(e) => Err(e),
        }
    }

    /// Enables the multiplication gate at a fresh row, copies both operands
    /// into the row's operand cells, assigns the product (unknown when
    /// either operand is unknown) into the result cell, and returns its
    /// handle.
    pub fn multiply(self, cfg: &Config, grid: &mut Grid, a: CellRef, b: CellRef) -> (r: Result<
        CellRef,
        SynthesisError,
    >)
        requires
            config_wf(*cfg),
            chip_wf(self, *cfg),
            grid_wf(*cfg, *old(grid)),
            old(grid).num_rows + 1 <= usize::MAX,
        ensures
            grid_wf(*cfg, *final(grid)),
            r is Ok <==> (handle_ok(a, *cfg, *old(grid)) && handle_ok(b, *cfg, *old(grid))),
            r is Err ==> *final(grid) == *old(grid),
            r matches Err(e) ==> e == (if a.column < cfg.columns@.len() && a.row < old(grid).num_rows && b.column < cfg.columns@.len() && b.row < old(grid).num_rows {
                SynthesisError::MissingCopySupport
            } else {
                SynthesisError::OutOfRange
            }),
            r is Ok ==> {
                &&& extends(*final(grid), *old(grid))
                &&& r == Result::<CellRef, SynthesisError>::Ok(
                    CellRef { column: self.out, row: old(grid).num_rows },
                )
                &&& final(grid).num_rows == old(grid).num_rows + 1
                &&& final(grid).cells@[self.lhs as int]@[old(grid).num_rows as int] == old(grid).cells@[a.column as int]@[a.row as int]
                &&& final(grid).cells@[self.rhs as int]@[old(grid).num_rows as int] == old(grid).cells@[b.column as int]@[b.row as int]
                &&& cell_as_int(final(grid).cells@[self.out as int]@[old(grid).num_rows as int])
                    == product_value(
                    cell_as_int(old(grid).cells@[a.column as int]@[a.row as int]),
                    cell_as_int(old(grid).cells@[b.column as int]@[b.row as int]),
                    old(grid).modulus as int,
                )
                &&& final(grid).written@[self.lhs as int]@[old(grid).num_rows as int]
                &&& final(grid).written@[self.rhs as int]@[old(grid).num_rows as int]
                &&& final(grid).written@[self.out as int]@[old(grid).num_rows as int]
                &&& forall|c: int|
                    0 <= c < cfg.columns@.len() && c != self.lhs && c != self.rhs && c != self.out
                        ==> (#[trigger] final(grid).cells@[c])@[old(grid).num_rows as int]
                        == CellValue::Unknown && !final(grid).written@[c]@[old(grid).num_rows as int]
                &&& final(grid).selectors@[self.mul_selector as int]@[old(grid).num_rows as int]
                &&& forall|s: int|
                    0 <= s < final(grid).selectors@.len() && s != self.mul_selector ==> !(
                    #[trigger] final(grid).selectors@[s])@[old(grid).num_rows as int]
                &&& final(grid).copies@ == old(grid).copies@.push(
                    (a, CellRef { column: self.lhs, row: old(grid).num_rows }),
                ).push((b, CellRef { column: self.rhs, row: old(grid).num_rows }))
                &&& final(grid).public_rows == old(grid).public_rows
            },
    {
        if a.column >= grid.cells.len() || a.row >= grid.num_rows || b.column >= grid.cells.len()
            || b.row >= grid.num_rows {
            return Err(SynthesisError::OutOfRange);
        }
        let support = cfg.columns[a.column].equality && cfg.columns[b.column].equality;
        if !support {
            return Err(SynthesisError::MissingCopySupport);
        }
        let va = grid.value_at(a);
        let vb = grid.value_at(b);
        let start = grid.alloc_region(cfg, 1, Some("multiply"));
        match grid.enable_selector(self.mul_selector, start) {
            Ok(()) => (),
            Err(e) => {
                return Err(e);
            },
        }
        let lcell = CellRef { column: self.lhs, row: start };
        let rcell = CellRef { column: self.rhs, row: start };
        let ocell = CellRef { column: self.out, row: start };
        match grid.assign(lcell, va) {
            Ok(()) => (),
            Err(e) => {
                return Err(e);
            },
        }
        match grid.assign(rcell, vb) {
            Ok(()) => (),
            Err(e) => {
                return Err(e);
            },
        }
        let product = match (va, vb) {
            (CellValue::Known(x), CellValue::Known(y)) => CellValue::Known(
                x.mul(y, grid.modulus),
            ),
            _ => CellValue::Unknown,
        };
        match grid.assign(ocell, product) {
            Ok(()) => (),
            Err(e) => {
                return Err(e);
            },
        }
        match grid.record_copy(cfg, a, lcell) {
            Ok(()) => (),
            Err(e) => {
                return Err(e);
            },
        }
        match grid.record_copy(cfg, b, rcell) {
            Ok(()) => (),
            Err(e) => {
                return Err(e);
            },
        }
        Ok(ocell)
    }

    /// Enables the addition gate at a fresh row, copies both operands into
    /// the row's operand cells, assigns the sum (unknown when either
    /// operand is unknown) into the result cell, and returns its handle.
    pub fn add(self, cfg: &Config, grid: &mut Grid, a: CellRef, b: CellRef) -> (r: Result<
        CellRef,
        SynthesisError,
    >)
        requires
            config_wf(*cfg),
            chip_wf(self, *cfg),
            grid_wf(*cfg, *old(grid)),
            old(grid).num_rows + 1 <= usize::MAX,
        ensures
            grid_wf(*cfg, *final(grid)),
            r is Ok <==> (handle_ok(a, *cfg, *old(grid)) && handle_ok(b, *cfg, *old(grid))),
            r is Err ==> *final(grid) == *old(grid),
            r matches Err(e) ==> e == (if a.column < cfg.columns@.len() && a.row < old(grid).num_rows && b.column < cfg.columns@.len() && b.row < old(grid).num_rows {
                SynthesisError::MissingCopySupport
            } else {
                SynthesisError::OutOfRange
            }),
            r is Ok ==> {
                &&& extends(*final(grid), *old(grid))
                &&& r == Result::<CellRef, SynthesisError>::Ok(
                    CellRef { column: self.out, row: old(grid).num_rows },
                )
                &&& final(grid).num_rows == old(grid).num_rows + 1
                &&& final(grid).cells@[self.lhs as int]@[old(grid).num_rows as int] == old(grid).cells@[a.column as int]@[a.row as int]
                &&& final(grid).cells@[self.rhs as int]@[old(grid).num_rows as int] == old(grid).cells@[b.column as int]@[b.row as int]
                &&& cell_as_int(final(grid).cells@[self.out as int]@[old(grid).num_rows as int])
                    == sum_value(
                    cell_as_int(old(grid).cells@[a.column as int]@[a.row as int]),
                    cell_as_int(old(grid).cells@[b.column as int]@[b.row as int]),
                    old(grid).modulus as int,
                )
                &&& final(grid).written@[self.lhs as int]@[old(grid).num_rows as int]
                &&& final(grid).written@[self.rhs as int]@[old(grid).num_rows as int]
                &&& final(grid).written@[self.out as int]@[old(grid).num_rows as int]
                &&& forall|c: int|
                    0 <= c < cfg.columns@.len() && c != self.lhs && c != self.rhs && c != self.out
                        ==> (#[trigger] final(grid).cells@[c])@[old(grid).num_rows as int]
                        == CellValue::Unknown && !final(grid).written@[c]@[old(grid).num_rows as int]
                &&& final(grid).selectors@[self.add_selector as int]@[old(grid).num_rows as int]
                &&& forall|s: int|
                    0 <= s < final(grid).selectors@.len() && s != self.add_selector ==> !(
                    #[trigger] final(grid).selectors@[s])@[old(grid).num_rows as int]
                &&& final(grid).copies@ == old(grid).copies@.push(
                    (a, CellRef { column: self.lhs, row: old(grid).num_rows }),
                ).push((b, CellRef { column: self.rhs, row: old(grid).num_rows }))
                &&& final(grid).public_rows == old(grid).public_rows
            },
    {
        if a.column >= grid.cells.len() || a.row >= grid.num_rows || b.column >= grid.cells.len()
            || b.row >= grid.num_rows {
            return Err(SynthesisError::OutOfRange);
        }
        let support = cfg.columns[a.column].equality && cfg.columns[b.column].equality;
        if !support {
            return Err(SynthesisError::MissingCopySupport);
        }
        let va = grid.value_at(a);
        let vb = grid.value_at(b);
        let start = grid.alloc_region(cfg, 1, Some("add"));
        match grid.enable_selector(self.add_selector, start) {
            Ok(()) => (),
            Err(e) => {
                return Err(e);
            },
        }
        let lcell = CellRef { column: self.lhs, row: start };
        let rcell = CellRef { column: self.rhs, row: start };
        let ocell = CellRef { column: self.out, row: start };
        match grid.assign(lcell, va) {
            Ok(()) => (),
            Err(e) => {
                return Err(e);
            },
        }
        match grid.assign(rcell, vb) {
            Ok(()) => (),
            Err(e) => {
                return Err(e);
            },
        }
        let sum = match (va, vb) {
            (CellValue::Known(x), CellValue::Known(y)) => CellValue::Known(
                x.add(y, grid.modulus),
            ),
            _ => CellValue::Unknown,
        };
        match grid.assign(ocell, sum) {
            Ok(()) => (),
            Err(e) => {
                return Err(e);
            },
        }
        match grid.record_copy(cfg, a, lcell) {
            Ok(()) => (),
            Err(e) => {
                return Err(e);
            },
        }
        match grid.record_copy(cfg, b, rcell) {
            Ok(()) => (),
            Err(e) => {
                return Err(e);
            },
        }
        Ok(ocell)
    }

    /// Exposes the value a handle refers to: assigns it into the public
    /// column at `public_row` and records the copy constraint linking the
    /// two cells. The verifier then checks that row of the public column
    /// against the supplied public inputs.
    pub fn expose_public(self, cfg: &Config, grid: &mut Grid, h: CellRef, public_row: usize) -> (r:
        Result<(), SynthesisError>)
        requires
            config_wf(*cfg),
            chip_wf(self, *cfg),
            grid_wf(*cfg, *old(grid)),
        ensures
            grid_wf(*cfg, *final(grid)),
            r is Ok <==> (handle_ok(h, *cfg, *old(grid)) && public_row < old(grid).num_rows && !old(grid).written@[self.public as int]@[public_row as int]),
            r is Err ==> *final(grid) == *old(grid),
            r matches Err(e) ==> e == (if !(h.column < cfg.columns@.len() && h.row < old(grid).num_rows && public_row < old(grid).num_rows) {
                SynthesisError::OutOfRange
            } else if !cfg.columns@[h.column as int].equality {
                SynthesisError::MissingCopySupport
            } else {
                SynthesisError::AssignmentConflict
            }),
            r is Ok ==> {
                &&& final(grid).num_rows == old(grid).num_rows
                &&& final(grid).cells@.len() == old(grid).cells@.len()
                &&& final(grid).written@.len() == old(grid).written@.len()
                &&& forall|c: int|
                    0 <= c < old(grid).cells@.len() && c != self.public ==> (#[trigger] final(grid).cells@[c]) == old(grid).cells@[c] && final(grid).written@[c] == old(grid).written@[c]
                &&& final(grid).cells@[self.public as int]@ == old(grid).cells@[self.public as int]@.update(
                    public_row as int,
                    old(grid).cells@[h.column as int]@[h.row as int],
                )
                &&& final(grid).written@[self.public as int]@ == old(grid).written@[self.public as int]@.update(public_row as int, true)
                &&& final(grid).selectors == old(grid).selectors
                &&& final(grid).copies@ == old(grid).copies@.push(
                    (h, CellRef { column: self.public, row: public_row }),
                )
                &&& final(grid).public_rows == (if old(grid).public_rows >= public_row + 1 {
                    old(grid).public_rows as int
                } else {
                    public_row + 1
                })
                &&& final(grid).modulus == old(grid).modulus
            },
    {
        if h.column >= grid.cells.len() || h.row >= grid.num_rows || public_row >= grid.num_rows {
            return Err(SynthesisError::OutOfRange);
        }
        if !cfg.columns[h.column].equality {
            return Err(SynthesisError::MissingCopySupport);
        }
        let v = grid.value_at(h);
        let pcell = CellRef { column: self.public, row: public_row };
        match grid.assign(pcell, v) {
            Ok(()) => (),
            Err(e) => {
                return Err(e);
            },
        }
        match grid.record_copy(cfg, h, pcell) {
            Ok(()) => (),
            Err(e) => {
                return Err(e);
            },
        }
        if public_row + 1 > grid.public_rows {
            grid.public_rows = public_row + 1;
        }
        Ok(())
    }
}

} // verus!

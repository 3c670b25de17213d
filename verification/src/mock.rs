//! The mock verifier: walks every row and every active gate, every recorded
//! copy constraint and every exposed public cell, and returns the complete
//! list of violations found, never just the first.

use crate::cells::{cell_as_int, cell_wf, CellRef, CellValue};
use crate::config::{config_wf, ColumnKind, Config};
use crate::expr::{cell_at, eval_expr, Expr};
use crate::field::Fp;
use crate::grid::{cells_view, grid_shape_wf, grid_wf, Grid};
use vstd::prelude::*;

verus! {

/// One verification finding. Verification succeeds only when no violation
/// at all is found.
#[derive(Clone, Copy, Debug, PartialEq, Eq, Structural)]
pub enum Violation {
    /// An active gate reads a cell that was never assigned a known value.
    UnassignedWitness { gate: usize, row: usize },
    /// An active gate's polynomial does not evaluate to zero.
    GateNotSatisfied { gate: usize, row: usize },
    /// Two copy-linked cells do not both hold equal known values.
    CopyMismatch { left: CellRef, right: CellRef },
    /// An exposed public cell disagrees with the supplied public input.
    PublicInputMismatch { column: usize, row: usize },
    /// The supplied public-input vector has the wrong length.
    InputArityMismatch { expected: usize, supplied: usize },
}

/// Whether selector `s` is on at `row`.
pub open spec fn selector_on(g: Grid, s: int, row: int) -> bool {
    &&& 0 <= s < g.selectors@.len()
    &&& 0 <= row < g.selectors@[s]@.len()
    &&& g.selectors@[s]@[row]
}

/// The violations gate `gi` contributes at one row: none when its enable
/// flag is off; an unassigned-witness finding when its polynomial reads an
/// unknown cell; an unsatisfied-gate finding when the polynomial is nonzero.
pub open spec fn gate_row_violations(cfg: Config, g: Grid, gi: int, row: int) -> Seq<Violation> {
    let gate = cfg.gates@[gi];
    if !selector_on(g, gate.selector as int, row) {
        Seq::empty()
    } else {
        match eval_expr(gate.poly, cells_view(g), row, g.modulus as int) {
            None => seq![Violation::UnassignedWitness { gate: gi as usize, row: row as usize }],
            Some(v) => if v == 0 {
                Seq::empty()
            } else {
                seq![Violation::GateNotSatisfied { gate: gi as usize, row: row as usize }]
            },
        }
    }
}

/// The violations of gate `gi` over rows `0 .. row`, in row order.
pub open spec fn gate_rows_upto(cfg: Config, g: Grid, gi: int, row: int) -> Seq<Violation>
    decreases row,
{
    if row <= 0 {
        Seq::empty()
    } else {
        gate_rows_upto(cfg, g, gi, row - 1) + gate_row_violations(cfg, g, gi, row - 1)
    }
}

/// The violations of gates `0 .. gi`, each over every row, in gate order.
pub open spec fn gates_upto(cfg: Config, g: Grid, gi: int) -> Seq<Violation>
    decreases gi,
{
    if gi <= 0 {
        Seq::empty()
    } else {
        gates_upto(cfg, g, gi - 1) + gate_rows_upto(cfg, g, gi - 1, g.num_rows as int)
    }
}

/// All gate violations of the grid.
pub open spec fn gate_violations(cfg: Config, g: Grid) -> Seq<Violation> {
    gates_upto(cfg, g, cfg.gates@.len() as int)
}

/// The violations one copy constraint contributes: none exactly when both
/// cells hold known, equal values.
pub open spec fn copy_pair_violations(g: Grid, pair: (CellRef, CellRef)) -> Seq<Violation> {
    let a = cell_at(cells_view(g), pair.0.column as int, pair.0.row as int);
    let b = cell_at(cells_view(g), pair.1.column as int, pair.1.row as int);
    match (a, b) {
        (CellValue::Known(x), CellValue::Known(y)) => if x == y {
            Seq::empty()
        } else {
            seq![Violation::CopyMismatch { left: pair.0, right: pair.1 }]
        },
        _ => seq![Violation::CopyMismatch { left: pair.0, right: pair.1 }],
    }
}

/// The violations of copy constraints `0 .. i`, in recording order.
pub open spec fn copies_upto(g: Grid, i: int) -> Seq<Violation>
    decreases i,
{
    if i <= 0 {
        Seq::empty()
    } else {
        copies_upto(g, i - 1) + copy_pair_violations(g, g.copies@[i - 1])
    }
}

/// All copy-constraint violations of the grid.
pub open spec fn copy_violations(g: Grid) -> Seq<Violation> {
    copies_upto(g, g.copies@.len() as int)
}

/// The violations one cell of a public column contributes: an assigned
/// public cell must equal the public input supplied for its row.
pub open spec fn public_cell_violations(cfg: Config, g: Grid, pi: Seq<Fp>, c: int, r: int) -> Seq<
    Violation,
> {
    if cfg.columns@[c].kind is Public && g.written@[c]@[r] {
        if 0 <= r < pi.len() && g.cells@[c]@[r] == CellValue::Known(pi[r]) {
            Seq::empty()
        } else {
            seq![Violation::PublicInputMismatch { column: c as usize, row: r as usize }]
        }
    } else {
        Seq::empty()
    }
}

/// The public-input violations of column `c` over rows `0 .. r`.
pub open spec fn public_rows_upto(cfg: Config, g: Grid, pi: Seq<Fp>, c: int, r: int) -> Seq<
    Violation,
>
    decreases r,
{
    if r <= 0 {
        Seq::empty()
    } else {
        public_rows_upto(cfg, g, pi, c, r - 1) + public_cell_violations(cfg, g, pi, c, r - 1)
    }
}

/// The public-input violations of columns `0 .. c`, each over every row.
pub open spec fn public_cols_upto(cfg: Config, g: Grid, pi: Seq<Fp>, c: int) -> Seq<Violation>
    decreases c,
{
    if c <= 0 {
        Seq::empty()
    } else {
        public_cols_upto(cfg, g, pi, c - 1) + public_rows_upto(
            cfg,
            g,
            pi,
            c - 1,
            g.num_rows as int,
        )
    }
}

/// All public-input value violations of the grid.
pub open spec fn public_violations(cfg: Config, g: Grid, pi: Seq<Fp>) -> Seq<Violation> {
    public_cols_upto(cfg, g, pi, cfg.columns@.len() as int)
}

/// The arity violation: the public-input vector must hold exactly one entry
/// per public row the circuit exposes.
pub open spec fn arity_violations(g: Grid, pi: Seq<Fp>) -> Seq<Violation> {
    if pi.len() == g.public_rows {
        Seq::empty()
    } else {
        seq![
            Violation::InputArityMismatch {
                expected: g.public_rows,
                supplied: pi.len() as usize,
            },
        ]
    }
}

/// Every violation of the grid against the supplied public inputs: gate
/// checks, then copy checks, then public-value checks, then the arity
/// check.
pub open spec fn violations_of(cfg: Config, g: Grid, pi: Seq<Fp>) -> Seq<Violation> {
    gate_violations(cfg, g) + copy_violations(g) + public_violations(cfg, g, pi)
        + arity_violations(g, pi)
}

/// Evaluates a polynomial expression over the grid's cells at `row`.
/// Returns `Unknown` exactly when the expression reads a cell that is
/// unknown or out of range.
pub fn eval(e: &Expr, grid: &Grid, row: usize) -> (r: CellValue)
    requires
        grid_shape_wf(*grid),
    ensures
        cell_as_int(r) == eval_expr(*e, cells_view(*grid), row as int, grid.modulus as int),
        cell_wf(r, grid.modulus),
    decreases *e,
{
    match e {
        Expr::Cell { column, rotation } => {
            if *column < grid.cells.len() {
                let col = &grid.cells[*column];
                let len = col.len();
                if row < len && *rotation < len - row {
                    let v = col[row + *rotation];
                    proof {
                        assert(cells_view(*grid)[*column as int] == grid.cells@[*column as int]@);
                    }
                    v
                } else {
                    proof {
                        assert(cells_view(*grid)[*column as int] == grid.cells@[*column as int]@);
                    }
                    CellValue::Unknown
                }
            } else {
                CellValue::Unknown
            }
        },
        Expr::Sum(l, r2) => {
            let a = eval(&**l, grid, row);
            let b = eval(&**r2, grid, row);
            match (a, b) {
                (CellValue::Known(x), CellValue::Known(y)) => CellValue::Known(
                    x.add(y, grid.modulus),
                ),
                _ => CellValue::Unknown,
            }
        },
        Expr::Product(l, r2) => {
            let a = eval(&**l, grid, row);
            let b = eval(&**r2, grid, row);
            match (a, b) {
                (CellValue::Known(x), CellValue::Known(y)) => CellValue::Known(
                    x.mul(y, grid.modulus),
                ),
                _ => CellValue::Unknown,
            }
        },
        Expr::Negated(inner) => {
            let a = eval(&**inner, grid, row);
            match a {
                CellValue::Known(x) => CellValue::Known(x.neg(grid.modulus)),
                CellValue::Unknown => CellValue::Unknown,
            }
        },
    }
}

/// Checks a fully assigned grid against the declared constraints and the
/// supplied public inputs. Returns `Ok` exactly when no check finds a
/// violation; otherwise returns the complete list of violations, in check
/// order.
pub fn verify(cfg: &Config, grid: &Grid, public_inputs: &Vec<Fp>) -> (r: Result<(), Vec<Violation>>)
    requires
        config_wf(*cfg),
        grid_wf(*cfg, *grid),
    ensures
        r is Ok <==> violations_of(*cfg, *grid, public_inputs@).len() == 0,
        r matches Err(v) ==> v@ == violations_of(*cfg, *grid, public_inputs@) && v@.len() > 0,
{
    let mut out: Vec<Violation> = Vec::new();
    let ngates = cfg.gates.len();
    let mut gi: usize = 0;
    while gi < ngates
        invariant
            gi <= ngates,
            ngates == cfg.gates@.len(),
            config_wf(*cfg),
            grid_wf(*cfg, *grid),
            out@ == gates_upto(*cfg, *grid, gi as int),
        decreases ngates - gi,
    {
        let gate = &cfg.gates[gi];
        let nrows = grid.num_rows;
        let mut row: usize = 0;
        while row < nrows
            invariant
                row <= nrows,
                gi < ngates,
                ngates == cfg.gates@.len(),
                nrows == grid.num_rows,
                gate == &cfg.gates@[gi as int],
                config_wf(*cfg),
                grid_wf(*cfg, *grid),
                out@ == gates_upto(*cfg, *grid, gi as int) + gate_rows_upto(
                    *cfg,
                    *grid,
                    gi as int,
                    row as int,
                ),
            decreases nrows - row,
        {
            let enabled = grid.selectors[gate.selector][row];
            if enabled {
                let v = eval(&gate.poly, grid, row);
                match v {
                    CellValue::Unknown => {
                        out.push(Violation::UnassignedWitness { gate: gi, row });
                    },
                    CellValue::Known(f) => {
                        if f.value != 0 {
                            out.push(Violation::GateNotSatisfied { gate: gi, row });
                        }
                    },
                }
            }
            proof {
                assert(out@ =~= gates_upto(*cfg, *grid, gi as int) + gate_rows_upto(
                    *cfg,
                    *grid,
                    gi as int,
                    row + 1,
                ));
            }
            row = row + 1;
        }
        proof {
            assert(out@ =~= gates_upto(*cfg, *grid, gi + 1));
        }
        gi = gi + 1;
    }
    let ncopies = grid.copies.len();
    let mut ci: usize = 0;
    while ci < ncopies
        invariant
            ci <= ncopies,
            ncopies == grid.copies@.len(),
            config_wf(*cfg),
            grid_wf(*cfg, *grid),
            out@ == gate_violations(*cfg, *grid) + copies_upto(*grid, ci as int),
        decreases ncopies - ci,
    {
        let (left, right) = grid.copies[ci];
        let a = grid.value_at(left);
        let b = grid.value_at(right);
        let matches_ok = match (a, b) {
            (CellValue::Known(x), CellValue::Known(y)) => x == y,
            _ => false,
        };
        if !matches_ok {
            out.push(Violation::CopyMismatch { left, right });
        }
        proof {
            assert(cells_view(*grid)[left.column as int] == grid.cells@[left.column as int]@);
            assert(cells_view(*grid)[right.column as int] == grid.cells@[right.column as int]@);
            assert(out@ =~= gate_violations(*cfg, *grid) + copies_upto(*grid, ci + 1));
        }
        ci = ci + 1;
    }
    let ncols = cfg.columns.len();
    let mut c: usize = 0;
    while c < ncols
        invariant
            c <= ncols,
            ncols == cfg.columns@.len(),
            config_wf(*cfg),
            grid_wf(*cfg, *grid),
            out@ == gate_violations(*cfg, *grid) + copy_violations(*grid) + public_cols_upto(
                *cfg,
                *grid,
                public_inputs@,
                c as int,
            ),
        decreases ncols - c,
    {
        let is_public = match cfg.columns[c].kind {
            ColumnKind::Public => true,
            _ => false,
        };
        let nrows = grid.num_rows;
        let mut r: usize = 0;
        while r < nrows
            invariant
                r <= nrows,
                c < ncols,
                ncols == cfg.columns@.len(),
                nrows == grid.num_rows,
                is_public == cfg.columns@[c as int].kind is Public,
                config_wf(*cfg),
                grid_wf(*cfg, *grid),
                out@ == gate_violations(*cfg, *grid) + copy_violations(*grid) + public_cols_upto(
                    *cfg,
                    *grid,
                    public_inputs@,
                    c as int,
                ) + public_rows_upto(*cfg, *grid, public_inputs@, c as int, r as int),
            decreases nrows - r,
        {
            if is_public && grid.written[c][r] {
                let good = if r < public_inputs.len() {
                    grid.cells[c][r] == CellValue::Known(public_inputs[r])
                } else {
                    false
                };
                if !good {
                    out.push(Violation::PublicInputMismatch { column: c, row: r });
                }
            }
            proof {
                assert(out@ =~= gate_violations(*cfg, *grid) + copy_violations(*grid)
                    + public_cols_upto(*cfg, *grid, public_inputs@, c as int) + public_rows_upto(
                    *cfg,
                    *grid,
                    public_inputs@,
                    c as int,
                    r + 1,
                ));
            }
            r = r + 1;
        }
        proof {
            assert(out@ =~= gate_violations(*cfg, *grid) + copy_violations(*grid)
                + public_cols_upto(*cfg, *grid, public_inputs@, c + 1));
        }
        c = c + 1;
    }
    if public_inputs.len() != grid.public_rows {
        out.push(
            Violation::InputArityMismatch {
                expected: grid.public_rows,
                supplied: public_inputs.len(),
            },
        );
    }
    proof {
        assert(out@ =~= violations_of(*cfg, *grid, public_inputs@));
    }
    if out.len() == 0 {
        Ok(())
    } else {
        Err(out)
    }
}


/// How many findings in a list are unassigned-witness findings.
pub open spec fn unassigned_count(vs: Seq<Violation>) -> int
    decreases vs.len(),
{
    if vs.len() == 0 {
        0
    } else {
        unassigned_count(vs.drop_last()) + if vs.last() is UnassignedWitness {
            1int
        } else {
            0int
        }
    }
}

/// Unassigned-witness findings are counted piecewise over concatenation.
pub proof fn lemma_unassigned_count_add(a: Seq<Violation>, b: Seq<Violation>)
    ensures
        unassigned_count(a + b) == unassigned_count(a) + unassigned_count(b),
    decreases b.len(),
{
    if b.len() == 0 {
        assert(a + b =~= a);
    } else {
        lemma_unassigned_count_add(a, b.drop_last());
        assert((a + b).drop_last() =~= a + b.drop_last());
        assert((a + b).last() == b.last());
    }
}

/// A gate whose enable flag is off at a row contributes no finding there,
/// whatever the row's cells hold.
pub proof fn lemma_disabled_gate_no_constraint(cfg: Config, g: Grid, gi: int, row: int)
    requires
        0 <= gi < cfg.gates@.len(),
        !selector_on(g, cfg.gates@[gi].selector as int, row),
    ensures
        gate_row_violations(cfg, g, gi, row) == Seq::<Violation>::empty(),
{
}

/// When at most the row `xr` of gate `gi` contributes findings, its
/// findings over rows `0 .. row` are exactly that row's.
pub proof fn lemma_gate_rows_upto_single(cfg: Config, g: Grid, gi: int, row: int, xr: int)
    requires
        forall|r: int|
            0 <= r < row && r != xr ==> gate_row_violations(cfg, g, gi, r) =~= Seq::<
                Violation,
            >::empty(),
    ensures
        gate_rows_upto(cfg, g, gi, row) =~= (if 0 <= xr < row {
            gate_row_violations(cfg, g, gi, xr)
        } else {
            Seq::<Violation>::empty()
        }),
    decreases row,
{
    if row > 0 {
        lemma_gate_rows_upto_single(cfg, g, gi, row - 1, xr);
    }
}

/// When at most the row `xr` of gate `xg` contributes findings, the
/// findings of gates `0 .. gi` are exactly that row's.
pub proof fn lemma_gates_upto_single(cfg: Config, g: Grid, gi: int, xg: int, xr: int)
    requires
        forall|gg: int, r: int|
            0 <= gg < gi && 0 <= r < g.num_rows && !(gg == xg && r == xr)
                ==> gate_row_violations(cfg, g, gg, r) =~= Seq::<Violation>::empty(),
    ensures
        gates_upto(cfg, g, gi) =~= (if 0 <= xg < gi && 0 <= xr < g.num_rows {
            gate_row_violations(cfg, g, xg, xr)
        } else {
            Seq::<Violation>::empty()
        }),
    decreases gi,
{
    if gi > 0 {
        lemma_gates_upto_single(cfg, g, gi - 1, xg, xr);
        if gi - 1 == xg {
            lemma_gate_rows_upto_single(cfg, g, gi - 1, g.num_rows as int, xr);
        } else {
            lemma_gate_rows_upto_single(cfg, g, gi - 1, g.num_rows as int, -1);
        }
    }
}

/// When every recorded copy constraint holds, the copy checks find
/// nothing.
pub proof fn lemma_copies_upto_empty(g: Grid, i: int)
    requires
        forall|j: int|
            0 <= j < i ==> copy_pair_violations(g, g.copies@[j]) =~= Seq::<Violation>::empty(),
    ensures
        copies_upto(g, i) =~= Seq::<Violation>::empty(),
    decreases i,
{
    if i > 0 {
        lemma_copies_upto_empty(g, i - 1);
    }
}

/// Copy findings never count as unassigned-witness findings.
pub proof fn lemma_copies_unassigned_count(g: Grid, i: int)
    ensures
        unassigned_count(copies_upto(g, i)) == 0,
    decreases i,
{
    if i <= 0 {
    } else {
        lemma_copies_unassigned_count(g, i - 1);
        lemma_unassigned_count_add(copies_upto(g, i - 1), copy_pair_violations(g, g.copies@[i - 1]));
        let pv = copy_pair_violations(g, g.copies@[i - 1]);
        assert(unassigned_count(pv) == 0) by {
            if pv.len() != 0 {
                assert(pv.last() is CopyMismatch);
                assert(pv.drop_last().len() == 0);
                assert(unassigned_count(pv.drop_last()) == 0);
            }
        }
    }
}

/// When at most the cell at row `xr` of public column `c` contributes a
/// finding, the column's findings over rows `0 .. r` are exactly that
/// cell's.
pub proof fn lemma_public_rows_upto_single(cfg: Config, g: Grid, pi: Seq<Fp>, c: int, r: int, xr: int)
    requires
        forall|rr: int|
            0 <= rr < r && rr != xr ==> public_cell_violations(cfg, g, pi, c, rr) =~= Seq::<
                Violation,
            >::empty(),
    ensures
        public_rows_upto(cfg, g, pi, c, r) =~= (if 0 <= xr < r {
            public_cell_violations(cfg, g, pi, c, xr)
        } else {
            Seq::<Violation>::empty()
        }),
    decreases r,
{
    if r > 0 {
        lemma_public_rows_upto_single(cfg, g, pi, c, r - 1, xr);
    }
}

/// When at most the cell `(xc, xr)` of a public column contributes a
/// finding, the public checks over columns `0 .. c` find exactly that
/// cell's findings.
pub proof fn lemma_public_cols_upto_single(cfg: Config, g: Grid, pi: Seq<Fp>, c: int, xc: int, xr: int)
    requires
        forall|cc: int, rr: int|
            0 <= cc < c && 0 <= rr < g.num_rows && !(cc == xc && rr == xr)
                ==> public_cell_violations(cfg, g, pi, cc, rr) =~= Seq::<Violation>::empty(),
    ensures
        public_cols_upto(cfg, g, pi, c) =~= (if 0 <= xc < c && 0 <= xr < g.num_rows {
            public_cell_violations(cfg, g, pi, xc, xr)
        } else {
            Seq::<Violation>::empty()
        }),
    decreases c,
{
    if c > 0 {
        lemma_public_cols_upto_single(cfg, g, pi, c - 1, xc, xr);
        if c - 1 == xc {
            lemma_public_rows_upto_single(cfg, g, pi, c - 1, g.num_rows as int, xr);
        } else {
            lemma_public_rows_upto_single(cfg, g, pi, c - 1, g.num_rows as int, -1);
        }
    }
}


/// Re-verification is stable: the verdict is a function of the grid and
/// the public inputs alone, so any two verification results for the same
/// unmodified grid and inputs agree, both in outcome and in the reported
/// findings.
pub proof fn lemma_reverification_stable(
    cfg: Config,
    g: Grid,
    pi: Seq<Fp>,
    r1: Result<(), Seq<Violation>>,
    r2: Result<(), Seq<Violation>>,
)
    requires
        r1 is Ok <==> violations_of(cfg, g, pi).len() == 0,
        r1 matches Err(v) ==> v == violations_of(cfg, g, pi),
        r2 is Ok <==> violations_of(cfg, g, pi).len() == 0,
        r2 matches Err(v) ==> v == violations_of(cfg, g, pi),
    ensures
        r1 is Ok <==> r2 is Ok,
        r1 matches Err(v1) ==> r2 matches Err(v2) && v1 == v2,
{
}

} // verus!

//! Concrete circuits: fixed sequences of chip operations, each with a
//! verified account of the grid it builds and of the verdict the mock
//! verifier reaches on it.

use crate::cells::{cell_as_int, cell_wf, CellRef, CellValue};
use crate::chip::{
    add_constraint, chip_wf, configure, mul_constraint, product_value, sum_value, ChipConfig,
};
use crate::config::{config_wf, Config};
use crate::expr::cell_at;
use crate::field::{add_mod, fp_wf, modulus_wf, mul_mod, Fp};
use crate::grid::{cells_view, grid_wf, Grid, SynthesisError};
use crate::mock::{
    arity_violations, copy_pair_violations, copy_violations, gate_row_violations, gate_violations,
    lemma_copies_unassigned_count, lemma_copies_upto_empty, lemma_gates_upto_single,
    lemma_public_cols_upto_single, lemma_unassigned_count_add, public_cell_violations,
    public_violations, selector_on, unassigned_count, violations_of, Violation,
};
use vstd::prelude::*;

verus! {

/// The outcome of one synthesis run: the configuration, the chip bindings,
/// the fully assigned grid, and the handle of the circuit's result cell.
pub struct Synthesized {
    pub config: Config,
    pub chip: ChipConfig,
    pub grid: Grid,
    pub result: CellRef,
}

/// The invariants every synthesis run establishes.
pub open spec fn synthesized_wf(s: Synthesized, p: u64) -> bool {
    &&& config_wf(s.config)
    &&& chip_wf(s.chip, s.config)
    &&& grid_wf(s.config, s.grid)
    &&& s.grid.modulus == p
    &&& s.result.column < s.grid.cells@.len()
    &&& s.result.row < s.grid.num_rows
}

/// The value held by the result cell of a synthesis run.
pub open spec fn result_value(s: Synthesized) -> Option<int> {
    cell_as_int(s.grid.cells@[s.result.column as int]@[s.result.row as int])
}

/// A circuit that multiplies two private witnesses.
pub struct ProductCircuit {
    pub a: CellValue,
    pub b: CellValue,
}

impl ProductCircuit {
    /// Loads both witnesses and multiplies them. The result cell holds the
    /// product of the inputs, unknown exactly when either input is
    /// unknown. With both inputs known the grid verifies cleanly against
    /// an empty public-input vector; with an unknown input, verification
    /// finds exactly one unassigned witness.
    pub fn synthesize(self, p: u64) -> (r: Result<Synthesized, SynthesisError>)
        requires
            modulus_wf(p),
            cell_wf(self.a, p),
            cell_wf(self.b, p),
        ensures
            r is Ok,
            r matches Ok(s) ==> {
                &&& synthesized_wf(s, p)
                &&& s.grid.public_rows == 0
                &&& result_value(s) == product_value(
                    cell_as_int(self.a),
                    cell_as_int(self.b),
                    p as int,
                )
                &&& (self.a is Known && self.b is Known ==> violations_of(
                    s.config,
                    s.grid,
                    Seq::<Fp>::empty(),
                ).len() == 0)
                &&& ((self.a is Unknown || self.b is Unknown) ==> unassigned_count(
                    violations_of(s.config, s.grid, Seq::<Fp>::empty()),
                ) == 1 && violations_of(s.config, s.grid, Seq::<Fp>::empty()).len() >= 1)
            },
    {
        let mut cfg = Config::new();
        let chip = configure(&mut cfg);
        let mut grid = Grid::new(&cfg, p);
        let ha = match chip.load_private(&cfg, &mut grid, self.a) {
            Ok(h) => h,
            Err(e) => {
                return Err(e);
            },
        };
        let ghost g1 = grid;
        let hb = match chip.load_private(&cfg, &mut grid, self.b) {
            Ok(h) => h,
            Err(e) => {
                return Err(e);
            },
        };
        let ghost g2 = grid;
        let hm = match chip.multiply(&cfg, &mut grid, ha, hb) {
            Ok(h) => h,
            Err(e) => {
                return Err(e);
            },
        };
        let s = Synthesized { config: cfg, chip, grid, result: hm };
        proof {
            let cfgs = s.config;
            let g = s.grid;
            let cc = s.chip;
            let pi = Seq::<Fp>::empty();
            let cv = cells_view(g);
            assert(g.num_rows == 3);
            assert(cv[cc.lhs as int] == g.cells@[cc.lhs as int]@);
            assert(cv[cc.rhs as int] == g.cells@[cc.rhs as int]@);
            assert(cv[cc.out as int] == g.cells@[cc.out as int]@);
            assert(g.cells@[cc.lhs as int]@[2] == self.a);
            assert(g.cells@[cc.rhs as int]@[2] == self.b);
            // no gate-enable flag is on anywhere except the multiply gate at row 2
            assert forall|gg: int, r: int|
                0 <= gg < cfgs.gates@.len() && 0 <= r < g.num_rows && !(gg == 0 && r == 2)
                    implies gate_row_violations(cfgs, g, gg, r) =~= Seq::<Violation>::empty() by {
                assert(!selector_on(g, cfgs.gates@[gg].selector as int, r));
            }
            // every copy constraint links a witness cell to the cell it was
            // copied from, so the two hold the same value
            assert forall|j: int| 0 <= j < g.copies@.len() implies copy_pair_violations(
                g,
                g.copies@[j],
            ) =~= Seq::<Violation>::empty() || (self.a is Unknown || self.b is Unknown) by {
                assert(g.copies@.len() == 2);
                if self.a is Known && self.b is Known {
                    if j == 0 {
                        assert(g.copies@[0] == (ha, CellRef { column: cc.lhs, row: 2 }));
                        assert(cell_at(cv, cc.lhs as int, 0) == self.a);
                        assert(cell_at(cv, cc.lhs as int, 2) == self.a);
                    } else {
                        assert(g.copies@[1] == (hb, CellRef { column: cc.rhs, row: 2 }));
                        assert(cell_at(cv, cc.lhs as int, 1) == self.b);
                        assert(cell_at(cv, cc.rhs as int, 2) == self.b);
                    }
                }
            }
            // no public cell is ever written
            assert forall|c: int, r: int|
                0 <= c < cfgs.columns@.len() && 0 <= r < g.num_rows implies public_cell_violations(
                cfgs,
                g,
                pi,
                c,
                r,
            ) =~= Seq::<Violation>::empty() by {
                if cfgs.columns@[c].kind is Public {
                    assert(c == cc.public);
                    if r == 0 {
                        assert(g1.cells@[c]@[0] == CellValue::Unknown);
                        assert(!g1.written@[c]@[0]);
                        assert(g2.written@[c]@[0] == g1.written@[c]@[0]);
                        assert(g.written@[c]@[0] == g2.written@[c]@[0]);
                    } else if r == 1 {
                        assert(g2.cells@[c]@[1] == CellValue::Unknown);
                        assert(!g2.written@[c]@[1]);
                        assert(g.written@[c]@[1] == g2.written@[c]@[1]);
                    } else {
                        assert(g.cells@[c]@[2] == CellValue::Unknown);
                    }
                    assert(!g.written@[c]@[r]);
                }
            }
            lemma_public_cols_upto_single(cfgs, g, pi, cfgs.columns@.len() as int, -1, -1);
            assert(arity_violations(g, pi) =~= Seq::<Violation>::empty());
            let gate0 = gate_row_violations(cfgs, g, 0, 2);
            assert(selector_on(g, cfgs.gates@[0].selector as int, 2));
            assert(crate::expr::eval_expr(cfgs.gates@[0].poly, cv, 2, p as int) == mul_constraint(
                cc,
                cv,
                2,
                p as int,
            ));
            if self.a is Known && self.b is Known {
                let av = cell_as_int(self.a)->0;
                let bv = cell_as_int(self.b)->0;
                let ov = mul_mod(av, bv, p as int);
                assert(cell_as_int(cell_at(cv, cc.out as int, 2)) == Some(ov));
                crate::field::lemma_add_neg_zero(ov, p as int);
                assert(mul_constraint(cc, cv, 2, p as int) == Some(0int));
                assert(gate0 =~= Seq::<Violation>::empty());
                assert forall|gg: int, r: int|
                    0 <= gg < cfgs.gates@.len() && 0 <= r < g.num_rows implies gate_row_violations(
                    cfgs,
                    g,
                    gg,
                    r,
                ) =~= Seq::<Violation>::empty() by {}
                lemma_gates_upto_single(cfgs, g, cfgs.gates@.len() as int, -1, -1);
                assert forall|j: int| 0 <= j < g.copies@.len() implies copy_pair_violations(
                    g,
                    g.copies@[j],
                ) =~= Seq::<Violation>::empty() by {}
                lemma_copies_upto_empty(g, g.copies@.len() as int);
                assert(violations_of(cfgs, g, pi).len() == 0);
            } else {
                assert(mul_constraint(cc, cv, 2, p as int) is None);
                assert(gate0 =~= seq![Violation::UnassignedWitness { gate: 0, row: 2 }]);
                lemma_gates_upto_single(cfgs, g, cfgs.gates@.len() as int, 0, 2);
                assert(gate_violations(cfgs, g) =~= gate0);
                lemma_copies_unassigned_count(g, g.copies@.len() as int);
                let vs = violations_of(cfgs, g, pi);
                let gpart = gate_violations(cfgs, g);
                let cpart = copy_violations(g);
                let ppart = public_violations(cfgs, g, pi);
                let apart = arity_violations(g, pi);
                lemma_unassigned_count_add(gpart, cpart);
                lemma_unassigned_count_add(gpart + cpart, ppart);
                lemma_unassigned_count_add(gpart + cpart + ppart, apart);
                assert(unassigned_count(gpart) == 1) by {
                    assert(gpart =~= seq![Violation::UnassignedWitness { gate: 0, row: 2 }]);
                    assert(gpart.drop_last().len() == 0);
                    assert(unassigned_count(gpart.drop_last()) == 0);
                }
                assert(unassigned_count(ppart) == 0);
                assert(unassigned_count(apart) == 0);
                assert(unassigned_count(vs) == 1);
                assert(vs.len() >= 1);
            }
        }
        Ok(s)
    }
}

/// A circuit that adds two private witnesses.
pub struct SumCircuit {
    pub a: CellValue,
    pub b: CellValue,
}

impl SumCircuit {
    /// Loads both witnesses and adds them. The result cell holds the
    /// sum of the inputs, unknown exactly when either input is
    /// unknown. With both inputs known the grid verifies cleanly against
    /// an empty public-input vector; with an unknown input, verification
    /// finds exactly one unassigned witness.
    pub fn synthesize(self, p: u64) -> (r: Result<Synthesized, SynthesisError>)
        requires
            modulus_wf(p),
            cell_wf(self.a, p),
            cell_wf(self.b, p),
        ensures
            r is Ok,
            r matches Ok(s) ==> {
                &&& synthesized_wf(s, p)
                &&& s.grid.public_rows == 0
                &&& result_value(s) == sum_value(
                    cell_as_int(self.a),
                    cell_as_int(self.b),
                    p as int,
                )
                &&& (self.a is Known && self.b is Known ==> violations_of(
                    s.config,
                    s.grid,
                    Seq::<Fp>::empty(),
                ).len() == 0)
                &&& ((self.a is Unknown || self.b is Unknown) ==> unassigned_count(
                    violations_of(s.config, s.grid, Seq::<Fp>::empty()),
                ) == 1 && violations_of(s.config, s.grid, Seq::<Fp>::empty()).len() >= 1)
            },
    {
        let mut cfg = Config::new();
        let chip = configure(&mut cfg);
        let mut grid = Grid::new(&cfg, p);
        let ha = match chip.load_private(&cfg, &mut grid, self.a) {
            Ok(h) => h,
            Err(e) => {
                return Err(e);
            },
        };
        let ghost g1 = grid;
        let hb = match chip.load_private(&cfg, &mut grid, self.b) {
            Ok(h) => h,
            Err(e) => {
                return Err(e);
            },
        };
        let ghost g2 = grid;
        let hm = match chip.add(&cfg, &mut grid, ha, hb) {
            Ok(h) => h,
            Err(e) => {
                return Err(e);
            },
        };
        let s = Synthesized { config: cfg, chip, grid, result: hm };
        proof {
            let cfgs = s.config;
            let g = s.grid;
            let cc = s.chip;
            let pi = Seq::<Fp>::empty();
            let cv = cells_view(g);
            assert(g.num_rows == 3);
            assert(cv[cc.lhs as int] == g.cells@[cc.lhs as int]@);
            assert(cv[cc.rhs as int] == g.cells@[cc.rhs as int]@);
            assert(cv[cc.out as int] == g.cells@[cc.out as int]@);
            assert(g.cells@[cc.lhs as int]@[2] == self.a);
            assert(g.cells@[cc.rhs as int]@[2] == self.b);
            // no gate-enable flag is on anywhere except the addition gate at row 2
            assert forall|gg: int, r: int|
                0 <= gg < cfgs.gates@.len() && 0 <= r < g.num_rows && !(gg == 1 && r == 2)
                    implies gate_row_violations(cfgs, g, gg, r) =~= Seq::<Violation>::empty() by {
                assert(!selector_on(g, cfgs.gates@[gg].selector as int, r));
            }
            // every copy constraint links a witness cell to the cell it was
            // copied from, so the two hold the same value
            assert forall|j: int| 0 <= j < g.copies@.len() implies copy_pair_violations(
                g,
                g.copies@[j],
            ) =~= Seq::<Violation>::empty() || (self.a is Unknown || self.b is Unknown) by {
                assert(g.copies@.len() == 2);
                if self.a is Known && self.b is Known {
                    if j == 0 {
                        assert(g.copies@[0] == (ha, CellRef { column: cc.lhs, row: 2 }));
                        assert(cell_at(cv, cc.lhs as int, 0) == self.a);
                        assert(cell_at(cv, cc.lhs as int, 2) == self.a);
                    } else {
                        assert(g.copies@[1] == (hb, CellRef { column: cc.rhs, row: 2 }));
                        assert(cell_at(cv, cc.lhs as int, 1) == self.b);
                        assert(cell_at(cv, cc.rhs as int, 2) == self.b);
                    }
                }
            }
            // no public cell is ever written
            assert forall|c: int, r: int|
                0 <= c < cfgs.columns@.len() && 0 <= r < g.num_rows implies public_cell_violations(
                cfgs,
                g,
                pi,
                c,
                r,
            ) =~= Seq::<Violation>::empty() by {
                if cfgs.columns@[c].kind is Public {
                    assert(c == cc.public);
                    if r == 0 {
                        assert(g1.cells@[c]@[0] == CellValue::Unknown);
                        assert(!g1.written@[c]@[0]);
                        assert(g2.written@[c]@[0] == g1.written@[c]@[0]);
                        assert(g.written@[c]@[0] == g2.written@[c]@[0]);
                    } else if r == 1 {
                        assert(g2.cells@[c]@[1] == CellValue::Unknown);
                        assert(!g2.written@[c]@[1]);
                        assert(g.written@[c]@[1] == g2.written@[c]@[1]);
                    } else {
                        assert(g.cells@[c]@[2] == CellValue::Unknown);
                    }
                    assert(!g.written@[c]@[r]);
                }
            }
            lemma_public_cols_upto_single(cfgs, g, pi, cfgs.columns@.len() as int, -1, -1);
            assert(arity_violations(g, pi) =~= Seq::<Violation>::empty());
            let gate1 = gate_row_violations(cfgs, g, 1, 2);
            assert(selector_on(g, cfgs.gates@[1].selector as int, 2));
            assert(crate::expr::eval_expr(cfgs.gates@[1].poly, cv, 2, p as int) == add_constraint(
                cc,
                cv,
                2,
                p as int,
            ));
            if self.a is Known && self.b is Known {
                let av = cell_as_int(self.a)->0;
                let bv = cell_as_int(self.b)->0;
                let ov = add_mod(av, bv, p as int);
                assert(cell_as_int(cell_at(cv, cc.out as int, 2)) == Some(ov));
                crate::field::lemma_add_neg_zero(ov, p as int);
                assert(add_constraint(cc, cv, 2, p as int) == Some(0int));
                assert(gate1 =~= Seq::<Violation>::empty());
                assert forall|gg: int, r: int|
                    0 <= gg < cfgs.gates@.len() && 0 <= r < g.num_rows implies gate_row_violations(
                    cfgs,
                    g,
                    gg,
                    r,
                ) =~= Seq::<Violation>::empty() by {}
                lemma_gates_upto_single(cfgs, g, cfgs.gates@.len() as int, -1, -1);
                assert forall|j: int| 0 <= j < g.copies@.len() implies copy_pair_violations(
                    g,
                    g.copies@[j],
                ) =~= Seq::<Violation>::empty() by {}
                lemma_copies_upto_empty(g, g.copies@.len() as int);
                assert(violations_of(cfgs, g, pi).len() == 0);
            } else {
                assert(add_constraint(cc, cv, 2, p as int) is None);
                assert(gate1 =~= seq![Violation::UnassignedWitness { gate: 1, row: 2 }]);
                lemma_gates_upto_single(cfgs, g, cfgs.gates@.len() as int, 1, 2);
                assert(gate_violations(cfgs, g) =~= gate1);
                lemma_copies_unassigned_count(g, g.copies@.len() as int);
                let vs = violations_of(cfgs, g, pi);
                let gpart = gate_violations(cfgs, g);
                let cpart = copy_violations(g);
                let ppart = public_violations(cfgs, g, pi);
                let apart = arity_violations(g, pi);
                lemma_unassigned_count_add(gpart, cpart);
                lemma_unassigned_count_add(gpart + cpart, ppart);
                lemma_unassigned_count_add(gpart + cpart + ppart, apart);
                assert(unassigned_count(gpart) == 1) by {
                    assert(gpart =~= seq![Violation::UnassignedWitness { gate: 1, row: 2 }]);
                    assert(gpart.drop_last().len() == 0);
                    assert(unassigned_count(gpart.drop_last()) == 0);
                }
                assert(unassigned_count(ppart) == 0);
                assert(unassigned_count(apart) == 0);
                assert(unassigned_count(vs) == 1);
                assert(vs.len() >= 1);
            }
        }
        Ok(s)
    }
}


/// The circuit computing `x * y + constant` and exposing the result as the
/// first public input: a constant is baked in, two private witnesses are
/// loaded, multiplied, the constant added, and the sum exposed at public
/// row 0.
pub struct ArithmeticCircuit {
    pub x: CellValue,
    pub y: CellValue,
    pub constant: Fp,
}

impl ArithmeticCircuit {
    /// Synthesizes the circuit. With both witnesses known, the result cell
    /// holds `x * y + constant`, and verifying against a one-entry
    /// public-input vector succeeds exactly when that entry is the result:
    /// any other vector entry yields exactly one public-input mismatch.
    pub fn synthesize(self, p: u64) -> (r: Result<Synthesized, SynthesisError>)
        requires
            modulus_wf(p),
            cell_wf(self.x, p),
            cell_wf(self.y, p),
            fp_wf(self.constant, p),
        ensures
            r is Ok,
            r matches Ok(s) ==> {
                &&& synthesized_wf(s, p)
                &&& s.grid.public_rows == 1
                &&& result_value(s) == sum_value(
                    product_value(cell_as_int(self.x), cell_as_int(self.y), p as int),
                    Some(self.constant.value as int),
                    p as int,
                )
                &&& (self.x is Known && self.y is Known ==> forall|w: Fp|
                    violations_of(s.config, s.grid, seq![w]) =~= (if w.value == add_mod(
                        mul_mod(cell_as_int(self.x)->0, cell_as_int(self.y)->0, p as int),
                        self.constant.value as int,
                        p as int,
                    ) {
                        Seq::<Violation>::empty()
                    } else {
                        seq![
                            Violation::PublicInputMismatch { column: s.chip.public, row: 0 },
                        ]
                    }))
            },
    {
        let mut cfg = Config::new();
        let chip = configure(&mut cfg);
        let mut grid = Grid::new(&cfg, p);
        let hc = match chip.load_constant(&cfg, &mut grid, self.constant) {
            Ok(h) => h,
            Err(e) => {
                return Err(e);
            },
        };
        let ghost g1 = grid;
        let hx = match chip.load_private(&cfg, &mut grid, self.x) {
            Ok(h) => h,
            Err(e) => {
                return Err(e);
            },
        };
        let ghost g2 = grid;
        let hy = match chip.load_private(&cfg, &mut grid, self.y) {
            Ok(h) => h,
            Err(e) => {
                return Err(e);
            },
        };
        let ghost g3 = grid;
        let hm = match chip.multiply(&cfg, &mut grid, hx, hy) {
            Ok(h) => h,
            Err(e) => {
                return Err(e);
            },
        };
        let ghost g4 = grid;
        let hs = match chip.add(&cfg, &mut grid, hm, hc) {
            Ok(h) => h,
            Err(e) => {
                return Err(e);
            },
        };
        let ghost g5 = grid;
        match chip.expose_public(&cfg, &mut grid, hs, 0) {
            Ok(()) => (),
            Err(e) => {
                return Err(e);
            },
        }
        let s = Synthesized { config: cfg, chip, grid, result: hs };
        proof {
            let cfgs = s.config;
            let g = s.grid;
            let cc = s.chip;
            let cv = cells_view(g);
            assert(g.num_rows == 5);
            assert(cv[cc.lhs as int] == g.cells@[cc.lhs as int]@);
            assert(cv[cc.rhs as int] == g.cells@[cc.rhs as int]@);
            assert(cv[cc.out as int] == g.cells@[cc.out as int]@);
            assert(cv[cc.constants as int] == g.cells@[cc.constants as int]@);
            assert(cv[cc.public as int] == g.cells@[cc.public as int]@);
            // the non-public columns are untouched by the exposure
            assert(g.cells@[cc.lhs as int] == g5.cells@[cc.lhs as int]);
            assert(g.cells@[cc.rhs as int] == g5.cells@[cc.rhs as int]);
            assert(g.cells@[cc.out as int] == g5.cells@[cc.out as int]);
            assert(g.cells@[cc.constants as int] == g5.cells@[cc.constants as int]);
            assert(g.cells@[cc.public as int]@[0] == g5.cells@[cc.out as int]@[4]);
            assert(g.cells@[cc.constants as int]@[0] == CellValue::Known(self.constant));
            assert(g.cells@[cc.lhs as int]@[0] == CellValue::Known(self.constant));
            assert(g.cells@[cc.lhs as int]@[1] == self.x);
            assert(g.cells@[cc.lhs as int]@[2] == self.y);
            assert(g.cells@[cc.lhs as int]@[3] == self.x);
            assert(g.cells@[cc.rhs as int]@[3] == self.y);
            assert(g.cells@[cc.lhs as int]@[4] == g4.cells@[cc.out as int]@[3]);
            assert(g.cells@[cc.rhs as int]@[4] == CellValue::Known(self.constant));
            if self.x is Known && self.y is Known {
                let xv = cell_as_int(self.x)->0;
                let yv = cell_as_int(self.y)->0;
                let cvv = self.constant.value as int;
                let mv = mul_mod(xv, yv, p as int);
                let v = add_mod(mv, cvv, p as int);
                assert(cell_as_int(g.cells@[cc.out as int]@[3]) == Some(mv));
                assert(cell_as_int(g.cells@[cc.out as int]@[4]) == Some(v));
                assert(cell_as_int(g.cells@[cc.public as int]@[0]) == Some(v));
                // every enable flag is off except multiply at row 3 and add
                // at row 4, and both gates are satisfied there
                assert forall|gg: int, r: int|
                    0 <= gg < cfgs.gates@.len() && 0 <= r < g.num_rows implies gate_row_violations(
                    cfgs,
                    g,
                    gg,
                    r,
                ) =~= Seq::<Violation>::empty() by {
                    if gg == 0 && r == 3 {
                        assert(selector_on(g, cfgs.gates@[0].selector as int, 3));
                        assert(crate::expr::eval_expr(cfgs.gates@[0].poly, cv, 3, p as int)
                            == mul_constraint(cc, cv, 3, p as int));
                        assert(cell_as_int(cell_at(cv, cc.out as int, 3)) == Some(mv));
                        crate::field::lemma_add_neg_zero(mv, p as int);
                        assert(mul_constraint(cc, cv, 3, p as int) == Some(0int));
                    } else if gg == 1 && r == 4 {
                        assert(selector_on(g, cfgs.gates@[1].selector as int, 4));
                        assert(crate::expr::eval_expr(cfgs.gates@[1].poly, cv, 4, p as int)
                            == add_constraint(cc, cv, 4, p as int));
                        assert(cell_as_int(cell_at(cv, cc.lhs as int, 4)) == Some(mv));
                        assert(cell_as_int(cell_at(cv, cc.rhs as int, 4)) == Some(cvv));
                        assert(cell_as_int(cell_at(cv, cc.out as int, 4)) == Some(v));
                        crate::field::lemma_add_neg_zero(v, p as int);
                        assert(add_constraint(cc, cv, 4, p as int) == Some(0int));
                    } else {
                        assert(!selector_on(g, cfgs.gates@[gg].selector as int, r));
                    }
                }
                // every copy constraint links cells holding the same known
                // value
                assert forall|j: int| 0 <= j < g.copies@.len() implies copy_pair_violations(
                    g,
                    g.copies@[j],
                ) =~= Seq::<Violation>::empty() by {
                    assert(g.copies@.len() == 6);
                    if j == 0 {
                        assert(g.copies@[0] == (
                            CellRef { column: cc.constants, row: 0 },
                            CellRef { column: cc.lhs, row: 0 },
                        ));
                    } else if j == 1 {
                        assert(g.copies@[1] == (hx, CellRef { column: cc.lhs, row: 3 }));
                    } else if j == 2 {
                        assert(g.copies@[2] == (hy, CellRef { column: cc.rhs, row: 3 }));
                    } else if j == 3 {
                        assert(g.copies@[3] == (hm, CellRef { column: cc.lhs, row: 4 }));
                    } else if j == 4 {
                        assert(g.copies@[4] == (hc, CellRef { column: cc.rhs, row: 4 }));
                    } else {
                        assert(g.copies@[5] == (hs, CellRef { column: cc.public, row: 0 }));
                    }
                }
                lemma_copies_upto_empty(g, g.copies@.len() as int);
                // unwritten public cells contribute nothing; only row 0 of
                // the public column is written
                assert(g.written@[cc.public as int]@[0]);
                assert forall|c: int, r: int|
                    0 <= c < cfgs.columns@.len() && 0 <= r < g.num_rows && !(c == cc.public && r
                        == 0) implies !(cfgs.columns@[c].kind is Public && g.written@[c]@[r]) by {
                    if cfgs.columns@[c].kind is Public {
                        assert(c == cc.public);
                        assert(g.written@[c]@[r] == g5.written@[c]@[r]);
                        if r == 1 {
                            assert(g2.cells@[c]@[1] == CellValue::Unknown);
                            assert(!g2.written@[c]@[1]);
                        } else if r == 2 {
                            assert(g3.cells@[c]@[2] == CellValue::Unknown);
                            assert(!g3.written@[c]@[2]);
                        } else if r == 3 {
                            assert(g4.cells@[c]@[3] == CellValue::Unknown);
                            assert(!g4.written@[c]@[3]);
                        } else {
                            assert(g5.cells@[c]@[4] == CellValue::Unknown);
                            assert(!g5.written@[c]@[4]);
                        }
                        assert(!g5.written@[c]@[r]);
                    }
                }
                lemma_gates_upto_single(cfgs, g, cfgs.gates@.len() as int, -1, -1);
                assert(gate_violations(cfgs, g) =~= Seq::<Violation>::empty());
                assert(copy_violations(g) =~= Seq::<Violation>::empty());
                assert forall|w: Fp| violations_of(s.config, s.grid, seq![w]) =~= (if w.value == v {
                    Seq::<Violation>::empty()
                } else {
                    seq![Violation::PublicInputMismatch { column: cc.public, row: 0 }]
                }) by {
                    let pi = seq![w];
                    assert(pi.len() == 1);
                    assert forall|c2: int, r2: int|
                        0 <= c2 < cfgs.columns@.len() && 0 <= r2 < g.num_rows && !(c2
                            == cc.public && r2 == 0) implies public_cell_violations(
                        cfgs,
                        g,
                        pi,
                        c2,
                        r2,
                    ) =~= Seq::<Violation>::empty() by {}
                    lemma_public_cols_upto_single(
                        cfgs,
                        g,
                        pi,
                        cfgs.columns@.len() as int,
                        cc.public as int,
                        0,
                    );
                    assert(arity_violations(g, pi) =~= Seq::<Violation>::empty());
                    if w.value == v {
                        assert(g.cells@[cc.public as int]@[0] == CellValue::Known(w));
                        assert(public_cell_violations(cfgs, g, pi, cc.public as int, 0) =~= Seq::<
                            Violation,
                        >::empty());
                        assert(violations_of(cfgs, g, pi) =~= Seq::<Violation>::empty());
                    } else {
                        assert(g.cells@[cc.public as int]@[0] != CellValue::Known(w));
                        assert(public_cell_violations(cfgs, g, pi, cc.public as int, 0) =~= seq![
                            Violation::PublicInputMismatch { column: cc.public, row: 0 },
                        ]);
                        assert(violations_of(cfgs, g, pi) =~= seq![
                            Violation::PublicInputMismatch { column: cc.public, row: 0 },
                        ]);
                    }
                }
            }
        }
        Ok(s)
    }
}


/// The circuit computing `n * div * mul * add` by three sequential
/// multiplications, exposing the final product as the first public input.
pub struct ChainedCircuit {
    pub n: Fp,
    pub div: Fp,
    pub mul: Fp,
    pub add: Fp,
}

impl ChainedCircuit {
    /// Synthesizes the circuit. The result cell holds the product of the
    /// four inputs, and verifying against a one-entry public-input vector
    /// succeeds exactly when that entry is the product: any other entry
    /// yields exactly one public-input mismatch.
    pub fn synthesize(self, p: u64) -> (r: Result<Synthesized, SynthesisError>)
        requires
            modulus_wf(p),
            fp_wf(self.n, p),
            fp_wf(self.div, p),
            fp_wf(self.mul, p),
            fp_wf(self.add, p),
        ensures
            r is Ok,
            r matches Ok(s) ==> {
                &&& synthesized_wf(s, p)
                &&& s.grid.public_rows == 1
                &&& result_value(s) == Some(
                    mul_mod(
                        mul_mod(
                            mul_mod(self.n.value as int, self.div.value as int, p as int),
                            self.mul.value as int,
                            p as int,
                        ),
                        self.add.value as int,
                        p as int,
                    ),
                )
                &&& forall|w: Fp|
                    violations_of(s.config, s.grid, seq![w]) =~= (if Some(w.value as int)
                        == result_value(s) {
                        Seq::<Violation>::empty()
                    } else {
                        seq![
                            Violation::PublicInputMismatch { column: s.chip.public, row: 0 },
                        ]
                    })
            },
    {
        let mut cfg = Config::new();
        let chip = configure(&mut cfg);
        let mut grid = Grid::new(&cfg, p);
        let hn = match chip.load_private(&cfg, &mut grid, CellValue::Known(self.n)) {
            Ok(h) => h,
            Err(e) => {
                return Err(e);
            },
        };
        let ghost g1 = grid;
        let hd = match chip.load_private(&cfg, &mut grid, CellValue::Known(self.div)) {
            Ok(h) => h,
            Err(e) => {
                return Err(e);
            },
        };
        let ghost g2 = grid;
        let hm = match chip.load_private(&cfg, &mut grid, CellValue::Known(self.mul)) {
            Ok(h) => h,
            Err(e) => {
                return Err(e);
            },
        };
        let ghost g3 = grid;
        let ha = match chip.load_private(&cfg, &mut grid, CellValue::Known(self.add)) {
            Ok(h) => h,
            Err(e) => {
                return Err(e);
            },
        };
        let ghost g4 = grid;
        let h1 = match chip.multiply(&cfg, &mut grid, hn, hd) {
            Ok(h) => h,
            Err(e) => {
                return Err(e);
            },
        };
        let ghost g5 = grid;
        let h2 = match chip.multiply(&cfg, &mut grid, h1, hm) {
            Ok(h) => h,
            Err(e) => {
                return Err(e);
            },
        };
        let ghost g6 = grid;
        let h3 = match chip.multiply(&cfg, &mut grid, h2, ha) {
            Ok(h) => h,
            Err(e) => {
                return Err(e);
            },
        };
        let ghost g7 = grid;
        match chip.expose_public(&cfg, &mut grid, h3, 0) {
            Ok(()) => (),
            Err(e) => {
                return Err(e);
            },
        }
        let s = Synthesized { config: cfg, chip, grid, result: h3 };
        proof {
            let cfgs = s.config;
            let g = s.grid;
            let cc = s.chip;
            let cv = cells_view(g);
            let nv = self.n.value as int;
            let dv = self.div.value as int;
            let mv = self.mul.value as int;
            let av = self.add.value as int;
            let v1 = mul_mod(nv, dv, p as int);
            let v2 = mul_mod(v1, mv, p as int);
            let v3 = mul_mod(v2, av, p as int);
            assert(g.num_rows == 7);
            assert(cv[cc.lhs as int] == g.cells@[cc.lhs as int]@);
            assert(cv[cc.rhs as int] == g.cells@[cc.rhs as int]@);
            assert(cv[cc.out as int] == g.cells@[cc.out as int]@);
            assert(cv[cc.constants as int] == g.cells@[cc.constants as int]@);
            assert(cv[cc.public as int] == g.cells@[cc.public as int]@);
            assert(g.cells@[cc.lhs as int] == g7.cells@[cc.lhs as int]);
            assert(g.cells@[cc.rhs as int] == g7.cells@[cc.rhs as int]);
            assert(g.cells@[cc.out as int] == g7.cells@[cc.out as int]);
            assert(g.cells@[cc.constants as int] == g7.cells@[cc.constants as int]);
            assert(g.cells@[cc.public as int]@[0] == g7.cells@[cc.out as int]@[6]);
            assert(g.cells@[cc.lhs as int]@[0] == CellValue::Known(self.n));
            assert(g.cells@[cc.lhs as int]@[1] == CellValue::Known(self.div));
            assert(g.cells@[cc.lhs as int]@[2] == CellValue::Known(self.mul));
            assert(g.cells@[cc.lhs as int]@[3] == CellValue::Known(self.add));
            assert(g.cells@[cc.lhs as int]@[4] == CellValue::Known(self.n));
            assert(g.cells@[cc.rhs as int]@[4] == CellValue::Known(self.div));
            assert(cell_as_int(g.cells@[cc.out as int]@[4]) == Some(v1));
            assert(g.cells@[cc.lhs as int]@[5] == g5.cells@[cc.out as int]@[4]);
            assert(g.cells@[cc.rhs as int]@[5] == CellValue::Known(self.mul));
            assert(cell_as_int(g.cells@[cc.out as int]@[5]) == Some(v2));
            assert(g.cells@[cc.lhs as int]@[6] == g6.cells@[cc.out as int]@[5]);
            assert(g.cells@[cc.rhs as int]@[6] == CellValue::Known(self.add));
            assert(cell_as_int(g.cells@[cc.out as int]@[6]) == Some(v3));
            assert(cell_as_int(g.cells@[cc.public as int]@[0]) == Some(v3));
            assert forall|gg: int, r: int|
                0 <= gg < cfgs.gates@.len() && 0 <= r < g.num_rows implies gate_row_violations(
                cfgs,
                g,
                gg,
                r,
            ) =~= Seq::<Violation>::empty() by {
                if gg == 0 && (r == 4 || r == 5 || r == 6) {
                    assert(selector_on(g, cfgs.gates@[0].selector as int, r));
                    assert(crate::expr::eval_expr(cfgs.gates@[0].poly, cv, r, p as int)
                        == mul_constraint(cc, cv, r, p as int));
                    if r == 4 {
                        crate::field::lemma_add_neg_zero(v1, p as int);
                    } else if r == 5 {
                        crate::field::lemma_add_neg_zero(v2, p as int);
                    } else {
                        crate::field::lemma_add_neg_zero(v3, p as int);
                    }
                    assert(mul_constraint(cc, cv, r, p as int) == Some(0int));
                } else {
                    assert(!selector_on(g, cfgs.gates@[gg].selector as int, r));
                }
            }
            assert forall|j: int| 0 <= j < g.copies@.len() implies copy_pair_violations(
                g,
                g.copies@[j],
            ) =~= Seq::<Violation>::empty() by {
                assert(g.copies@.len() == 7);
                if j == 0 {
                    assert(g.copies@[0] == (hn, CellRef { column: cc.lhs, row: 4 }));
                } else if j == 1 {
                    assert(g.copies@[1] == (hd, CellRef { column: cc.rhs, row: 4 }));
                } else if j == 2 {
                    assert(g.copies@[2] == (h1, CellRef { column: cc.lhs, row: 5 }));
                } else if j == 3 {
                    assert(g.copies@[3] == (hm, CellRef { column: cc.rhs, row: 5 }));
                } else if j == 4 {
                    assert(g.copies@[4] == (h2, CellRef { column: cc.lhs, row: 6 }));
                } else if j == 5 {
                    assert(g.copies@[5] == (ha, CellRef { column: cc.rhs, row: 6 }));
                } else {
                    assert(g.copies@[6] == (h3, CellRef { column: cc.public, row: 0 }));
                }
            }
            lemma_copies_upto_empty(g, g.copies@.len() as int);
            assert(g.written@[cc.public as int]@[0]);
            assert forall|c: int, r: int|
                0 <= c < cfgs.columns@.len() && 0 <= r < g.num_rows && !(c == cc.public && r == 0)
                    implies !(cfgs.columns@[c].kind is Public && g.written@[c]@[r]) by {
                if cfgs.columns@[c].kind is Public {
                    assert(c == cc.public);
                    assert(g.written@[c]@[r] == g7.written@[c]@[r]);
                    if r == 1 {
                        assert(g2.cells@[c]@[1] == CellValue::Unknown);
                        assert(!g2.written@[c]@[1]);
                    } else if r == 2 {
                        assert(g3.cells@[c]@[2] == CellValue::Unknown);
                        assert(!g3.written@[c]@[2]);
                    } else if r == 3 {
                        assert(g4.cells@[c]@[3] == CellValue::Unknown);
                        assert(!g4.written@[c]@[3]);
                    } else if r == 4 {
                        assert(g5.cells@[c]@[4] == CellValue::Unknown);
                        assert(!g5.written@[c]@[4]);
                    } else if r == 5 {
                        assert(g6.cells@[c]@[5] == CellValue::Unknown);
                        assert(!g6.written@[c]@[5]);
                    } else {
                        assert(g7.cells@[c]@[6] == CellValue::Unknown);
                        assert(!g7.written@[c]@[6]);
                    }
                    assert(!g7.written@[c]@[r]);
                }
            }
            lemma_gates_upto_single(cfgs, g, cfgs.gates@.len() as int, -1, -1);
            assert(gate_violations(cfgs, g) =~= Seq::<Violation>::empty());
            assert(copy_violations(g) =~= Seq::<Violation>::empty());
            assert forall|w: Fp| violations_of(s.config, s.grid, seq![w]) =~= (if Some(
                w.value as int,
            ) == result_value(s) {
                Seq::<Violation>::empty()
            } else {
                seq![Violation::PublicInputMismatch { column: cc.public, row: 0 }]
            }) by {
                let pi = seq![w];
                assert(pi.len() == 1);
                assert forall|c2: int, r2: int|
                    0 <= c2 < cfgs.columns@.len() && 0 <= r2 < g.num_rows && !(c2 == cc.public
                        && r2 == 0) implies public_cell_violations(cfgs, g, pi, c2, r2) =~= Seq::<
                    Violation,
                >::empty() by {}
                lemma_public_cols_upto_single(
                    cfgs,
                    g,
                    pi,
                    cfgs.columns@.len() as int,
                    cc.public as int,
                    0,
                );
                assert(arity_violations(g, pi) =~= Seq::<Violation>::empty());
                if Some(w.value as int) == result_value(s) {
                    assert(g.cells@[cc.public as int]@[0] == CellValue::Known(w));
                    assert(public_cell_violations(cfgs, g, pi, cc.public as int, 0) =~= Seq::<
                        Violation,
                    >::empty());
                    assert(violations_of(cfgs, g, pi) =~= Seq::<Violation>::empty());
                } else {
                    assert(g.cells@[cc.public as int]@[0] != CellValue::Known(w));
                    assert(public_cell_violations(cfgs, g, pi, cc.public as int, 0) =~= seq![
                        Violation::PublicInputMismatch { column: cc.public, row: 0 },
                    ]);
                    assert(violations_of(cfgs, g, pi) =~= seq![
                        Violation::PublicInputMismatch { column: cc.public, row: 0 },
                    ]);
                }
            }
        }
        Ok(s)
    }
}

} // verus!

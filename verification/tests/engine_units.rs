use arithmetic_circuit::cells::{CellRef, CellValue};
use arithmetic_circuit::chip::configure;
use arithmetic_circuit::config::{ColumnKind, Config, ConfigError};
use arithmetic_circuit::expr::Expr;
use arithmetic_circuit::field::Fp;
use arithmetic_circuit::grid::{Grid, SynthesisError};
use arithmetic_circuit::mock::{verify, Violation};

const P: u64 = 101;

fn fp(value: u64) -> Fp {
    Fp { value }
}

#[test]
fn field_operations_reduce_modulo_p() {
    assert_eq!(fp(60).add(fp(50), P).value, 9);
    assert_eq!(fp(20).mul(fp(6), P).value, 19);
    assert_eq!(fp(1).neg(P).value, 100);
    assert_eq!(fp(0).neg(P).value, 0);
    assert_eq!(Fp::new(240, P).value, 38);
    assert_eq!(Fp::zero().value, 0);
    assert_eq!(Fp::one().value, 1);
}

#[test]
fn configuration_is_idempotent() {
    let mut cfg1 = Config::new();
    let chip1 = configure(&mut cfg1);
    let mut cfg2 = Config::new();
    let chip2 = configure(&mut cfg2);
    assert_eq!(chip1, chip2);
    assert_eq!(cfg1.columns, cfg2.columns);
    assert_eq!(cfg1.num_selectors, cfg2.num_selectors);
    assert_eq!(cfg1.gates.len(), cfg2.gates.len());
    for (a, b) in cfg1.gates.iter().zip(cfg2.gates.iter()) {
        assert_eq!(a.selector, b.selector);
        assert_eq!(a.name, b.name);
    }
}

#[test]
fn equality_on_missing_column_is_rejected() {
    let mut cfg = Config::new();
    let c = cfg.add_column(ColumnKind::Witness);
    assert!(cfg.enable_equality(c).is_ok());
    assert_eq!(cfg.enable_equality(c + 1), Err(ConfigError::ColumnOutOfRange));
}

#[test]
fn gate_with_undeclared_selector_is_rejected() {
    let mut cfg = Config::new();
    let c = cfg.add_column(ColumnKind::Witness);
    let poly = Expr::Cell { column: c, rotation: 0 };
    assert_eq!(cfg.add_gate(0, poly, None), Err(ConfigError::SelectorOutOfRange));
}

#[test]
fn gate_naming_missing_column_is_rejected() {
    let mut cfg = Config::new();
    let s = cfg.add_selector();
    let poly = Expr::Cell { column: 3, rotation: 0 };
    assert_eq!(cfg.add_gate(s, poly, None), Err(ConfigError::GateColumnOutOfRange));
}

#[test]
fn second_write_to_a_cell_is_a_conflict() {
    let mut cfg = Config::new();
    let chip = configure(&mut cfg);
    let mut grid = Grid::new(&cfg, P);
    grid.alloc_region(&cfg, 1, None);
    let cell = CellRef { column: chip.lhs, row: 0 };
    assert!(grid.assign(cell, CellValue::Known(fp(4))).is_ok());
    assert_eq!(
        grid.assign(cell, CellValue::Known(fp(4))),
        Err(SynthesisError::AssignmentConflict)
    );
}

#[test]
fn writes_outside_the_grid_are_rejected() {
    let mut cfg = Config::new();
    let chip = configure(&mut cfg);
    let mut grid = Grid::new(&cfg, P);
    let cell = CellRef { column: chip.lhs, row: 0 };
    assert_eq!(grid.assign(cell, CellValue::Known(fp(4))), Err(SynthesisError::OutOfRange));
    grid.alloc_region(&cfg, 1, None);
    let far = CellRef { column: 99, row: 0 };
    assert_eq!(grid.assign(far, CellValue::Unknown), Err(SynthesisError::OutOfRange));
}

#[test]
fn copy_needs_equality_support_on_both_columns() {
    let mut cfg = Config::new();
    let plain = cfg.add_column(ColumnKind::Witness);
    let linked = cfg.add_column(ColumnKind::Witness);
    cfg.enable_equality(linked).unwrap();
    let mut grid = Grid::new(&cfg, P);
    grid.alloc_region(&cfg, 1, None);
    let a = CellRef { column: plain, row: 0 };
    let b = CellRef { column: linked, row: 0 };
    assert_eq!(grid.record_copy(&cfg, a, b), Err(SynthesisError::MissingCopySupport));
    assert!(grid.record_copy(&cfg, b, b).is_ok());
}

#[test]
fn copy_of_unequal_values_is_reported() {
    let mut cfg = Config::new();
    let chip = configure(&mut cfg);
    let mut grid = Grid::new(&cfg, P);
    grid.alloc_region(&cfg, 2, None);
    let a = CellRef { column: chip.lhs, row: 0 };
    let b = CellRef { column: chip.lhs, row: 1 };
    grid.assign(a, CellValue::Known(fp(1))).unwrap();
    grid.assign(b, CellValue::Known(fp(2))).unwrap();
    grid.record_copy(&cfg, a, b).unwrap();
    let vs = verify(&cfg, &grid, &Vec::new()).unwrap_err();
    assert_eq!(vs.len(), 1);
    assert!(matches!(vs[0], Violation::CopyMismatch { .. }));
}

#[test]
fn copy_of_two_unknown_cells_is_still_reported() {
    let mut cfg = Config::new();
    let chip = configure(&mut cfg);
    let mut grid = Grid::new(&cfg, P);
    grid.alloc_region(&cfg, 2, None);
    let a = CellRef { column: chip.lhs, row: 0 };
    let b = CellRef { column: chip.lhs, row: 1 };
    grid.record_copy(&cfg, a, b).unwrap();
    let vs = verify(&cfg, &grid, &Vec::new()).unwrap_err();
    assert_eq!(vs.len(), 1);
    assert!(matches!(vs[0], Violation::CopyMismatch { .. }));
}

#[test]
fn disabled_gate_ignores_adversarial_cells() {
    let mut cfg = Config::new();
    let chip = configure(&mut cfg);
    let mut grid = Grid::new(&cfg, P);
    grid.alloc_region(&cfg, 1, None);
    // 5 * 5 - 1 is far from zero, so the multiply gate would object if on
    grid.assign(CellRef { column: chip.lhs, row: 0 }, CellValue::Known(fp(5))).unwrap();
    grid.assign(CellRef { column: chip.rhs, row: 0 }, CellValue::Known(fp(5))).unwrap();
    grid.assign(CellRef { column: chip.out, row: 0 }, CellValue::Known(fp(1))).unwrap();
    assert!(verify(&cfg, &grid, &Vec::new()).is_ok());
}

#[test]
fn enabled_gate_objects_to_the_same_cells() {
    let mut cfg = Config::new();
    let chip = configure(&mut cfg);
    let mut grid = Grid::new(&cfg, P);
    grid.alloc_region(&cfg, 1, None);
    grid.assign(CellRef { column: chip.lhs, row: 0 }, CellValue::Known(fp(5))).unwrap();
    grid.assign(CellRef { column: chip.rhs, row: 0 }, CellValue::Known(fp(5))).unwrap();
    grid.assign(CellRef { column: chip.out, row: 0 }, CellValue::Known(fp(1))).unwrap();
    grid.enable_selector(chip.mul_selector, 0).unwrap();
    let vs = verify(&cfg, &grid, &Vec::new()).unwrap_err();
    assert_eq!(vs.len(), 1);
    assert!(matches!(vs[0], Violation::GateNotSatisfied { .. }));
}

#[test]
fn satisfied_enabled_gate_passes() {
    let mut cfg = Config::new();
    let chip = configure(&mut cfg);
    let mut grid = Grid::new(&cfg, P);
    grid.alloc_region(&cfg, 1, None);
    grid.assign(CellRef { column: chip.lhs, row: 0 }, CellValue::Known(fp(5))).unwrap();
    grid.assign(CellRef { column: chip.rhs, row: 0 }, CellValue::Known(fp(5))).unwrap();
    grid.assign(CellRef { column: chip.out, row: 0 }, CellValue::Known(fp(25))).unwrap();
    grid.enable_selector(chip.mul_selector, 0).unwrap();
    assert!(verify(&cfg, &grid, &Vec::new()).is_ok());
}

#[test]
fn exposing_the_same_public_row_twice_conflicts() {
    let mut cfg = Config::new();
    let chip = configure(&mut cfg);
    let mut grid = Grid::new(&cfg, P);
    let h = chip.load_private(&cfg, &mut grid, CellValue::Known(fp(8))).unwrap();
    assert!(chip.expose_public(&cfg, &mut grid, h, 0).is_ok());
    assert_eq!(
        chip.expose_public(&cfg, &mut grid, h, 0),
        Err(SynthesisError::AssignmentConflict)
    );
}

#[test]
fn regions_record_rows_and_labels() {
    let mut cfg = Config::new();
    let chip = configure(&mut cfg);
    let mut grid = Grid::new(&cfg, P);
    chip.load_private(&cfg, &mut grid, CellValue::Known(fp(8))).unwrap();
    let h = chip.load_private(&cfg, &mut grid, CellValue::Known(fp(9))).unwrap();
    assert_eq!(h, CellRef { column: chip.lhs, row: 1 });
    assert_eq!(grid.regions.len(), 2);
    assert_eq!(grid.regions[0].start, 0);
    assert_eq!(grid.regions[1].start, 1);
    assert_eq!(grid.regions[1].rows, 1);
    assert_eq!(grid.regions[1].label, Some("load private"));
}

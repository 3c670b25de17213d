use arithmetic_circuit::cells::CellValue;
use arithmetic_circuit::circuits::{ArithmeticCircuit, ChainedCircuit, ProductCircuit, SumCircuit};
use arithmetic_circuit::field::Fp;
use arithmetic_circuit::mock::{verify, Violation};

const P: u64 = 101;

fn fp(value: u64) -> Fp {
    Fp { value }
}

fn unassigned_findings(vs: &[Violation]) -> usize {
    vs.iter().filter(|v| matches!(v, Violation::UnassignedWitness { .. })).count()
}

#[test]
fn product_of_known_witnesses_verifies() {
    let s = ProductCircuit { a: CellValue::Known(fp(6)), b: CellValue::Known(fp(7)) }
        .synthesize(P)
        .unwrap();
    let out = s.grid.cells[s.result.column][s.result.row];
    assert_eq!(out, CellValue::Known(fp(42)));
    assert!(verify(&s.config, &s.grid, &Vec::new()).is_ok());
}

#[test]
fn product_wraps_modulo_p() {
    let s = ProductCircuit { a: CellValue::Known(fp(20)), b: CellValue::Known(fp(6)) }
        .synthesize(P)
        .unwrap();
    let out = s.grid.cells[s.result.column][s.result.row];
    // 20 * 6 = 120 = 19 mod 101
    assert_eq!(out, CellValue::Known(fp(19)));
    assert!(verify(&s.config, &s.grid, &Vec::new()).is_ok());
}

#[test]
fn sum_of_known_witnesses_verifies() {
    let s = SumCircuit { a: CellValue::Known(fp(60)), b: CellValue::Known(fp(50)) }
        .synthesize(P)
        .unwrap();
    let out = s.grid.cells[s.result.column][s.result.row];
    // 60 + 50 = 110 = 9 mod 101
    assert_eq!(out, CellValue::Known(fp(9)));
    assert!(verify(&s.config, &s.grid, &Vec::new()).is_ok());
}

#[test]
fn unknown_multiply_input_propagates_and_is_reported() {
    let s = ProductCircuit { a: CellValue::Unknown, b: CellValue::Known(fp(7)) }
        .synthesize(P)
        .unwrap();
    let out = s.grid.cells[s.result.column][s.result.row];
    assert_eq!(out, CellValue::Unknown);
    let vs = verify(&s.config, &s.grid, &Vec::new()).unwrap_err();
    assert_eq!(unassigned_findings(&vs), 1);
}

#[test]
fn unknown_add_input_propagates_and_is_reported() {
    let s = SumCircuit { a: CellValue::Known(fp(3)), b: CellValue::Unknown }
        .synthesize(P)
        .unwrap();
    let out = s.grid.cells[s.result.column][s.result.row];
    assert_eq!(out, CellValue::Unknown);
    let vs = verify(&s.config, &s.grid, &Vec::new()).unwrap_err();
    assert_eq!(unassigned_findings(&vs), 1);
}

#[test]
fn arithmetic_circuit_accepts_correct_public_input() {
    // constant = 7, x = 6, y = 9: x * y + constant = 61 mod 101
    let s = ArithmeticCircuit {
        x: CellValue::Known(fp(6)),
        y: CellValue::Known(fp(9)),
        constant: fp(7),
    }
    .synthesize(P)
    .unwrap();
    let out = s.grid.cells[s.result.column][s.result.row];
    assert_eq!(out, CellValue::Known(fp(61)));
    assert!(verify(&s.config, &s.grid, &vec![fp(61)]).is_ok());
}

#[test]
fn arithmetic_circuit_rejects_wrong_public_input_with_one_finding() {
    let s = ArithmeticCircuit {
        x: CellValue::Known(fp(6)),
        y: CellValue::Known(fp(9)),
        constant: fp(7),
    }
    .synthesize(P)
    .unwrap();
    let vs = verify(&s.config, &s.grid, &vec![fp(60)]).unwrap_err();
    assert_eq!(vs.len(), 1);
    assert!(matches!(vs[0], Violation::PublicInputMismatch { .. }));
}

#[test]
fn arithmetic_circuit_rejects_every_other_public_input() {
    let s = ArithmeticCircuit {
        x: CellValue::Known(fp(6)),
        y: CellValue::Known(fp(9)),
        constant: fp(7),
    }
    .synthesize(P)
    .unwrap();
    for w in 0..P {
        let r = verify(&s.config, &s.grid, &vec![fp(w)]);
        if w == 61 {
            assert!(r.is_ok());
        } else {
            assert!(r.is_err());
        }
    }
}

#[test]
fn arithmetic_circuit_arity_mismatch_is_reported() {
    let s = ArithmeticCircuit {
        x: CellValue::Known(fp(6)),
        y: CellValue::Known(fp(9)),
        constant: fp(7),
    }
    .synthesize(P)
    .unwrap();
    let vs = verify(&s.config, &s.grid, &Vec::new()).unwrap_err();
    assert!(vs.iter().any(|v| matches!(v, Violation::InputArityMismatch { .. })));
    let vs2 = verify(&s.config, &s.grid, &vec![fp(61), fp(61)]).unwrap_err();
    assert!(vs2.iter().any(|v| matches!(v, Violation::InputArityMismatch { .. })));
}

#[test]
fn chained_circuit_accepts_product_of_factors() {
    // 5 * 2 * 3 * 1 = 30
    let s = ChainedCircuit { n: fp(5), div: fp(2), mul: fp(3), add: fp(1) }
        .synthesize(P)
        .unwrap();
    let out = s.grid.cells[s.result.column][s.result.row];
    assert_eq!(out, CellValue::Known(fp(30)));
    assert!(verify(&s.config, &s.grid, &vec![fp(30)]).is_ok());
    assert!(verify(&s.config, &s.grid, &vec![fp(29)]).is_err());
}

#[test]
fn reverification_of_unmodified_grid_is_stable() {
    let s = ArithmeticCircuit {
        x: CellValue::Known(fp(6)),
        y: CellValue::Known(fp(9)),
        constant: fp(7),
    }
    .synthesize(P)
    .unwrap();
    let first = verify(&s.config, &s.grid, &vec![fp(61)]);
    let second = verify(&s.config, &s.grid, &vec![fp(61)]);
    assert!(first.is_ok());
    assert_eq!(first, second);
    let bad_first = verify(&s.config, &s.grid, &vec![fp(60)]);
    let bad_second = verify(&s.config, &s.grid, &vec![fp(60)]);
    assert_eq!(bad_first, bad_second);
}

#[test]
fn different_assignment_fails_against_old_public_input() {
    // the original assignment keeps verifying; a run with a different
    // witness behind the exposed handle must fail against the old input
    let original = ArithmeticCircuit {
        x: CellValue::Known(fp(6)),
        y: CellValue::Known(fp(9)),
        constant: fp(7),
    }
    .synthesize(P)
    .unwrap();
    assert!(verify(&original.config, &original.grid, &vec![fp(61)]).is_ok());
    let mutated = ArithmeticCircuit {
        x: CellValue::Known(fp(7)),
        y: CellValue::Known(fp(9)),
        constant: fp(7),
    }
    .synthesize(P)
    .unwrap();
    let vs = verify(&mutated.config, &mutated.grid, &vec![fp(61)]).unwrap_err();
    assert!(!vs.is_empty());
    assert!(verify(&original.config, &original.grid, &vec![fp(61)]).is_ok());
}

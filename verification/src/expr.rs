//! Polynomial expressions over grid cells: the language in which gates state
//! their constraints.

use crate::cells::{cell_as_int, CellValue};
use crate::field::{add_mod, mul_mod, neg_mod};
use vstd::prelude::*;

verus! {

/// A polynomial expression over the cells of a grid.
///
/// A `Cell` term names a column and a row offset (rotation) from the row at
/// which the expression is evaluated; the other variants combine terms with
/// field addition, multiplication and negation.
pub enum Expr {
    Cell { column: usize, rotation: usize },
    Sum(Box<Expr>, Box<Expr>),
    Product(Box<Expr>, Box<Expr>),
    Negated(Box<Expr>),
}

/// Every column an expression mentions lies below `num_columns`.
pub open spec fn expr_wf(e: Expr, num_columns: int) -> bool
    decreases e,
{
    match e {
        Expr::Cell { column, rotation } => column < num_columns,
        Expr::Sum(l, r) => expr_wf(*l, num_columns) && expr_wf(*r, num_columns),
        Expr::Product(l, r) => expr_wf(*l, num_columns) && expr_wf(*r, num_columns),
        Expr::Negated(inner) => expr_wf(*inner, num_columns),
    }
}

/// The value of the cell at `(column, row)`, with any out-of-range address
/// reading as `Unknown`.
pub open spec fn cell_at(cells: Seq<Seq<CellValue>>, column: int, row: int) -> CellValue {
    if 0 <= column < cells.len() && 0 <= row < cells[column].len() {
        cells[column][row]
    } else {
        CellValue::Unknown
    }
}

/// The value of an expression at `row`, as a residue modulo `p`.
///
/// The result is `None` exactly when some cell the expression reads is
/// unknown or out of range: such an expression cannot be checked.
pub open spec fn eval_expr(e: Expr, cells: Seq<Seq<CellValue>>, row: int, p: int) -> Option<int>
    decreases e,
{
    match e {
        Expr::Cell { column, rotation } => cell_as_int(
            cell_at(cells, column as int, row + rotation),
        ),
        Expr::Sum(l, r) => match (eval_expr(*l, cells, row, p), eval_expr(*r, cells, row, p)) {
            (Some(a), Some(b)) => Some(add_mod(a, b, p)),
            _ => None,
        },
        Expr::Product(l, r) => match (eval_expr(*l, cells, row, p), eval_expr(*r, cells, row, p)) {
            (Some(a), Some(b)) => Some(mul_mod(a, b, p)),
            _ => None,
        },
        Expr::Negated(inner) => match eval_expr(*inner, cells, row, p) {
            Some(a) => Some(neg_mod(a, p)),
            None => None,
        },
    }
}

/// An expression well formed for `n` columns stays well formed when more
/// columns are declared.
pub proof fn lemma_expr_wf_widen(e: Expr, n: int, m: int)
    requires
        expr_wf(e, n),
        n <= m,
    ensures
        expr_wf(e, m),
    decreases e,
{
    match e {
        Expr::Cell { .. } => {},
        Expr::Sum(l, r) => {
            lemma_expr_wf_widen(*l, n, m);
            lemma_expr_wf_widen(*r, n, m);
        },
        Expr::Product(l, r) => {
            lemma_expr_wf_widen(*l, n, m);
            lemma_expr_wf_widen(*r, n, m);
        },
        Expr::Negated(inner) => {
            lemma_expr_wf_widen(*inner, n, m);
        },
    }
}

/// Reports whether every column the expression mentions exists in a grid of
/// `num_columns` columns.
pub fn expr_columns_ok(e: &Expr, num_columns: usize) -> (r: bool)
    ensures
        r == expr_wf(*e, num_columns as int),
    decreases *e,
{
    match e {
        Expr::Cell { column, rotation: _ } => *column < num_columns,
        Expr::Sum(l, r) => expr_columns_ok(l, num_columns) && expr_columns_ok(r, num_columns),
        Expr::Product(l, r) => expr_columns_ok(l, num_columns) && expr_columns_ok(r, num_columns),
        Expr::Negated(inner) => expr_columns_ok(inner, num_columns),
    }
}

} // verus!

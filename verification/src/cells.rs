//! The cell and region model: the addressable grid positions, the values a
//! cell can hold, and the scoped row groups allocated by chip operations.

use crate::field::{fp_wf, Fp};
use vstd::prelude::*;

verus! {

/// The value held by one cell of the grid.
///
/// A cell is `Unknown` until synthesis supplies a value; a witness may also
/// deliberately stay `Unknown` when only the circuit's shape is of interest.
#[derive(Clone, Copy, Debug, PartialEq, Eq, Structural)]
pub enum CellValue {
    Unknown,
    Known(Fp),
}

/// Well-formedness of a cell value for modulus `p`: a known value is a
/// residue below the modulus.
pub open spec fn cell_wf(v: CellValue, p: u64) -> bool {
    v matches CellValue::Known(f) ==> fp_wf(f, p)
}

/// The residue a cell holds, if any, as a mathematical integer.
pub open spec fn cell_as_int(v: CellValue) -> Option<int> {
    match v {
        CellValue::Unknown => None,
        CellValue::Known(f) => Some(f.value as int),
    }
}

/// The address of one cell: a column index and a row index.
///
/// Handles returned by chip operations are cell references; they are only
/// meaningful within the grid that produced them.
#[derive(Clone, Copy, Debug, PartialEq, Eq, Structural)]
pub struct CellRef {
    pub column: usize,
    pub row: usize,
}

/// A contiguous group of rows allocated for one chip operation.
///
/// The label is a diagnostic annotation only: it never takes part in
/// constraint evaluation or in the identity of any cell.
#[derive(Clone, Copy, Debug)]
pub struct Region {
    pub start: usize,
    pub rows: usize,
    pub label: Option<&'static str>,
}

} // verus!

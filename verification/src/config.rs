//! Circuit configuration: the fixed shape of the grid.
//!
//! Configuration is pure metadata. It declares which columns exist and of
//! which kind, which columns take part in copy constraints or hold baked-in
//! constants, how many gate-enable flags (selectors) exist, and which gates
//! relate the cells. It assigns no values; building the same configuration
//! twice yields the same identifiers and the same expressions.

use crate::expr::{expr_columns_ok, expr_wf, Expr};
use vstd::prelude::*;

verus! {

/// The three kinds of column a circuit can declare.
#[derive(Clone, Copy, Debug, PartialEq, Eq, Structural)]
pub enum ColumnKind {
    /// Private, per-row, freely assignable values.
    Witness,
    /// Fixed values baked into the circuit, reusable via copy constraints.
    Constant,
    /// Values checked against the externally supplied public inputs.
    Public,
}

/// One declared column: its kind and whether it may take part in copy
/// (equality) constraints.
#[derive(Clone, Copy, Debug, PartialEq, Eq, Structural)]
pub struct ColumnInfo {
    pub kind: ColumnKind,
    pub equality: bool,
}

/// A gate: a polynomial constraint guarded by a gate-enable flag.
///
/// At every row where selector `selector` is on, `poly` must evaluate to the
/// additive identity. The name is diagnostic only.
pub struct Gate {
    pub selector: usize,
    pub poly: Expr,
    pub name: Option<&'static str>,
}

/// The declared shape of a circuit: columns, selectors and gates.
pub struct Config {
    pub columns: Vec<ColumnInfo>,
    pub num_selectors: usize,
    pub gates: Vec<Gate>,
}

/// Errors surfaced while building a configuration; all are fatal.
#[derive(Clone, Copy, Debug, PartialEq, Eq, Structural)]
pub enum ConfigError {
    /// A column index does not name a declared column.
    ColumnOutOfRange,
    /// A gate names a selector that was never declared.
    SelectorOutOfRange,
    /// A gate's polynomial mentions a column that does not exist.
    GateColumnOutOfRange,
}

/// Well-formedness of a configuration: every gate names a declared selector
/// and mentions only declared columns.
pub open spec fn config_wf(cfg: Config) -> bool {
    forall|g: int|
        0 <= g < cfg.gates@.len() ==> (#[trigger] cfg.gates@[g]).selector < cfg.num_selectors
            && expr_wf(cfg.gates@[g].poly, cfg.columns@.len() as int)
}

impl Config {
    /// An empty configuration: no columns, no selectors, no gates.
    pub fn new() -> (r: Config)
        ensures
            r.columns@.len() == 0,
            r.num_selectors == 0,
            r.gates@.len() == 0,
            config_wf(r),
    {
        Config { columns: Vec::new(), num_selectors: 0, gates: Vec::new() }
    }

    /// Declares a new column of the given kind and returns its index.
    /// Columns start without copy support.
    pub fn add_column(&mut self, kind: ColumnKind) -> (idx: usize)
        requires
            config_wf(*old(self)),
        ensures
            config_wf(*final(self)),
            idx == old(self).columns@.len(),
            final(self).columns@ == old(self).columns@.push(
                ColumnInfo { kind, equality: false },
            ),
            final(self).num_selectors == old(self).num_selectors,
            final(self).gates@ == old(self).gates@,
    {
        let idx = self.columns.len();
        self.columns.push(ColumnInfo { kind, equality: false });
        proof {
            assert forall|g: int| 0 <= g < self.gates@.len() implies (
            #[trigger] self.gates@[g]).selector < self.num_selectors && expr_wf(
                self.gates@[g].poly,
                self.columns@.len() as int,
            ) by {
                crate::expr::lemma_expr_wf_widen(
                    self.gates@[g].poly,
                    old(self).columns@.len() as int,
                    self.columns@.len() as int,
                );
            }
        }
        idx
    }

    /// Allows the given column to take part in copy constraints.
    pub fn enable_equality(&mut self, column: usize) -> (r: Result<(), ConfigError>)
        requires
            config_wf(*old(self)),
        ensures
            config_wf(*final(self)),
            r is Ok <==> column < old(self).columns@.len(),
            r is Ok ==> final(self).columns@ == old(self).columns@.update(
                column as int,
                ColumnInfo { kind: old(self).columns@[column as int].kind, equality: true },
            ),
            r is Err ==> *final(self) == *old(self) && r == Result::<(), ConfigError>::Err(
                ConfigError::ColumnOutOfRange,
            ),
            final(self).num_selectors == old(self).num_selectors,
            final(self).gates@ == old(self).gates@,
    {
        if column < self.columns.len() {
            let kind = self.columns[column].kind;
            self.columns[column] = ColumnInfo { kind, equality: true };
            Ok(())
        } else {
            Err(ConfigError::ColumnOutOfRange)
        }
    }

    /// Declares a new gate-enable flag (selector) and returns its index.
    pub fn add_selector(&mut self) -> (idx: usize)
        requires
            config_wf(*old(self)),
            old(self).num_selectors < usize::MAX,
        ensures
            config_wf(*final(self)),
            idx == old(self).num_selectors,
            final(self).num_selectors == old(self).num_selectors + 1,
            final(self).columns@ == old(self).columns@,
            final(self).gates@ == old(self).gates@,
    {
        let idx = self.num_selectors;
        self.num_selectors = self.num_selectors + 1;
        idx
    }

    /// Registers a gate: at every row where `selector` is on, `poly` must
    /// evaluate to zero. Returns its index, or an error when an undeclared
    /// selector or column is named.
    pub fn add_gate(&mut self, selector: usize, poly: Expr, name: Option<&'static str>) -> (r:
        Result<usize, ConfigError>)
        requires
            config_wf(*old(self)),
        ensures
            config_wf(*final(self)),
            r is Ok <==> (selector < old(self).num_selectors && expr_wf(
                poly,
                old(self).columns@.len() as int,
            )),
            r matches Ok(idx) ==> idx == old(self).gates@.len() && final(self).gates@ == old(
                self,
            ).gates@.push(Gate { selector, poly, name }),
            r is Err ==> *final(self) == *old(self),
            r matches Err(e) ==> e == (if selector >= old(self).num_selectors {
                ConfigError::SelectorOutOfRange
            } else {
                ConfigError::GateColumnOutOfRange
            }),
            final(self).columns@ == old(self).columns@,
            final(self).num_selectors == old(self).num_selectors,
    {
        if selector >= self.num_selectors {
            return Err(ConfigError::SelectorOutOfRange);
        }
        if !expr_columns_ok(&poly, self.columns.len()) {
            return Err(ConfigError::GateColumnOutOfRange);
        }
        let idx = self.gates.len();
        self.gates.push(Gate { selector, poly, name });
        Ok(idx)
    }
}

} // verus!

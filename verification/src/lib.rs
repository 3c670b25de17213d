//! A small engine for building and checking arithmetic constraint circuits
//! over a prime field: witness, constant and public columns laid out in rows,
//! algebraic gates guarded by per-row enable flags, copy constraints between
//! cells, and a mock verifier that evaluates every active constraint against
//! a fully assigned grid.

pub mod cells;
pub mod chip;
pub mod circuits;
pub mod config;
pub mod expr;
pub mod field;
pub mod grid;
pub mod mock;

//! Symbolic solver for a fixed network of arithmetic equations over a
//! two-stage motor and transmission model.
//!
//! Quantities are tri-state ([`number::Num`]): supplied by the user, derived
//! by the solver, or absent. Scalars are exact rationals ([`rat::Rat`]).
//! A single equation `a op b = c` is rearranged around its one missing slot
//! ([`equation::Equation::solve`]), and a fixpoint driver repeatedly applies a
//! fixed table of equation templates over the record of named quantities
//! ([`calculation::Calculation::try_fill_missing`]).

pub mod calculation;
pub mod equation;
pub mod error;
pub mod laws;
pub mod number;
pub mod operation;
pub mod rat;

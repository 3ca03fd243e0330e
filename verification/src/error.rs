//! The solver's two-member error taxonomy.

use vstd::prelude::*;

verus! {

/// Why an equation could not be solved.
#[derive(Copy, Clone, Debug, PartialEq, Eq, Structural)]
pub enum ErrorKind {
    /// All three operands already held a value when the solver expected
    /// exactly one to be missing.
    Overconstrained,
    /// Fewer than two of the three operands held a value.
    Underconstrained,
}

/// An error raised by solving an equation, with a human-readable description.
#[derive(Copy, Clone, Debug)]
pub struct Error {
    pub kind: ErrorKind,
    pub description: &'static str,
}

impl Error {
    pub fn new(kind: ErrorKind, description: &'static str) -> (r: Self)
        ensures
            r.kind == kind,
            r.description@ == description@,
    {
        Self { kind, description }
    }
}

} // verus!

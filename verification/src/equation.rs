//! A single equation `a op b = c` and the solver that rearranges it around
//! its one missing operand.

use vstd::prelude::*;

use crate::error::Error;
use crate::error::ErrorKind;
use crate::number::Num;
use crate::number::present;
use crate::number::value;
use crate::operation::Op;
use crate::operation::op_value;
use crate::rat::Rat;
use crate::rat::rat_add;
use crate::rat::rat_div;
use crate::rat::rat_mul;
use crate::rat::rat_sub;

verus! {

/// A structure representing a simple equation consisting of three variables
/// and an operation. The variables are dependent in the pattern
/// `a operation b = c`.
#[derive(Copy, Clone, Debug, PartialEq, Eq, Structural)]
pub struct Equation {
    pub op: Op,
    pub a: Num,
    pub b: Num,
    pub c: Num,
}

/// How many of the three operands hold a value.
pub open spec fn present_count(e: Equation) -> int {
    (if present(e.a) { 1int } else { 0 }) + (if present(e.b) { 1int } else { 0 })
        + (if present(e.c) { 1int } else { 0 })
}

/// All three operands hold a value: one too many for the solver.
pub open spec fn three_present(e: Equation) -> bool {
    present_count(e) == 3
}

/// Exactly two operands hold a value: the solver can fill the third.
pub open spec fn exactly_two_present(e: Equation) -> bool {
    present_count(e) == 2
}

/// The scalar the solver computes for the single missing slot, found by
/// rearranging the equation around it.
///
/// For the slot `c` this is `a op b` itself. For `a` or `b` the operation is
/// undone: subtraction and division are treated as the inverses of addition
/// and multiplication over the triple with `a` and `c` swapped.
pub open spec fn derived_value(e: Equation) -> Rat
    recommends
        exactly_two_present(e),
{
    if !present(e.c) {
        op_value(e.op, value(e.a), value(e.b))
    } else if !present(e.b) {
        match e.op {
            Op::Add => rat_sub(value(e.c), value(e.a)),
            Op::Sub => rat_sub(value(e.a), value(e.c)),
            Op::Mul => rat_div(value(e.c), value(e.a)),
            Op::Div => rat_div(value(e.a), value(e.c)),
        }
    } else {
        match e.op {
            Op::Add => rat_sub(value(e.c), value(e.b)),
            Op::Sub => rat_add(value(e.c), value(e.b)),
            Op::Mul => rat_div(value(e.c), value(e.b)),
            Op::Div => rat_mul(value(e.c), value(e.b)),
        }
    }
}

/// The solved equation: the missing slot filled with the derived value,
/// tagged as an output; the two present slots untouched.
pub open spec fn solved(e: Equation) -> Equation
    recommends
        exactly_two_present(e),
{
    if !present(e.c) {
        Equation { c: Num::Out(derived_value(e)), ..e }
    } else if !present(e.b) {
        Equation { b: Num::Out(derived_value(e)), ..e }
    } else {
        Equation { a: Num::Out(derived_value(e)), ..e }
    }
}

impl Equation {
    /// Creates a new equation containing the variables and the operation.
    pub fn new(a: Num, op: Op, b: Num, c: Num) -> (r: Equation)
        ensures
            r == (Equation { op, a, b, c }),
    {
        Equation { op, a, b, c }
    }

    /// Attempts to solve the equation by calculating the value of the
    /// remaining variable. Fails with `Overconstrained` if all three numbers
    /// are defined, and with `Underconstrained` if fewer than two are;
    /// otherwise the solved equation is returned.
    ///
    /// Whether the three present values of an overconstrained equation are
    /// numerically consistent is deliberately not checked.
    pub fn solve(&self) -> (r: Result<Equation, Error>)
        ensures
            (r is Ok) == exactly_two_present(*self),
            r is Ok ==> r->Ok_0 == solved(*self),
            three_present(*self) ==> (r matches Err(e) && e.kind is Overconstrained
                && e.description@ == "one value too many was provided"@),
            present_count(*self) < 2 ==> (r matches Err(e) && e.kind is Underconstrained
                && e.description@ == "at least one more value is needed"@),
    {
        let mut equation = *self;
        let mut commutative = true;
        let mut overconstrained = false;

        // normalizing: rewrite `a - b = c` as `c + b = a` (and `a / b = c` as
        // `c * b = a`) so the rearranging below only reasons about
        // commutative forms
        if !equation.op.is_commutative() {
            let temp_c = equation.c;
            equation.c = equation.a;
            equation.a = temp_c;
            equation.op = equation.op.inv();
            commutative = false;
        }

        // rearrange and calculate
        if equation.a.is_num() && equation.b.is_num() {
            if equation.c.is_none() {
                equation.c = Num::Out(equation.op.calc(equation.a.num(), equation.b.num()));
            } else {
                overconstrained = true;
            }
        } else if equation.a.is_num() && equation.c.is_num() {
            if equation.b.is_none() {
                equation.b = Num::Out(equation.op.inv().calc(equation.c.num(), equation.a.num()));
            } else {
                overconstrained = true;
            }
        } else if equation.b.is_num() && equation.c.is_num() {
            if equation.a.is_none() {
                equation.a = Num::Out(equation.op.inv().calc(equation.c.num(), equation.b.num()));
            } else {
                overconstrained = true;
            }
        } else {
            return Err(Error::new(ErrorKind::Underconstrained, "at least one more value is needed"));
        }

        // reverting normalization
        if !commutative {
            let temp_c = equation.c;
            equation.c = equation.a;
            equation.a = temp_c;
            equation.op = equation.op.inv();
        }

        if overconstrained {
            return Err(Error::new(ErrorKind::Overconstrained, "one value too many was provided"));
        }

        Ok(equation)
    }
}

} // verus!

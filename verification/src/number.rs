//! The tri-state quantity value.
//!
//! A quantity is either an *input* supplied by the user (never overwritten by
//! the solver), an *output* derived by the solver (cleared and recomputed on
//! every solving pass), or absent. Arithmetic between tri-state values is
//! absorbing in absence, and the result keeps the left operand's tag.

use vstd::pervasive::unreached;
use vstd::prelude::*;

use crate::operation::Op;
use crate::operation::op_value;
use crate::rat::Rat;

verus! {

/// A quantity value that is either an input, an output, or absent.
#[derive(Copy, Clone, Debug, PartialEq, Eq, Structural)]
pub enum Num {
    /// Supplied by the user; authoritative.
    In(Rat),
    /// Derived by the solver.
    Out(Rat),
    /// No value at all.
    Missing,
}

/// Whether a value is present (an input or an output).
pub open spec fn present(n: Num) -> bool {
    !(n is Missing)
}

/// The scalar a present value carries.
pub open spec fn value(n: Num) -> Rat
    recommends
        present(n),
{
    match n {
        Num::In(v) => v,
        Num::Out(v) => v,
        Num::Missing => Rat { n: 0, d: 0 },
    }
}

/// Arithmetic between tri-state values: absent absorbs, and the result keeps
/// the left operand's tag.
pub open spec fn num_op(op: Op, x: Num, y: Num) -> Num {
    if x is Missing || y is Missing {
        Num::Missing
    } else if x is In {
        Num::In(op_value(op, value(x), value(y)))
    } else {
        Num::Out(op_value(op, value(x), value(y)))
    }
}

impl Num {
    /// Returns true if the number is an input false otherwise.
    pub fn is_input(&self) -> (r: bool)
        ensures
            r == (*self is In),
    {
        match self {
            Num::In(_) => true,
            _ => false,
        }
    }

    /// Returns true if the number is an output false otherwise.
    pub fn is_output(&self) -> (r: bool)
        ensures
            r == (*self is Out),
    {
        match self {
            Num::Out(_) => true,
            _ => false,
        }
    }

    /// Returns true if the number is absent false otherwise.
    pub fn is_none(&self) -> (r: bool)
        ensures
            r == (*self is Missing),
    {
        match self {
            Num::Missing => true,
            _ => false,
        }
    }

    /// Returns true if the number is an input or an output false otherwise.
    pub fn is_num(&self) -> (r: bool)
        ensures
            r == present(*self),
    {
        match self {
            Num::In(_) => true,
            Num::Out(_) => true,
            Num::Missing => false,
        }
    }

    /// Returns the number as an option.
    pub fn as_option(&self) -> (r: Option<Rat>)
        ensures
            present(*self) ==> r == Some(value(*self)),
            !present(*self) ==> r is None,
    {
        match self {
            Num::In(v) => Some(*v),
            Num::Out(v) => Some(*v),
            Num::Missing => None,
        }
    }

    /// Returns the number's value. Callers must check `is_num` first; an
    /// absent value is a programming error, ruled out by the precondition.
    pub fn num(&self) -> (r: Rat)
        requires
            present(*self),
        ensures
            r == value(*self),
    {
        match self {
            Num::In(v) => *v,
            Num::Out(v) => *v,
            Num::Missing => unreached(),
        }
    }

    /// Tri-state addition; keeps the left operand's tag.
    pub fn add(self, rhs: Num) -> (r: Num)
        ensures
            r == num_op(Op::Add, self, rhs),
    {
        if rhs.is_none() {
            return Num::Missing;
        }
        match self {
            Num::In(v) => Num::In(v.add(rhs.num())),
            Num::Out(v) => Num::Out(v.add(rhs.num())),
            Num::Missing => Num::Missing,
        }
    }

    /// Tri-state subtraction; keeps the left operand's tag.
    pub fn sub(self, rhs: Num) -> (r: Num)
        ensures
            r == num_op(Op::Sub, self, rhs),
    {
        if rhs.is_none() {
            return Num::Missing;
        }
        match self {
            Num::In(v) => Num::In(v.sub(rhs.num())),
            Num::Out(v) => Num::Out(v.sub(rhs.num())),
            Num::Missing => Num::Missing,
        }
    }

    /// Tri-state multiplication; keeps the left operand's tag.
    pub fn mul(self, rhs: Num) -> (r: Num)
        ensures
            r == num_op(Op::Mul, self, rhs),
    {
        if rhs.is_none() {
            return Num::Missing;
        }
        match self {
            Num::In(v) => Num::In(v.mul(rhs.num())),
            Num::Out(v) => Num::Out(v.mul(rhs.num())),
            Num::Missing => Num::Missing,
        }
    }

    /// Tri-state division; keeps the left operand's tag.
    pub fn div(self, rhs: Num) -> (r: Num)
        ensures
            r == num_op(Op::Div, self, rhs),
    {
        if rhs.is_none() {
            return Num::Missing;
        }
        match self {
            Num::In(v) => Num::In(v.div(rhs.num())),
            Num::Out(v) => Num::Out(v.div(rhs.num())),
            Num::Missing => Num::Missing,
        }
    }
}

} // verus!

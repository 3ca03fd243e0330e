//! The four elementary arithmetic operators, with the commutativity and
//! inversion metadata the equation solver rearranges with.

use vstd::prelude::*;

use crate::rat::Rat;
use crate::rat::rat_add;
use crate::rat::rat_div;
use crate::rat::rat_mul;
use crate::rat::rat_sub;

verus! {

/// An elementary arithmetic operation.
#[derive(Copy, Clone, Debug, PartialEq, Eq, Structural)]
pub enum Op {
    Add,
    Sub,
    Mul,
    Div,
}

/// Whether the operation is commutative: true exactly for `Add` and `Mul`.
pub open spec fn op_commutative(op: Op) -> bool {
    op is Add || op is Mul
}

/// The inverse operation: `Add` and `Sub` swap, `Mul` and `Div` swap.
pub open spec fn op_inverse(op: Op) -> Op {
    match op {
        Op::Add => Op::Sub,
        Op::Sub => Op::Add,
        Op::Mul => Op::Div,
        Op::Div => Op::Mul,
    }
}

/// The operation applied to two scalars.
pub open spec fn op_value(op: Op, a: Rat, b: Rat) -> Rat {
    match op {
        Op::Add => rat_add(a, b),
        Op::Sub => rat_sub(a, b),
        Op::Mul => rat_mul(a, b),
        Op::Div => rat_div(a, b),
    }
}

impl Op {
    /// Returns true if the operation is addition false otherwise.
    pub fn is_add(&self) -> (r: bool)
        ensures
            r == (*self is Add),
    {
        if let Op::Add = self { true } else { false }
    }

    /// Returns true if the operation is subtraction false otherwise.
    pub fn is_sub(&self) -> (r: bool)
        ensures
            r == (*self is Sub),
    {
        if let Op::Sub = self { true } else { false }
    }

    /// Returns true if the operation is multiplication false otherwise.
    pub fn is_mul(&self) -> (r: bool)
        ensures
            r == (*self is Mul),
    {
        if let Op::Mul = self { true } else { false }
    }

    /// Returns true if the operation is division false otherwise.
    pub fn is_div(&self) -> (r: bool)
        ensures
            r == (*self is Div),
    {
        if let Op::Div = self { true } else { false }
    }

    /// Returns true if the operation is commutative false otherwise.
    pub fn is_commutative(&self) -> (r: bool)
        ensures
            r == op_commutative(*self),
    {
        match self {
            Op::Add => true,
            Op::Mul => true,
            _ => false,
        }
    }

    /// Returns the inverse operation.
    pub fn inv(&self) -> (r: Op)
        ensures
            r == op_inverse(*self),
    {
        match self {
            Op::Add => Op::Sub,
            Op::Sub => Op::Add,
            Op::Mul => Op::Div,
            Op::Div => Op::Mul,
        }
    }

    /// Calculates the result of the two operands.
    pub fn calc(&self, a: Rat, b: Rat) -> (r: Rat)
        ensures
            r == op_value(*self, a, b),
    {
        match self {
            Op::Add => a.add(b),
            Op::Sub => a.sub(b),
            Op::Mul => a.mul(b),
            Op::Div => a.div(b),
        }
    }
}

} // verus!

//! The record of named quantities and the fixpoint driver.
//!
//! A [`Calculation`] holds a fixed set of named tri-state quantities for an
//! electrical motor and its transmission. An ordered table of equation
//! templates relates the quantities; the driver repeatedly builds each
//! template from the current record, solves it, and writes newly derived
//! values back, until a bounded number of rounds has run or an equation
//! turns out overconstrained.

use vstd::pervasive::unreached;
use vstd::prelude::*;

use crate::equation::Equation;
use crate::equation::exactly_two_present;
use crate::equation::solved;
use crate::equation::three_present;
use crate::error::Error;
use crate::error::ErrorKind;
use crate::number::Num;
use crate::number::num_op;
use crate::number::present;
use crate::operation::Op;
use crate::rat::Rat;

verus! {

/// A name for one of the record's quantities.
#[derive(Copy, Clone, Debug, PartialEq, Eq, Structural)]
pub enum Quantity {
    /// Voltage: U [V]
    U,
    /// Current: I [A]
    I,
    /// Armature resistance: R_A [Ohm]
    Ra,
    /// Input power: P_in [W]
    PIn,
    /// Motor power: P_M [W]
    Pm,
    /// Motor power loss: P_ML [W]
    Pml,
    /// Electrical motor power loss: P_ML_el [W]
    PmlEl,
    /// Mechanical motor power loss: P_ML_mech [W]
    PmlMech,
    /// Motor efficiency: eta_M [%]
    EtaM,
    /// Motor torque: M_M [Nm]
    Mm,
    /// Motor speed: n_M [rpm]
    Nm,
    /// Transmission power: P_T [W]
    Pt,
    /// Transmission power loss: P_TL [W]
    Ptl,
    /// Transmission efficiency: eta_T [%]
    EtaT,
    /// Transmission torque: M_T [Nm]
    Mt,
    /// Transmission speed: n_T [rpm]
    Nt,
}

/// A struct that holds the data necessary for calculations regarding an
/// electrical motor and its transmission.
#[verifier::ext_equal]
#[derive(Copy, Clone, Debug, PartialEq, Eq, Structural)]
pub struct Calculation {
    // Motor
    /// Voltage: U [V]
    pub u: Num,
    /// Current: I [A]
    pub i: Num,
    /// Armature resistance: R_A [Ohm]
    pub r_a: Num,
    /// Input power: P_in [W]
    pub p_in: Num,
    /// Motor power: P_M [W]
    pub p_m: Num,
    /// Motor power loss: P_ML [W]
    pub p_m_l: Num,
    /// Electrical motor power loss: P_ML_el [W]
    pub p_m_l_el: Num,
    /// Mechanical motor power loss: P_ML_mech [W]
    pub p_m_l_mech: Num,
    /// Motor efficiency: eta_M [%]
    pub eta_m: Num,
    /// Motor torque: M_M [Nm]
    pub m_m: Num,
    /// Motor speed: n_M [rpm]
    pub n_m: Num,
    // Transmission
    /// Transmission power: P_T [W]
    pub p_t: Num,
    /// Transmission power loss: P_TL [W]
    pub p_t_l: Num,
    /// Transmission efficiency: eta_T [%]
    pub eta_t: Num,
    /// Transmission torque: M_T [Nm]
    pub m_t: Num,
    /// Transmission speed: n_T [rpm]
    pub n_t: Num,
}

/// The field of `c` named by `q`.
pub open spec fn q_get(c: Calculation, q: Quantity) -> Num {
    match q {
        Quantity::U => c.u,
        Quantity::I => c.i,
        Quantity::Ra => c.r_a,
        Quantity::PIn => c.p_in,
        Quantity::Pm => c.p_m,
        Quantity::Pml => c.p_m_l,
        Quantity::PmlEl => c.p_m_l_el,
        Quantity::PmlMech => c.p_m_l_mech,
        Quantity::EtaM => c.eta_m,
        Quantity::Mm => c.m_m,
        Quantity::Nm => c.n_m,
        Quantity::Pt => c.p_t,
        Quantity::Ptl => c.p_t_l,
        Quantity::EtaT => c.eta_t,
        Quantity::Mt => c.m_t,
        Quantity::Nt => c.n_t,
    }
}

/// `c` with the field named by `q` replaced by `n`.
pub open spec fn q_set(c: Calculation, q: Quantity, n: Num) -> Calculation {
    match q {
        Quantity::U => Calculation { u: n, ..c },
        Quantity::I => Calculation { i: n, ..c },
        Quantity::Ra => Calculation { r_a: n, ..c },
        Quantity::PIn => Calculation { p_in: n, ..c },
        Quantity::Pm => Calculation { p_m: n, ..c },
        Quantity::Pml => Calculation { p_m_l: n, ..c },
        Quantity::PmlEl => Calculation { p_m_l_el: n, ..c },
        Quantity::PmlMech => Calculation { p_m_l_mech: n, ..c },
        Quantity::EtaM => Calculation { eta_m: n, ..c },
        Quantity::Mm => Calculation { m_m: n, ..c },
        Quantity::Nm => Calculation { n_m: n, ..c },
        Quantity::Pt => Calculation { p_t: n, ..c },
        Quantity::Ptl => Calculation { p_t_l: n, ..c },
        Quantity::EtaT => Calculation { eta_t: n, ..c },
        Quantity::Mt => Calculation { m_t: n, ..c },
        Quantity::Nt => Calculation { n_t: n, ..c },
    }
}

/// Reading a written record: the named field holds the written value, every
/// other field is untouched.
pub proof fn lemma_get_set(c: Calculation, q: Quantity, n: Num, p: Quantity)
    ensures
        q_get(q_set(c, q, n), p) == if p == q {
            n
        } else {
            q_get(c, p)
        },
{
}

/// Two records with equal fields under every name are equal.
pub proof fn lemma_record_ext(x: Calculation, y: Calculation)
    requires
        forall|q: Quantity| #[trigger] q_get(x, q) == q_get(y, q),
    ensures
        x == y,
{
    assert(q_get(x, Quantity::U) == q_get(y, Quantity::U));
    assert(q_get(x, Quantity::I) == q_get(y, Quantity::I));
    assert(q_get(x, Quantity::Ra) == q_get(y, Quantity::Ra));
    assert(q_get(x, Quantity::PIn) == q_get(y, Quantity::PIn));
    assert(q_get(x, Quantity::Pm) == q_get(y, Quantity::Pm));
    assert(q_get(x, Quantity::Pml) == q_get(y, Quantity::Pml));
    assert(q_get(x, Quantity::PmlEl) == q_get(y, Quantity::PmlEl));
    assert(q_get(x, Quantity::PmlMech) == q_get(y, Quantity::PmlMech));
    assert(q_get(x, Quantity::EtaM) == q_get(y, Quantity::EtaM));
    assert(q_get(x, Quantity::Mm) == q_get(y, Quantity::Mm));
    assert(q_get(x, Quantity::Nm) == q_get(y, Quantity::Nm));
    assert(q_get(x, Quantity::Pt) == q_get(y, Quantity::Pt));
    assert(q_get(x, Quantity::Ptl) == q_get(y, Quantity::Ptl));
    assert(q_get(x, Quantity::EtaT) == q_get(y, Quantity::EtaT));
    assert(q_get(x, Quantity::Mt) == q_get(y, Quantity::Mt));
    assert(q_get(x, Quantity::Nt) == q_get(y, Quantity::Nt));
    assert(x =~= y);
}

/// One field after clearing: an output is reset to absent, everything else
/// is untouched.
pub open spec fn clear_num(n: Num) -> Num {
    if n is Out {
        Num::Missing
    } else {
        n
    }
}

/// The record with every derived output reset to absent, so that solving
/// starts from only the user's actual inputs.
pub open spec fn clear_spec(c: Calculation) -> Calculation {
    Calculation {
        u: clear_num(c.u),
        i: clear_num(c.i),
        r_a: clear_num(c.r_a),
        p_in: clear_num(c.p_in),
        p_m: clear_num(c.p_m),
        p_m_l: clear_num(c.p_m_l),
        p_m_l_el: clear_num(c.p_m_l_el),
        p_m_l_mech: clear_num(c.p_m_l_mech),
        eta_m: clear_num(c.eta_m),
        m_m: clear_num(c.m_m),
        n_m: clear_num(c.n_m),
        p_t: clear_num(c.p_t),
        p_t_l: clear_num(c.p_t_l),
        eta_t: clear_num(c.eta_t),
        m_t: clear_num(c.m_t),
        n_t: clear_num(c.n_t),
    }
}

/// Clearing commutes with field selection.
pub proof fn lemma_clear_get(c: Calculation, q: Quantity)
    ensures
        q_get(clear_spec(c), q) == clear_num(q_get(c, q)),
{
}

/// One operand position of an equation template: a named quantity, read and
/// written through an optional fixed transformation.
#[derive(Copy, Clone, Debug, PartialEq, Eq, Structural)]
pub enum Operand {
    /// The named quantity itself.
    Plain(Quantity),
    /// The named quantity scaled by a fixed factor; written back by
    /// dividing the derived value by the factor.
    Scaled(Quantity, Rat),
    /// The square of the named quantity. A square cannot be inverted here,
    /// so a value derived for this operand can only be written back when the
    /// quantity itself is already present; otherwise nothing is learned.
    Squared(Quantity),
}

/// The quantity an operand reads and writes.
pub open spec fn operand_quantity(o: Operand) -> Quantity {
    match o {
        Operand::Plain(q) => q,
        Operand::Scaled(q, _) => q,
        Operand::Squared(q) => q,
    }
}

/// The tri-state value an operand contributes to its equation.
pub open spec fn read_operand(c: Calculation, o: Operand) -> Num {
    match o {
        Operand::Plain(q) => q_get(c, q),
        Operand::Scaled(q, k) => num_op(Op::Mul, q_get(c, q), Num::In(k)),
        Operand::Squared(q) => num_op(Op::Mul, q_get(c, q), q_get(c, q)),
    }
}

/// The record after a value derived for this operand is written back, with
/// the operand's transformation undone.
pub open spec fn write_operand(c: Calculation, o: Operand, v: Num) -> Calculation {
    match o {
        Operand::Plain(q) => q_set(c, q, v),
        Operand::Scaled(q, k) => q_set(c, q, num_op(Op::Div, v, Num::In(k))),
        Operand::Squared(q) => q_set(c, q, num_op(Op::Div, v, q_get(c, q))),
    }
}

/// One equation template over named quantities: `a op b = c`.
#[derive(Copy, Clone, Debug, PartialEq, Eq, Structural)]
pub struct Template {
    pub a: Operand,
    pub op: Op,
    pub b: Operand,
    pub c: Operand,
}

/// The number of equation templates in the fixed table.
pub const TEMPLATE_COUNT: usize = 9;

/// The leading templates of the table relate the motor-side quantities; the
/// rest relate the transmission side.
pub const MOTOR_TEMPLATE_COUNT: usize = 6;

/// The fixed ordered table of equation templates relating the record's
/// quantities. This table is the configuration of the physical model; the
/// solving algorithm does not depend on its contents.
///
/// Efficiencies are entered in percent, so they join their equations scaled
/// by `1/100`. Speeds are entered in revolutions per minute and join the
/// power equations as angular speeds, scaled by `2 * pi / 60`; with exact
/// rational scalars that factor is represented by the fixed rational
/// `71 / 678` (`355 / 113` for pi, accurate to about three parts in ten
/// million).
pub open spec fn template_seq() -> Seq<Template> {
    seq![
        // U * I = P_in
        Template {
            a: Operand::Plain(Quantity::U),
            op: Op::Mul,
            b: Operand::Plain(Quantity::I),
            c: Operand::Plain(Quantity::PIn),
        },
        // I^2 * R_A = P_ML_el
        Template {
            a: Operand::Squared(Quantity::I),
            op: Op::Mul,
            b: Operand::Plain(Quantity::Ra),
            c: Operand::Plain(Quantity::PmlEl),
        },
        // P_in * (eta_M / 100) = P_M
        Template {
            a: Operand::Plain(Quantity::PIn),
            op: Op::Mul,
            b: Operand::Scaled(Quantity::EtaM, Rat { n: 1, d: 100 }),
            c: Operand::Plain(Quantity::Pm),
        },
        // P_ML + P_M = P_in
        Template {
            a: Operand::Plain(Quantity::Pml),
            op: Op::Add,
            b: Operand::Plain(Quantity::Pm),
            c: Operand::Plain(Quantity::PIn),
        },
        // P_ML_el + P_ML_mech = P_ML
        Template {
            a: Operand::Plain(Quantity::PmlEl),
            op: Op::Add,
            b: Operand::Plain(Quantity::PmlMech),
            c: Operand::Plain(Quantity::Pml),
        },
        // (n_M * 2 pi / 60) * M_M = P_M
        Template {
            a: Operand::Scaled(Quantity::Nm, Rat { n: 71, d: 678 }),
            op: Op::Mul,
            b: Operand::Plain(Quantity::Mm),
            c: Operand::Plain(Quantity::Pm),
        },
        // P_M * (eta_T / 100) = P_T
        Template {
            a: Operand::Plain(Quantity::Pm),
            op: Op::Mul,
            b: Operand::Scaled(Quantity::EtaT, Rat { n: 1, d: 100 }),
            c: Operand::Plain(Quantity::Pt),
        },
        // P_T + P_TL = P_M
        Template {
            a: Operand::Plain(Quantity::Pt),
            op: Op::Add,
            b: Operand::Plain(Quantity::Ptl),
            c: Operand::Plain(Quantity::Pm),
        },
        // (n_T * 2 pi / 60) * M_T = P_T
        Template {
            a: Operand::Scaled(Quantity::Nt, Rat { n: 71, d: 678 }),
            op: Op::Mul,
            b: Operand::Plain(Quantity::Mt),
            c: Operand::Plain(Quantity::Pt),
        },
    ]
}

/// The equation a template builds from the current record.
pub open spec fn template_equation(c: Calculation, t: Template) -> Equation {
    Equation {
        op: t.op,
        a: read_operand(c, t.a),
        b: read_operand(c, t.b),
        c: read_operand(c, t.c),
    }
}

/// All three operands of the equation are user inputs: the equation is
/// genuinely overconstrained by what the user supplied, not by a value the
/// solver derived itself in an earlier round.
pub open spec fn overconstrained_by_inputs(e: Equation) -> bool {
    e.a is In && e.b is In && e.c is In
}

/// One template applied to the record: the equation is built and solved,
/// and on success the single derived value is written back. The two slots
/// that were already present come back from the solver untouched, so only
/// the newly derived slot needs storing, and a quantity can only move from
/// absent to derived. An
/// underconstrained equation is skipped. An overconstrained equation whose
/// three operands are all user inputs aborts: the user's data is redundant
/// or contradictory. An overconstrained equation involving a derived output
/// is one the solver already completed in an earlier round (outputs are
/// cleared before the first round, so every output is this call's own), and
/// is skipped.
pub open spec fn apply_template_spec(c: Calculation, t: Template) -> Result<
    Calculation,
    ErrorKind,
> {
    let e = template_equation(c, t);
    if three_present(e) {
        if overconstrained_by_inputs(e) {
            Err(ErrorKind::Overconstrained)
        } else {
            Ok(c)
        }
    } else if exactly_two_present(e) {
        let s = solved(e);
        if !present(e.c) {
            Ok(write_operand(c, t.c, s.c))
        } else if !present(e.b) {
            Ok(write_operand(c, t.b, s.b))
        } else {
            Ok(write_operand(c, t.a, s.a))
        }
    } else {
        Ok(c)
    }
}

/// The record after the first `k` templates of the table, applied in order;
/// an overconstrained equation aborts the run.
pub open spec fn run_upto(c0: Calculation, k: int) -> Result<Calculation, ErrorKind>
    decreases k,
{
    if k <= 0 {
        Ok(c0)
    } else {
        match run_upto(c0, k - 1) {
            Ok(c) => apply_template_spec(c, template_seq()[k - 1]),
            Err(e) => Err(e),
        }
    }
}

/// One full pass over the whole template table.
pub open spec fn round_spec(c: Calculation) -> Result<Calculation, ErrorKind> {
    run_upto(c, TEMPLATE_COUNT as int)
}

/// `n` passes over the template table, each starting from the previous
/// pass's record.
pub open spec fn run_rounds(c: Calculation, n: nat) -> Result<Calculation, ErrorKind>
    decreases n,
{
    if n == 0 {
        Ok(c)
    } else {
        match round_spec(c) {
            Ok(c2) => run_rounds(c2, (n - 1) as nat),
            Err(e) => Err(e),
        }
    }
}

/// The number of rounds the driver runs: enough to exceed the longest
/// dependency chain in the template table.
pub const ROUND_COUNT: usize = 6;

/// The whole fixpoint operation: derived outputs cleared, then the bounded
/// rounds run from only the user's inputs.
pub open spec fn fill_spec(c: Calculation) -> Result<Calculation, ErrorKind> {
    run_rounds(clear_spec(c), ROUND_COUNT as nat)
}

/// Once a pass has aborted, running further templates changes nothing.
proof fn lemma_run_upto_err(c0: Calculation, k1: int, k2: int)
    requires
        0 <= k1 <= k2,
        run_upto(c0, k1) is Err,
    ensures
        run_upto(c0, k2) == run_upto(c0, k1),
    decreases k2 - k1,
{
    if k2 > k1 {
        lemma_run_upto_err(c0, k1, k2 - 1);
    }
}

/// The only way a pass aborts is an overconstrained equation.
proof fn lemma_run_upto_err_kind(c0: Calculation, k: int)
    requires
        run_upto(c0, k) is Err,
    ensures
        run_upto(c0, k)->Err_0 is Overconstrained,
    decreases k,
{
    if k > 0 && run_upto(c0, k - 1) is Err {
        lemma_run_upto_err_kind(c0, k - 1);
    }
}

/// The only way the bounded rounds abort is an overconstrained equation.
proof fn lemma_run_rounds_err_kind(c: Calculation, n: nat)
    requires
        run_rounds(c, n) is Err,
    ensures
        run_rounds(c, n)->Err_0 is Overconstrained,
    decreases n,
{
    if n > 0 {
        if round_spec(c) is Err {
            lemma_run_upto_err_kind(c, TEMPLATE_COUNT as int);
        } else {
            lemma_run_rounds_err_kind(round_spec(c)->Ok_0, (n - 1) as nat);
        }
    }
}

/// How the solver may move a record forward: each quantity is either
/// untouched, or was absent and is now a derived output. In particular no
/// input is ever changed, and nothing but outputs is ever added.
pub open spec fn evolves(c1: Calculation, c2: Calculation) -> bool {
    forall|q: Quantity|
        #![trigger q_get(c1, q)]
        #![trigger q_get(c2, q)]
        q_get(c2, q) == q_get(c1, q) || (q_get(c1, q) is Missing && q_get(c2, q) is Out)
}

proof fn lemma_evolves_trans(c1: Calculation, c2: Calculation, c3: Calculation)
    requires
        evolves(c1, c2),
        evolves(c2, c3),
    ensures
        evolves(c1, c3),
{
}

/// Applying one template only fills a previously absent quantity with an
/// output.
proof fn lemma_apply_template_evolves(c: Calculation, t: Template)
    requires
        apply_template_spec(c, t) is Ok,
    ensures
        evolves(c, apply_template_spec(c, t)->Ok_0),
{
    let e = template_equation(c, t);
    let c2 = apply_template_spec(c, t)->Ok_0;
    if exactly_two_present(e) {
        let o = if !present(e.c) {
            t.c
        } else if !present(e.b) {
            t.b
        } else {
            t.a
        };
        let q0 = operand_quantity(o);
        assert forall|q: Quantity|
            q_get(c2, q) == q_get(c, q) || (q_get(c, q) is Missing && q_get(c2, q) is Out) by {
            lemma_get_set(c, q0, q_get(c2, q0), q);
        }
    }
}

/// A whole pass only fills previously absent quantities with outputs.
proof fn lemma_run_upto_evolves(c0: Calculation, k: int)
    requires
        0 <= k,
        run_upto(c0, k) is Ok,
    ensures
        evolves(c0, run_upto(c0, k)->Ok_0),
    decreases k,
{
    if k == 0 {
    } else {
        let prev = run_upto(c0, k - 1);
        lemma_run_upto_evolves(c0, k - 1);
        lemma_apply_template_evolves(prev->Ok_0, template_seq()[k - 1]);
        lemma_evolves_trans(c0, prev->Ok_0, run_upto(c0, k)->Ok_0);
    }
}

/// The bounded rounds only fill previously absent quantities with outputs.
pub proof fn lemma_run_rounds_evolves(c: Calculation, n: nat)
    requires
        run_rounds(c, n) is Ok,
    ensures
        evolves(c, run_rounds(c, n)->Ok_0),
    decreases n,
{
    if n > 0 {
        let c2 = round_spec(c)->Ok_0;
        lemma_run_upto_evolves(c, TEMPLATE_COUNT as int);
        lemma_run_rounds_evolves(c2, (n - 1) as nat);
        lemma_evolves_trans(c, c2, run_rounds(c, n)->Ok_0);
    }
}

impl Calculation {
    /// The template at position `i` of the fixed table.
    fn template_at(i: usize) -> (r: Template)
        requires
            i < TEMPLATE_COUNT,
        ensures
            r == template_seq()[i as int],
    {
        match i {
            0 => Template {
                a: Operand::Plain(Quantity::U),
                op: Op::Mul,
                b: Operand::Plain(Quantity::I),
                c: Operand::Plain(Quantity::PIn),
            },
            1 => Template {
                a: Operand::Squared(Quantity::I),
                op: Op::Mul,
                b: Operand::Plain(Quantity::Ra),
                c: Operand::Plain(Quantity::PmlEl),
            },
            2 => Template {
                a: Operand::Plain(Quantity::PIn),
                op: Op::Mul,
                b: Operand::Scaled(Quantity::EtaM, Rat::new(1, 100)),
                c: Operand::Plain(Quantity::Pm),
            },
            3 => Template {
                a: Operand::Plain(Quantity::Pml),
                op: Op::Add,
                b: Operand::Plain(Quantity::Pm),
                c: Operand::Plain(Quantity::PIn),
            },
            4 => Template {
                a: Operand::Plain(Quantity::PmlEl),
                op: Op::Add,
                b: Operand::Plain(Quantity::PmlMech),
                c: Operand::Plain(Quantity::Pml),
            },
            5 => Template {
                a: Operand::Scaled(Quantity::Nm, Rat::new(71, 678)),
                op: Op::Mul,
                b: Operand::Plain(Quantity::Mm),
                c: Operand::Plain(Quantity::Pm),
            },
            6 => Template {
                a: Operand::Plain(Quantity::Pm),
                op: Op::Mul,
                b: Operand::Scaled(Quantity::EtaT, Rat::new(1, 100)),
                c: Operand::Plain(Quantity::Pt),
            },
            7 => Template {
                a: Operand::Plain(Quantity::Pt),
                op: Op::Add,
                b: Operand::Plain(Quantity::Ptl),
                c: Operand::Plain(Quantity::Pm),
            },
            8 => Template {
                a: Operand::Scaled(Quantity::Nt, Rat::new(71, 678)),
                op: Op::Mul,
                b: Operand::Plain(Quantity::Mt),
                c: Operand::Plain(Quantity::Pt),
            },
            _ => unreached(),
        }
    }

    /// One full pass over the template table: each equation is built from
    /// the current record and solved; newly derived values feed the later
    /// equations of the same pass. The first overconstrained equation
    /// aborts the pass.
    pub fn calculate(&self) -> (r: Result<Calculation, Error>)
        ensures
            (r is Ok) == (round_spec(*self) is Ok),
            r is Ok ==> r->Ok_0 == round_spec(*self)->Ok_0,
            r is Err ==> r->Err_0.kind == round_spec(*self)->Err_0,
            r is Ok ==> evolves(*self, r->Ok_0),
    {
        let mut calc = *self;
        let mut i: usize = 0;
        while i < TEMPLATE_COUNT
            invariant
                i <= TEMPLATE_COUNT,
                run_upto(*self, i as int) matches Ok(c) && c == calc,
            decreases TEMPLATE_COUNT - i,
        {
            let t = Self::template_at(i);
            match calc.apply_template(t) {
                Ok(c2) => {
                    calc = c2;
                },
                Err(e) => {
                    proof {
                        lemma_run_upto_err(*self, i as int + 1, TEMPLATE_COUNT as int);
                    }
                    return Err(e);
                },
            }
            i = i + 1;
        }
        proof {
            lemma_run_upto_evolves(*self, TEMPLATE_COUNT as int);
        }
        Ok(calc)
    }

    /// Clears every derived output, then repeatedly applies the whole
    /// template table, so that a value derived by one equation can feed
    /// another in a later round. Underconstrained equations are simply
    /// skipped each round. The first equation found overconstrained by user
    /// inputs alone aborts the whole operation, because it means the user's
    /// inputs are mutually redundant or contradictory; an equation all of
    /// whose operands are present but include a derived output is one this
    /// call already completed, and is skipped.
    ///
    /// Quantities tagged as inputs are never changed, and the only values
    /// the solver adds are outputs in previously absent slots. Quantities
    /// still absent after the bounded rounds stay absent; that the record
    /// remains partially unknown is not an error.
    pub fn try_fill_missing(&self) -> (r: Result<Calculation, Error>)
        ensures
            (r is Ok) == (fill_spec(*self) is Ok),
            r is Ok ==> r->Ok_0 == fill_spec(*self)->Ok_0,
            r is Err ==> r->Err_0.kind == fill_spec(*self)->Err_0,
            r is Err ==> r->Err_0.kind is Overconstrained,
            r is Ok ==> forall|q: Quantity|
                #![trigger q_get(*self, q)]
                #![trigger q_get(r->Ok_0, q)]
                (q_get(*self, q) is In || q_get(r->Ok_0, q) is In) ==> q_get(r->Ok_0, q) == q_get(
                    *self,
                    q,
                ),
            r is Ok ==> evolves(clear_spec(*self), r->Ok_0),
    {
        let base = self.clear_output();
        let mut calc = base;
        let mut round: usize = 0;
        while round < ROUND_COUNT
            invariant
                round <= ROUND_COUNT,
                run_rounds(calc, (ROUND_COUNT - round) as nat) == run_rounds(
                    base,
                    ROUND_COUNT as nat,
                ),
                base == clear_spec(*self),
            decreases ROUND_COUNT - round,
        {
            match calc.calculate() {
                Ok(c2) => {
                    calc = c2;
                },
                Err(e) => {
                    proof {
                        lemma_run_rounds_err_kind(base, ROUND_COUNT as nat);
                    }
                    return Err(e);
                },
            }
            round = round + 1;
        }
        proof {
            lemma_run_rounds_evolves(base, ROUND_COUNT as nat);
            assert forall|q: Quantity|
                #![trigger q_get(*self, q)]
                #![trigger q_get(calc, q)]
                (q_get(*self, q) is In || q_get(calc, q) is In) implies q_get(calc, q) == q_get(
                *self,
                q,
            ) by {
                lemma_clear_get(*self, q);
            }
        }
        Ok(calc)
    }

    /// One pass over only the motor-side templates, without clearing
    /// outputs first: solves what the motor equations alone can derive.
    pub fn try_fill_missing_motor(&self) -> (r: Result<Calculation, Error>)
        ensures
            (r is Ok) == (run_upto(*self, MOTOR_TEMPLATE_COUNT as int) is Ok),
            r is Ok ==> r->Ok_0 == run_upto(*self, MOTOR_TEMPLATE_COUNT as int)->Ok_0,
            r is Err ==> r->Err_0.kind == run_upto(*self, MOTOR_TEMPLATE_COUNT as int)->Err_0,
            r is Err ==> r->Err_0.kind is Overconstrained,
            r is Ok ==> evolves(*self, r->Ok_0),
    {
        let mut calc = *self;
        let mut i: usize = 0;
        while i < MOTOR_TEMPLATE_COUNT
            invariant
                i <= MOTOR_TEMPLATE_COUNT,
                run_upto(*self, i as int) matches Ok(c) && c == calc,
            decreases MOTOR_TEMPLATE_COUNT - i,
        {
            let t = Self::template_at(i);
            match calc.apply_template(t) {
                Ok(c2) => {
                    calc = c2;
                },
                Err(e) => {
                    proof {
                        lemma_run_upto_err(*self, i as int + 1, MOTOR_TEMPLATE_COUNT as int);
                        lemma_run_upto_err_kind(*self, MOTOR_TEMPLATE_COUNT as int);
                    }
                    return Err(e);
                },
            }
            i = i + 1;
        }
        proof {
            lemma_run_upto_evolves(*self, MOTOR_TEMPLATE_COUNT as int);
        }
        Ok(calc)
    }

    /// Reads the operand `o` from the record.
    fn read_operand(&self, o: Operand) -> (r: Num)
        ensures
            r == read_operand(*self, o),
    {
        match o {
            Operand::Plain(q) => self.get(q),
            Operand::Scaled(q, k) => self.get(q).mul(Num::In(k)),
            Operand::Squared(q) => self.get(q).mul(self.get(q)),
        }
    }

    /// Writes a derived value back through the operand `o`.
    fn write_operand(&self, o: Operand, v: Num) -> (r: Calculation)
        ensures
            r == write_operand(*self, o, v),
    {
        match o {
            Operand::Plain(q) => self.set(q, v),
            Operand::Scaled(q, k) => self.set(q, v.div(Num::In(k))),
            Operand::Squared(q) => self.set(q, v.div(self.get(q))),
        }
    }

    /// Builds the template's equation from the record, solves it, and writes
    /// the newly derived value back. Underconstrained equations are skipped
    /// without touching the record.
    fn apply_template(&self, t: Template) -> (r: Result<Calculation, Error>)
        ensures
            (r is Ok) == (apply_template_spec(*self, t) is Ok),
            r is Ok ==> r->Ok_0 == apply_template_spec(*self, t)->Ok_0,
            r is Err ==> r->Err_0.kind == apply_template_spec(*self, t)->Err_0,
    {
        let a = self.read_operand(t.a);
        let b = self.read_operand(t.b);
        let c = self.read_operand(t.c);
        let equation = Equation::new(a, t.op, b, c);
        match equation.solve() {
            Ok(s) => {
                if c.is_none() {
                    Ok(self.write_operand(t.c, s.c))
                } else if b.is_none() {
                    Ok(self.write_operand(t.b, s.b))
                } else {
                    Ok(self.write_operand(t.a, s.a))
                }
            },
            Err(e) => match e.kind {
                ErrorKind::Overconstrained => {
                    if a.is_input() && b.is_input() && c.is_input() {
                        Err(e)
                    } else {
                        Ok(*self)
                    }
                },
                ErrorKind::Underconstrained => Ok(*self),
            },
        }
    }

    /// A record with every quantity absent.
    pub fn new() -> (r: Calculation)
        ensures
            forall|q: Quantity| #[trigger] q_get(r, q) is Missing,
    {
        let r = Calculation {
            u: Num::Missing,
            i: Num::Missing,
            r_a: Num::Missing,
            p_in: Num::Missing,
            p_m: Num::Missing,
            p_m_l: Num::Missing,
            p_m_l_el: Num::Missing,
            p_m_l_mech: Num::Missing,
            eta_m: Num::Missing,
            m_m: Num::Missing,
            n_m: Num::Missing,
            p_t: Num::Missing,
            p_t_l: Num::Missing,
            eta_t: Num::Missing,
            m_t: Num::Missing,
            n_t: Num::Missing,
        };
        proof {
            assert forall|q: Quantity| #[trigger] q_get(r, q) is Missing by {}
        }
        r
    }

    /// The field named by `q`.
    pub fn get(&self, q: Quantity) -> (r: Num)
        ensures
            r == q_get(*self, q),
    {
        match q {
            Quantity::U => self.u,
            Quantity::I => self.i,
            Quantity::Ra => self.r_a,
            Quantity::PIn => self.p_in,
            Quantity::Pm => self.p_m,
            Quantity::Pml => self.p_m_l,
            Quantity::PmlEl => self.p_m_l_el,
            Quantity::PmlMech => self.p_m_l_mech,
            Quantity::EtaM => self.eta_m,
            Quantity::Mm => self.m_m,
            Quantity::Nm => self.n_m,
            Quantity::Pt => self.p_t,
            Quantity::Ptl => self.p_t_l,
            Quantity::EtaT => self.eta_t,
            Quantity::Mt => self.m_t,
            Quantity::Nt => self.n_t,
        }
    }

    /// A copy of the record with the field named by `q` replaced by `n`.
    pub fn set(&self, q: Quantity, n: Num) -> (r: Calculation)
        ensures
            r == q_set(*self, q, n),
    {
        let mut r = *self;
        match q {
            Quantity::U => r.u = n,
            Quantity::I => r.i = n,
            Quantity::Ra => r.r_a = n,
            Quantity::PIn => r.p_in = n,
            Quantity::Pm => r.p_m = n,
            Quantity::Pml => r.p_m_l = n,
            Quantity::PmlEl => r.p_m_l_el = n,
            Quantity::PmlMech => r.p_m_l_mech = n,
            Quantity::EtaM => r.eta_m = n,
            Quantity::Mm => r.m_m = n,
            Quantity::Nm => r.n_m = n,
            Quantity::Pt => r.p_t = n,
            Quantity::Ptl => r.p_t_l = n,
            Quantity::EtaT => r.eta_t = n,
            Quantity::Mt => r.m_t = n,
            Quantity::Nt => r.n_t = n,
        }
        r
    }

    /// The record with every derived output reset to absent; inputs and
    /// already-absent quantities are untouched.
    pub fn clear_output(&self) -> (r: Self)
        ensures
            r == clear_spec(*self),
    {
        let mut calc = *self;

        if calc.u.is_output() {
            calc.u = Num::Missing;
        }
        if calc.i.is_output() {
            calc.i = Num::Missing;
        }
        if calc.r_a.is_output() {
            calc.r_a = Num::Missing;
        }
        if calc.p_in.is_output() {
            calc.p_in = Num::Missing;
        }
        if calc.p_m.is_output() {
            calc.p_m = Num::Missing;
        }
        if calc.p_m_l.is_output() {
            calc.p_m_l = Num::Missing;
        }
        if calc.p_m_l_el.is_output() {
            calc.p_m_l_el = Num::Missing;
        }
        if calc.p_m_l_mech.is_output() {
            calc.p_m_l_mech = Num::Missing;
        }
        if calc.eta_m.is_output() {
            calc.eta_m = Num::Missing;
        }
        if calc.m_m.is_output() {
            calc.m_m = Num::Missing;
        }
        if calc.n_m.is_output() {
            calc.n_m = Num::Missing;
        }
        if calc.p_t.is_output() {
            calc.p_t = Num::Missing;
        }
        if calc.p_t_l.is_output() {
            calc.p_t_l = Num::Missing;
        }
        if calc.eta_t.is_output() {
            calc.eta_t = Num::Missing;
        }
        if calc.m_t.is_output() {
            calc.m_t = Num::Missing;
        }
        if calc.n_t.is_output() {
            calc.n_t = Num::Missing;
        }

        calc
    }
}

} // verus!

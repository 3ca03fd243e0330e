//! Library-wide laws, stated and proved over the public specifications.
//!
//! The round-trip laws say that solving an equation for its result and then
//! solving the same equation backwards recovers the starting operand as the
//! same rational number. The idempotence law says that running the fixpoint
//! driver twice with no new input produces the same record both times.

use vstd::prelude::*;

use crate::calculation::Calculation;
use crate::calculation::ROUND_COUNT;
use crate::calculation::clear_num;
use crate::calculation::clear_spec;
use crate::calculation::fill_spec;
use crate::calculation::lemma_clear_get;
use crate::calculation::lemma_record_ext;
use crate::calculation::lemma_run_rounds_evolves;
use crate::calculation::q_get;
use crate::calculation::Quantity;
use crate::equation::Equation;
use crate::equation::derived_value;
use crate::equation::exactly_two_present;
use crate::equation::solved;
use crate::number::Num;
use crate::operation::Op;
use crate::rat::Rat;
use crate::rat::add_fits;
use crate::rat::div_fits;
use crate::rat::mul_fits;
use crate::rat::rat_add;
use crate::rat::rat_div;
use crate::rat::rat_finite;
use crate::rat::rat_mul;
use crate::rat::rat_sub;
use crate::rat::same_ratio;
use crate::rat::sub_fits;

verus! {

/// Subtracting one summand from an exactly computed sum recovers the other
/// summand as the same rational.
proof fn lemma_rat_add_recover_b(a: Rat, b: Rat)
    requires
        rat_finite(a),
        rat_finite(b),
        add_fits(a, b),
        sub_fits(rat_add(a, b), a),
    ensures
        rat_finite(rat_sub(rat_add(a, b), a)),
        same_ratio(rat_sub(rat_add(a, b), a), b),
{
    let an = a.n as int;
    let ad = a.d as int;
    let bn = b.n as int;
    let bd = b.d as int;
    let c = rat_add(a, b);
    let cn = c.n as int;
    let cd = c.d as int;
    assert((cn * ad - an * cd) * bd == bn * (cd * ad) && cd * ad != 0) by (nonlinear_arith)
        requires
            cn == an * bd + bn * ad,
            cd == ad * bd,
            ad != 0,
            bd != 0,
    ;
}

proof fn lemma_rat_add_recover_a(a: Rat, b: Rat)
    requires
        rat_finite(a),
        rat_finite(b),
        add_fits(a, b),
        sub_fits(rat_add(a, b), b),
    ensures
        rat_finite(rat_sub(rat_add(a, b), b)),
        same_ratio(rat_sub(rat_add(a, b), b), a),
{
    let an = a.n as int;
    let ad = a.d as int;
    let bn = b.n as int;
    let bd = b.d as int;
    let c = rat_add(a, b);
    let cn = c.n as int;
    let cd = c.d as int;
    assert((cn * bd - bn * cd) * ad == an * (cd * bd) && cd * bd != 0) by (nonlinear_arith)
        requires
            cn == an * bd + bn * ad,
            cd == ad * bd,
            ad != 0,
            bd != 0,
    ;
}

/// Dividing an exactly computed product by one factor recovers the other
/// factor as the same rational; the divided-out factor must be nonzero.
proof fn lemma_rat_mul_recover_b(a: Rat, b: Rat)
    requires
        rat_finite(a),
        rat_finite(b),
        a.n != 0,
        mul_fits(a, b),
        div_fits(rat_mul(a, b), a),
    ensures
        rat_finite(rat_div(rat_mul(a, b), a)),
        same_ratio(rat_div(rat_mul(a, b), a), b),
{
    let an = a.n as int;
    let ad = a.d as int;
    let bn = b.n as int;
    let bd = b.d as int;
    let c = rat_mul(a, b);
    let cn = c.n as int;
    let cd = c.d as int;
    assert((cn * ad) * bd == bn * (cd * an) && cd * an != 0) by (nonlinear_arith)
        requires
            cn == an * bn,
            cd == ad * bd,
            ad != 0,
            bd != 0,
            an != 0,
    ;
}

proof fn lemma_rat_mul_recover_a(a: Rat, b: Rat)
    requires
        rat_finite(a),
        rat_finite(b),
        b.n != 0,
        mul_fits(a, b),
        div_fits(rat_mul(a, b), b),
    ensures
        rat_finite(rat_div(rat_mul(a, b), b)),
        same_ratio(rat_div(rat_mul(a, b), b), a),
{
    let an = a.n as int;
    let ad = a.d as int;
    let bn = b.n as int;
    let bd = b.d as int;
    let c = rat_mul(a, b);
    let cn = c.n as int;
    let cd = c.d as int;
    assert((cn * bd) * ad == an * (cd * bn) && cd * bn != 0) by (nonlinear_arith)
        requires
            cn == an * bn,
            cd == ad * bd,
            ad != 0,
            bd != 0,
            bn != 0,
    ;
}

/// Subtracting an exactly computed difference from the minuend recovers the
/// subtrahend as the same rational.
proof fn lemma_rat_sub_recover_b(a: Rat, b: Rat)
    requires
        rat_finite(a),
        rat_finite(b),
        sub_fits(a, b),
        sub_fits(a, rat_sub(a, b)),
    ensures
        rat_finite(rat_sub(a, rat_sub(a, b))),
        same_ratio(rat_sub(a, rat_sub(a, b)), b),
{
    let an = a.n as int;
    let ad = a.d as int;
    let bn = b.n as int;
    let bd = b.d as int;
    let c = rat_sub(a, b);
    let cn = c.n as int;
    let cd = c.d as int;
    assert((an * cd - cn * ad) * bd == bn * (ad * cd) && ad * cd != 0) by (nonlinear_arith)
        requires
            cn == an * bd - bn * ad,
            cd == ad * bd,
            ad != 0,
            bd != 0,
    ;
}

/// Adding the subtrahend to an exactly computed difference recovers the
/// minuend as the same rational.
proof fn lemma_rat_sub_recover_a(a: Rat, b: Rat)
    requires
        rat_finite(a),
        rat_finite(b),
        sub_fits(a, b),
        add_fits(rat_sub(a, b), b),
    ensures
        rat_finite(rat_add(rat_sub(a, b), b)),
        same_ratio(rat_add(rat_sub(a, b), b), a),
{
    let an = a.n as int;
    let ad = a.d as int;
    let bn = b.n as int;
    let bd = b.d as int;
    let c = rat_sub(a, b);
    let cn = c.n as int;
    let cd = c.d as int;
    assert((cn * bd + bn * cd) * ad == an * (cd * bd) && cd * bd != 0) by (nonlinear_arith)
        requires
            cn == an * bd - bn * ad,
            cd == ad * bd,
            ad != 0,
            bd != 0,
    ;
}

/// Dividing the dividend by an exactly computed quotient recovers the
/// divisor as the same rational.
proof fn lemma_rat_div_recover_b(a: Rat, b: Rat)
    requires
        rat_finite(a),
        rat_finite(b),
        a.n != 0,
        b.n != 0,
        div_fits(a, b),
        div_fits(a, rat_div(a, b)),
    ensures
        rat_finite(rat_div(a, rat_div(a, b))),
        same_ratio(rat_div(a, rat_div(a, b)), b),
{
    let an = a.n as int;
    let ad = a.d as int;
    let bn = b.n as int;
    let bd = b.d as int;
    let c = rat_div(a, b);
    let cn = c.n as int;
    let cd = c.d as int;
    assert((an * cd) * bd == bn * (ad * cn) && ad * cn != 0) by (nonlinear_arith)
        requires
            cn == an * bd,
            cd == ad * bn,
            ad != 0,
            bd != 0,
            an != 0,
    ;
}

/// Multiplying an exactly computed quotient by the divisor recovers the
/// dividend as the same rational.
proof fn lemma_rat_div_recover_a(a: Rat, b: Rat)
    requires
        rat_finite(a),
        rat_finite(b),
        b.n != 0,
        div_fits(a, b),
        mul_fits(rat_div(a, b), b),
    ensures
        rat_finite(rat_mul(rat_div(a, b), b)),
        same_ratio(rat_mul(rat_div(a, b), b), a),
{
    let an = a.n as int;
    let ad = a.d as int;
    let bn = b.n as int;
    let bd = b.d as int;
    let c = rat_div(a, b);
    let cn = c.n as int;
    let cd = c.d as int;
    assert((cn * bn) * ad == an * (cd * bd) && cd * bd != 0) by (nonlinear_arith)
        requires
            cn == an * bd,
            cd == ad * bn,
            ad != 0,
            bd != 0,
            bn != 0,
    ;
}

/// Law: commutative round trip for addition. Solving `a + b = ?` fills `c`
/// with the exact sum; solving `a + ? = c` then recovers `b`, and solving
/// `? + b = c` recovers `a`, each as the same rational number, tagged as an
/// output. Holds for all finite `a` and `b` whose intermediate components
/// stay representable.
pub proof fn lemma_round_trip_add(a: Rat, b: Rat)
    requires
        rat_finite(a),
        rat_finite(b),
        add_fits(a, b),
        sub_fits(rat_add(a, b), a),
        sub_fits(rat_add(a, b), b),
    ensures
        ({
            let e1 = (Equation { op: Op::Add, a: Num::In(a), b: Num::In(b), c: Num::Missing });
            let cv = derived_value(e1);
            let e2 = (Equation { op: Op::Add, a: Num::In(a), b: Num::Missing, c: Num::Out(cv) });
            let e3 = (Equation { op: Op::Add, a: Num::Missing, b: Num::In(b), c: Num::Out(cv) });
            &&& exactly_two_present(e1) && solved(e1).c == Num::Out(rat_add(a, b))
            &&& exactly_two_present(e2) && rat_finite(derived_value(e2)) && same_ratio(
                derived_value(e2),
                b,
            )
            &&& exactly_two_present(e3) && rat_finite(derived_value(e3)) && same_ratio(
                derived_value(e3),
                a,
            )
        }),
{
    lemma_rat_add_recover_b(a, b);
    lemma_rat_add_recover_a(a, b);
}

/// Law: commutative round trip for multiplication, as for addition; the
/// factor divided back out must additionally be nonzero.
pub proof fn lemma_round_trip_mul(a: Rat, b: Rat)
    requires
        rat_finite(a),
        rat_finite(b),
        a.n != 0,
        b.n != 0,
        mul_fits(a, b),
        div_fits(rat_mul(a, b), a),
        div_fits(rat_mul(a, b), b),
    ensures
        ({
            let e1 = (Equation { op: Op::Mul, a: Num::In(a), b: Num::In(b), c: Num::Missing });
            let cv = derived_value(e1);
            let e2 = (Equation { op: Op::Mul, a: Num::In(a), b: Num::Missing, c: Num::Out(cv) });
            let e3 = (Equation { op: Op::Mul, a: Num::Missing, b: Num::In(b), c: Num::Out(cv) });
            &&& exactly_two_present(e1) && solved(e1).c == Num::Out(rat_mul(a, b))
            &&& exactly_two_present(e2) && rat_finite(derived_value(e2)) && same_ratio(
                derived_value(e2),
                b,
            )
            &&& exactly_two_present(e3) && rat_finite(derived_value(e3)) && same_ratio(
                derived_value(e3),
                a,
            )
        }),
{
    lemma_rat_mul_recover_b(a, b);
    lemma_rat_mul_recover_a(a, b);
}

/// Law: round trip for subtraction, accounting for operand order. Solving
/// `a - b = ?` fills `c` with the exact difference; `a - ? = c` recovers
/// `b` as `a - c`, and `? - b = c` recovers `a` as `c + b`.
pub proof fn lemma_round_trip_sub(a: Rat, b: Rat)
    requires
        rat_finite(a),
        rat_finite(b),
        sub_fits(a, b),
        sub_fits(a, rat_sub(a, b)),
        add_fits(rat_sub(a, b), b),
    ensures
        ({
            let e1 = (Equation { op: Op::Sub, a: Num::In(a), b: Num::In(b), c: Num::Missing });
            let cv = derived_value(e1);
            let e2 = (Equation { op: Op::Sub, a: Num::In(a), b: Num::Missing, c: Num::Out(cv) });
            let e3 = (Equation { op: Op::Sub, a: Num::Missing, b: Num::In(b), c: Num::Out(cv) });
            &&& exactly_two_present(e1) && solved(e1).c == Num::Out(rat_sub(a, b))
            &&& exactly_two_present(e2) && rat_finite(derived_value(e2)) && same_ratio(
                derived_value(e2),
                b,
            )
            &&& exactly_two_present(e3) && rat_finite(derived_value(e3)) && same_ratio(
                derived_value(e3),
                a,
            )
        }),
{
    lemma_rat_sub_recover_b(a, b);
    lemma_rat_sub_recover_a(a, b);
}

/// Law: round trip for division, accounting for operand order. Solving
/// `a / b = ?` fills `c` with the exact quotient; `a / ? = c` recovers `b`
/// as `a / c`, and `? / b = c` recovers `a` as `c * b`. The dividend and
/// divisor must be nonzero.
pub proof fn lemma_round_trip_div(a: Rat, b: Rat)
    requires
        rat_finite(a),
        rat_finite(b),
        a.n != 0,
        b.n != 0,
        div_fits(a, b),
        div_fits(a, rat_div(a, b)),
        mul_fits(rat_div(a, b), b),
    ensures
        ({
            let e1 = (Equation { op: Op::Div, a: Num::In(a), b: Num::In(b), c: Num::Missing });
            let cv = derived_value(e1);
            let e2 = (Equation { op: Op::Div, a: Num::In(a), b: Num::Missing, c: Num::Out(cv) });
            let e3 = (Equation { op: Op::Div, a: Num::Missing, b: Num::In(b), c: Num::Out(cv) });
            &&& exactly_two_present(e1) && solved(e1).c == Num::Out(rat_div(a, b))
            &&& exactly_two_present(e2) && rat_finite(derived_value(e2)) && same_ratio(
                derived_value(e2),
                b,
            )
            &&& exactly_two_present(e3) && rat_finite(derived_value(e3)) && same_ratio(
                derived_value(e3),
                a,
            )
        }),
{
    lemma_rat_div_recover_b(a, b);
    lemma_rat_div_recover_a(a, b);
}

/// Law: filling in the missing quantities is idempotent. If the whole
/// fixpoint operation succeeds on a record, then running it again on the
/// result, with no new input, succeeds and returns that same record.
pub proof fn lemma_fill_idempotent(c: Calculation)
    requires
        fill_spec(c) is Ok,
    ensures
        fill_spec(fill_spec(c)->Ok_0) == fill_spec(c),
{
    let base = clear_spec(c);
    let r1 = fill_spec(c)->Ok_0;
    lemma_run_rounds_evolves(base, ROUND_COUNT as nat);
    assert forall|q: Quantity| #[trigger] q_get(clear_spec(r1), q) == q_get(base, q) by {
        lemma_clear_get(r1, q);
        lemma_clear_get(c, q);
        assert(q_get(base, q) == clear_num(q_get(c, q)));
        assert(q_get(r1, q) == q_get(base, q) || (q_get(base, q) is Missing && q_get(r1, q)
            is Out));
    }
    lemma_record_ext(clear_spec(r1), base);
}

} // verus!

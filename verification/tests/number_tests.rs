use motorcalc::error::Error;
use motorcalc::error::ErrorKind;
use motorcalc::number::Num;
use motorcalc::operation::Op;
use motorcalc::rat::Rat;

#[test]
fn rat_arithmetic_is_exact() {
    let half = Rat::new(1, 2);
    let third = Rat::new(1, 3);
    assert_eq!(half.add(third), Rat::new(5, 6));
    assert_eq!(half.sub(third), Rat::new(1, 6));
    assert_eq!(half.mul(third), Rat::new(1, 6));
    assert_eq!(half.div(third), Rat::new(3, 2));
}

#[test]
fn rat_same_value_compares_ratios() {
    assert!(Rat::new(20, 10).same_value(&Rat::new(2, 1)));
    assert!(Rat::new(-3, 6).same_value(&Rat::new(1, -2)));
    assert!(!Rat::new(1, 2).same_value(&Rat::new(2, 1)));
}

#[test]
fn rat_division_by_zero_is_non_finite() {
    let q = Rat::new(5, 1).div(Rat::new(0, 1));
    assert!(!q.is_finite());
    // non-finite values keep flowing through arithmetic
    let sum = q.add(Rat::new(1, 2));
    assert!(!sum.is_finite());
}

#[test]
fn rat_overflow_clamps_to_non_finite() {
    let huge = Rat::new(i64::MAX, 1);
    let product = huge.mul(Rat::new(2, 1));
    assert!(!product.is_finite());
}

#[test]
fn num_predicates_follow_the_tag() {
    let input = Num::In(Rat::new(1, 1));
    let output = Num::Out(Rat::new(1, 1));
    let absent = Num::Missing;
    assert!(input.is_input() && !input.is_output() && !input.is_none() && input.is_num());
    assert!(!output.is_input() && output.is_output() && !output.is_none() && output.is_num());
    assert!(!absent.is_input() && !absent.is_output() && absent.is_none() && !absent.is_num());
}

#[test]
fn num_as_option_exposes_the_value() {
    assert_eq!(Num::In(Rat::new(7, 2)).as_option(), Some(Rat::new(7, 2)));
    assert_eq!(Num::Out(Rat::new(7, 2)).as_option(), Some(Rat::new(7, 2)));
    assert_eq!(Num::Missing.as_option(), None);
}

#[test]
fn num_arithmetic_absorbs_absence() {
    let v = Num::In(Rat::new(1, 1));
    assert_eq!(v.add(Num::Missing), Num::Missing);
    assert_eq!(Num::Missing.mul(v), Num::Missing);
    assert_eq!(v.div(Num::Missing), Num::Missing);
    assert_eq!(Num::Missing.sub(Num::Missing), Num::Missing);
}

#[test]
fn num_arithmetic_keeps_left_tag() {
    let input = Num::In(Rat::new(6, 1));
    let output = Num::Out(Rat::new(2, 1));
    assert_eq!(input.mul(output), Num::In(Rat::new(12, 1)));
    assert_eq!(output.mul(input), Num::Out(Rat::new(12, 1)));
    assert_eq!(input.sub(output), Num::In(Rat::new(4, 1)));
    assert_eq!(output.div(input), Num::Out(Rat::new(2, 6)));
}

#[test]
fn op_metadata() {
    assert!(Op::Add.is_add() && Op::Sub.is_sub() && Op::Mul.is_mul() && Op::Div.is_div());
    assert!(Op::Add.is_commutative());
    assert!(Op::Mul.is_commutative());
    assert!(!Op::Sub.is_commutative());
    assert!(!Op::Div.is_commutative());
    assert_eq!(Op::Add.inv(), Op::Sub);
    assert_eq!(Op::Sub.inv(), Op::Add);
    assert_eq!(Op::Mul.inv(), Op::Div);
    assert_eq!(Op::Div.inv(), Op::Mul);
}

#[test]
fn op_calc_applies_the_operator() {
    let a = Rat::new(3, 1);
    let b = Rat::new(2, 1);
    assert_eq!(Op::Add.calc(a, b), Rat::new(5, 1));
    assert_eq!(Op::Sub.calc(a, b), Rat::new(1, 1));
    assert_eq!(Op::Mul.calc(a, b), Rat::new(6, 1));
    assert_eq!(Op::Div.calc(a, b), Rat::new(3, 2));
}

#[test]
fn error_new_keeps_kind_and_description() {
    let e = Error::new(ErrorKind::Underconstrained, "at least one more value is needed");
    match e.kind {
        ErrorKind::Underconstrained => (),
        _ => panic!("wrong kind"),
    }
    assert_eq!(e.description, "at least one more value is needed");
}

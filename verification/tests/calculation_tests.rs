use motorcalc::calculation::Calculation;
use motorcalc::calculation::Quantity;
use motorcalc::error::ErrorKind;
use motorcalc::number::Num;
use motorcalc::rat::Rat;

#[test]
fn test_calculation1() {
    let first = Rat::new(3, 2);
    let second = Rat::new(7, 5);

    let mut calc1 = Calculation::new();
    calc1.u = Num::In(first);
    calc1.i = Num::In(second);
    assert_eq!(calc1.try_fill_missing().unwrap().p_in.num(), second.mul(first));

    let mut calc2 = Calculation::new();
    calc2.u = Num::In(first);
    calc2.p_in = Num::In(second);
    assert_eq!(calc2.try_fill_missing().unwrap().i.num(), second.div(first));

    let mut calc3 = Calculation::new();
    calc3.i = Num::In(first);
    calc3.p_in = Num::In(second);
    assert_eq!(calc3.try_fill_missing().unwrap().u.num(), second.div(first));

    let mut calc4 = Calculation::new();
    calc4.u = Num::In(first);
    calc4.i = Num::In(first);
    calc4.p_in = Num::In(second);
    match calc4.try_fill_missing().err().unwrap().kind {
        ErrorKind::Overconstrained => (),
        _ => panic!("Expected Error with ErrorKind Overconstrained"),
    }
}

#[test]
fn fills_power_from_voltage_and_current() {
    let mut calc = Calculation::new();
    calc.u = Num::In(Rat::new(10, 1));
    calc.i = Num::In(Rat::new(2, 1));
    let solved = calc.try_fill_missing().unwrap();
    assert_eq!(solved.p_in, Num::Out(Rat::new(20, 1)));
}

#[test]
fn fills_current_from_voltage_and_power() {
    let mut calc = Calculation::new();
    calc.u = Num::In(Rat::new(10, 1));
    calc.p_in = Num::In(Rat::new(20, 1));
    let solved = calc.try_fill_missing().unwrap();
    assert!(solved.i.is_output());
    assert!(solved.i.num().same_value(&Rat::new(2, 1)));
}

#[test]
fn overconstrained_power_equation_fails() {
    let mut calc = Calculation::new();
    calc.u = Num::In(Rat::new(10, 1));
    calc.i = Num::In(Rat::new(10, 1));
    calc.p_in = Num::In(Rat::new(5, 1));
    match calc.try_fill_missing().err().unwrap().kind {
        ErrorKind::Overconstrained => (),
        _ => panic!("Expected Error with ErrorKind Overconstrained"),
    }
}

#[test]
fn empty_record_solves_to_empty_record() {
    let calc = Calculation::new();
    let solved = calc.try_fill_missing().unwrap();
    assert!(solved.u.is_none());
    assert!(solved.i.is_none());
    assert!(solved.p_in.is_none());
    assert_eq!(solved, Calculation::new());
}

#[test]
fn try_fill_missing_is_idempotent() {
    let mut calc = Calculation::new();
    calc.u = Num::In(Rat::new(10, 1));
    calc.i = Num::In(Rat::new(2, 1));
    calc.eta_m = Num::In(Rat::new(50, 1));
    calc.eta_t = Num::In(Rat::new(80, 1));
    let once = calc.try_fill_missing().unwrap();
    let twice = once.try_fill_missing().unwrap();
    assert_eq!(once, twice);
}

#[test]
fn try_fill_missing_preserves_inputs() {
    let mut calc = Calculation::new();
    calc.u = Num::In(Rat::new(10, 1));
    calc.i = Num::In(Rat::new(2, 1));
    calc.eta_m = Num::In(Rat::new(50, 1));
    calc.m_m = Num::In(Rat::new(1, 1));
    let solved = calc.try_fill_missing().unwrap();
    assert_eq!(solved.u, Num::In(Rat::new(10, 1)));
    assert_eq!(solved.i, Num::In(Rat::new(2, 1)));
    assert_eq!(solved.eta_m, Num::In(Rat::new(50, 1)));
    assert_eq!(solved.m_m, Num::In(Rat::new(1, 1)));
}

#[test]
fn fills_motor_power_through_efficiency() {
    let mut calc = Calculation::new();
    calc.u = Num::In(Rat::new(10, 1));
    calc.i = Num::In(Rat::new(2, 1));
    calc.eta_m = Num::In(Rat::new(50, 1));
    let solved = calc.try_fill_missing().unwrap();
    // P_in = 20, P_M = P_in * 50% = 10, P_ML = P_in - P_M = 10
    assert!(solved.p_in.num().same_value(&Rat::new(20, 1)));
    assert!(solved.p_m.is_output());
    assert!(solved.p_m.num().same_value(&Rat::new(10, 1)));
    assert!(solved.p_m_l.is_output());
    assert!(solved.p_m_l.num().same_value(&Rat::new(10, 1)));
}

#[test]
fn fills_efficiency_from_both_powers() {
    let mut calc = Calculation::new();
    calc.p_in = Num::In(Rat::new(20, 1));
    calc.p_m = Num::In(Rat::new(10, 1));
    let solved = calc.try_fill_missing().unwrap();
    assert!(solved.eta_m.is_output());
    assert!(solved.eta_m.num().same_value(&Rat::new(50, 1)));
}

#[test]
fn fills_speed_from_power_and_torque() {
    let mut calc = Calculation::new();
    calc.p_m = Num::In(Rat::new(71, 1));
    calc.m_m = Num::In(Rat::new(1, 1));
    let solved = calc.try_fill_missing().unwrap();
    // n_M = (P_M / M_M) / (2 pi / 60), with 2 pi / 60 as 71/678
    assert!(solved.n_m.is_output());
    assert!(solved.n_m.num().same_value(&Rat::new(678, 1)));
}

#[test]
fn fills_electrical_loss_from_current_and_resistance() {
    let mut calc = Calculation::new();
    calc.i = Num::In(Rat::new(3, 1));
    calc.r_a = Num::In(Rat::new(2, 1));
    let solved = calc.try_fill_missing().unwrap();
    // P_ML_el = I^2 * R_A = 18
    assert!(solved.p_m_l_el.is_output());
    assert!(solved.p_m_l_el.num().same_value(&Rat::new(18, 1)));
}

#[test]
fn chains_derived_values_across_rounds() {
    let mut calc = Calculation::new();
    calc.u = Num::In(Rat::new(10, 1));
    calc.i = Num::In(Rat::new(2, 1));
    calc.eta_m = Num::In(Rat::new(50, 1));
    calc.eta_t = Num::In(Rat::new(80, 1));
    let solved = calc.try_fill_missing().unwrap();
    // P_in = 20 feeds P_M = 10, which feeds P_T = 8 and P_TL = 2.
    assert!(solved.p_t.is_output());
    assert!(solved.p_t.num().same_value(&Rat::new(8, 1)));
    assert!(solved.p_t_l.is_output());
    assert!(solved.p_t_l.num().same_value(&Rat::new(2, 1)));
}

#[test]
fn clear_output_resets_only_outputs() {
    let mut calc = Calculation::new();
    calc.u = Num::In(Rat::new(10, 1));
    calc.i = Num::In(Rat::new(2, 1));
    let solved = calc.try_fill_missing().unwrap();
    assert!(solved.p_in.is_output());
    let cleared = solved.clear_output();
    assert_eq!(cleared.u, Num::In(Rat::new(10, 1)));
    assert_eq!(cleared.i, Num::In(Rat::new(2, 1)));
    assert!(cleared.p_in.is_none());
    assert_eq!(cleared, calc);
}

#[test]
fn calculate_runs_a_single_pass() {
    let mut calc = Calculation::new();
    calc.u = Num::In(Rat::new(10, 1));
    calc.i = Num::In(Rat::new(2, 1));
    let once = calc.calculate().unwrap();
    assert!(once.p_in.is_output());
    assert!(once.p_in.num().same_value(&Rat::new(20, 1)));
}

#[test]
fn get_and_set_round_trip() {
    let calc = Calculation::new();
    let with_u = calc.set(Quantity::U, Num::In(Rat::new(4, 1)));
    assert_eq!(with_u.get(Quantity::U), Num::In(Rat::new(4, 1)));
    assert_eq!(with_u.u, Num::In(Rat::new(4, 1)));
    assert!(with_u.get(Quantity::I).is_none());
}

#[test]
fn motor_pass_solves_motor_equations_only() {
    let mut calc = Calculation::new();
    calc.u = Num::In(Rat::new(10, 1));
    calc.i = Num::In(Rat::new(2, 1));
    calc.p_m = Num::In(Rat::new(10, 1));
    calc.eta_t = Num::In(Rat::new(80, 1));
    let solved = calc.try_fill_missing_motor().unwrap();
    assert!(solved.p_in.is_output());
    assert!(solved.p_in.num().same_value(&Rat::new(20, 1)));
    // the transmission equations are not part of the motor pass
    assert!(solved.p_t.is_none());
}

#[test]
fn motor_pass_propagates_input_overconstraint() {
    let mut calc = Calculation::new();
    calc.u = Num::In(Rat::new(10, 1));
    calc.i = Num::In(Rat::new(10, 1));
    calc.p_in = Num::In(Rat::new(5, 1));
    match calc.try_fill_missing_motor().err().unwrap().kind {
        ErrorKind::Overconstrained => (),
        _ => panic!("Expected Error with ErrorKind Overconstrained"),
    }
}

#[test]
fn fills_total_loss_from_both_losses() {
    let mut calc = Calculation::new();
    calc.i = Num::In(Rat::new(3, 1));
    calc.r_a = Num::In(Rat::new(2, 1));
    calc.p_m_l_mech = Num::In(Rat::new(2, 1));
    let solved = calc.try_fill_missing().unwrap();
    // P_ML_el = I^2 * R_A = 18, P_ML = P_ML_el + P_ML_mech = 20
    assert!(solved.p_m_l.is_output());
    assert!(solved.p_m_l.num().same_value(&Rat::new(20, 1)));
}

#[test]
fn fills_transmission_speed_from_power_and_torque() {
    let mut calc = Calculation::new();
    calc.p_t = Num::In(Rat::new(71, 1));
    calc.m_t = Num::In(Rat::new(2, 1));
    let solved = calc.try_fill_missing().unwrap();
    // n_T = (P_T / M_T) / (2 pi / 60), with 2 pi / 60 as 71/678
    assert!(solved.n_t.is_output());
    assert!(solved.n_t.num().same_value(&Rat::new(339, 1)));
}

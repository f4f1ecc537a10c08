use flight_control::fixed::{clamp_to, div_toward_zero, MICRO, MICRO_NANOS, NANOS_PER_SECOND};
use flight_control::regulator::{Correction, Regulator, Tuning};

fn reference() -> Tuning {
    Tuning {
        kp: 70_000_000,
        ki: 500_000,
        kd: 20_000_000,
        setpoint: 0,
        i_limit: 10_000_000,
        d_limit: 20_000_000,
        output_limit: 40_000_000,
    }
}

#[test]
fn scales_are_millionths_and_nanoseconds() {
    assert_eq!(MICRO, 1_000_000);
    assert_eq!(NANOS_PER_SECOND, 1_000_000_000);
    assert_eq!(MICRO_NANOS, MICRO as u64 * NANOS_PER_SECOND);
}

#[test]
fn division_rounds_toward_zero() {
    assert_eq!(div_toward_zero(7, 2), 3);
    assert_eq!(div_toward_zero(-7, 2), -3);
    assert_eq!(div_toward_zero(-1, 1_000_000), 0);
    assert_eq!(div_toward_zero(0, 5), 0);
    assert_eq!(div_toward_zero(i128::MAX, 1), i128::MAX);
    assert_eq!(div_toward_zero(i128::MIN + 1, 1), i128::MIN + 1);
}

#[test]
fn clamp_is_symmetric() {
    assert_eq!(clamp_to(5, 10), 5);
    assert_eq!(clamp_to(-5, 10), -5);
    assert_eq!(clamp_to(11, 10), 10);
    assert_eq!(clamp_to(-11, 10), -10);
    assert_eq!(clamp_to(i128::MAX, u32::MAX), u32::MAX as i64);
    assert_eq!(clamp_to(i128::MIN, u32::MAX), -(u32::MAX as i64));
    assert_eq!(clamp_to(3, 0), 0);
}

#[test]
fn new_regulator_remembers_nothing() {
    let regulator = Regulator::new(reference());
    assert_eq!(regulator.integral_term(), 0);
    assert_eq!(regulator.last_error(), 0);
    assert_eq!(regulator.get_tuning(), reference());
}

#[test]
fn init_measurement_sets_the_error_only() {
    let mut regulator = Regulator::new(Tuning { setpoint: 250_000, ..reference() });
    regulator.init_measurement(100_000);
    assert_eq!(regulator.last_error(), 150_000);
    assert_eq!(regulator.integral_term(), 0);
}

#[test]
fn one_step_of_the_reference_tuning() {
    let mut regulator = Regulator::new(reference());
    regulator.init_measurement(100_000);
    let step = regulator.next_control_output(50_000, 50_000_000).unwrap();
    assert_eq!(
        step,
        Correction {
            proportional: -3_500_000,
            integral: -1_250,
            derivative: 20_000_000,
            output: 16_498_750,
        }
    );
    assert_eq!(regulator.integral_term(), -1_250);
    assert_eq!(regulator.last_error(), -50_000);
}

#[test]
fn unclamped_derivative_and_accumulating_integral() {
    let mut regulator = Regulator::new(reference());
    regulator.init_measurement(-10_000);
    // error 0.01 -> 0.02 over 1 s: p = 1.4, i = 0.5 * 0.02 * 1 = 0.01, d = 20 * 0.01 / 1 = 0.2
    let step = regulator.next_control_output(-20_000, 1_000_000_000).unwrap();
    assert_eq!(
        step,
        Correction {
            proportional: 1_400_000,
            integral: 10_000,
            derivative: 200_000,
            output: 1_610_000,
        }
    );
    // error 0.02 -> 0.02 over 0.5 s: i grows by 0.5 * 0.02 * 0.5 = 0.005, d = 0
    let step = regulator.next_control_output(-20_000, 500_000_000).unwrap();
    assert_eq!(
        step,
        Correction { proportional: 1_400_000, integral: 15_000, derivative: 0, output: 1_415_000 }
    );
}

#[test]
fn zero_time_step_computes_nothing() {
    let mut regulator = Regulator::new(reference());
    regulator.init_measurement(100_000);
    regulator.next_control_output(50_000, 50_000_000).unwrap();
    assert_eq!(regulator.next_control_output(-700_000, 0), None);
    assert_eq!(regulator.integral_term(), -1_250);
    assert_eq!(regulator.last_error(), -50_000);
}

#[test]
fn terms_round_toward_zero() {
    let tuning = Tuning {
        kp: 1,
        ki: 1,
        kd: 1,
        setpoint: 0,
        i_limit: 1_000,
        d_limit: 1_000,
        output_limit: 1_000,
    };
    let mut regulator = Regulator::new(tuning);
    // kp * error = 0.000001 * -0.999999: less than one millionth in magnitude.
    let step = regulator.next_control_output(999_999, 1_000_000_000).unwrap();
    assert_eq!(step.proportional, 0);
    assert_eq!(step.integral, 0);
    assert_eq!(step.derivative, 0);
    assert_eq!(step.output, 0);
    let mut regulator = Regulator::new(tuning);
    let step = regulator.next_control_output(-3_000_000, 1_000_000).unwrap();
    // d = 0.000001 * 3 / 0.001 s = 0.003
    assert_eq!(step.proportional, 3);
    assert_eq!(step.integral, 0);
    assert_eq!(step.derivative, 1_000);
    assert_eq!(step.output, 1_000);
}

#[test]
fn every_term_is_within_its_limit() {
    let measurements = [0, 1, -1, 50_000, -50_000, 2_000_000, -2_000_000, i32::MAX, i32::MIN];
    let steps = [1u64, 1_000, 50_000_000, 1_000_000_000, u64::MAX];
    let tuning = reference();
    let mut regulator = Regulator::new(tuning);
    regulator.init_measurement(0);
    for m in measurements.iter() {
        for dt in steps.iter() {
            let step = regulator.next_control_output(*m, *dt).unwrap();
            assert!(step.integral.unsigned_abs() <= tuning.i_limit as u64);
            assert!(step.derivative.unsigned_abs() <= tuning.d_limit as u64);
            assert!(step.output.unsigned_abs() <= tuning.output_limit as u64);
            assert_eq!(regulator.integral_term(), step.integral);
            assert_eq!(regulator.last_error(), -(*m as i64));
        }
    }
}

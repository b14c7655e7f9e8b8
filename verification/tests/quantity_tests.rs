use eng_units::EngUnit;
use eng_units::LengthUnit;
use eng_units::MassUnit;
use eng_units::Rational;
use eng_units::TemperatureDeltaUnit;
use eng_units::TimeUnit;
use eng_units::Unit;

fn temperature_q(num: i128, den: i128, unit: TemperatureDeltaUnit) -> EngUnit {
    let mut q = EngUnit::new();
    q.value = Rational::new(num, den);
    q.temperature_count = 1;
    if unit == TemperatureDeltaUnit::NoUnit {
        q.temperature_count = 0;
    }
    q.temperature_unit = unit;
    q
}

#[test]
fn new_eng_unt() {
    let new_unit = EngUnit::new();
    assert_eq!(0, new_unit.length_count);
    assert_eq!(0, new_unit.time_count);
    assert_eq!(0, new_unit.mass_count);
    assert_eq!(0, new_unit.temperature_count);
    assert_eq!(0, new_unit.electric_current_count);
    assert_eq!(0, new_unit.luminous_intensity_count);
    assert_eq!(0, new_unit.amount_of_substance_count);
    assert_eq!(false, new_unit.has_units());
}

#[test]
fn multiply_numerator_check() {
    let unit_1 = EngUnit::new();
    let mut unit_2 = EngUnit::new();
    unit_2.length_count = 1;
    unit_2.mass_count = 1;
    unit_2.time_count = 1;
    unit_2.temperature_count = 1;
    unit_2.electric_current_count = 1;
    unit_2.luminous_intensity_count = 1;
    unit_2.amount_of_substance_count = 1;

    let unit3 = unit_1.multiply_units(&unit_2);
    assert_eq!(1, unit3.length_count);
    assert_eq!(1, unit3.mass_count);
    assert_eq!(1, unit3.time_count);
    assert_eq!(1, unit3.temperature_count);
    assert_eq!(1, unit3.electric_current_count);
    assert_eq!(1, unit3.luminous_intensity_count);
    assert_eq!(1, unit3.amount_of_substance_count);
    assert_eq!(true, unit3.has_units());
}

#[test]
fn multiply_operator_numerator_check() {
    let unit_1 = EngUnit::new();
    let mut unit_2 = EngUnit::new();
    unit_2.length_count = 1;
    unit_2.mass_count = 1;
    unit_2.time_count = 1;
    unit_2.temperature_count = 1;
    unit_2.electric_current_count = 1;
    unit_2.luminous_intensity_count = 1;
    unit_2.amount_of_substance_count = 1;

    let unit3 = unit_1.multiply_units(&unit_2);
    assert_eq!(1, unit3.length_count);
    assert_eq!(1, unit3.mass_count);
    assert_eq!(1, unit3.time_count);
    assert_eq!(1, unit3.temperature_count);
    assert_eq!(1, unit3.electric_current_count);
    assert_eq!(1, unit3.luminous_intensity_count);
    assert_eq!(1, unit3.amount_of_substance_count);
    assert_eq!(true, unit3.has_units());
}

#[test]
fn multiply_denominator_check() {
    let unit_1 = EngUnit::new();
    let mut unit_2 = EngUnit::new();
    unit_2.length_count = -1;
    unit_2.mass_count = -1;
    unit_2.time_count = -1;
    unit_2.temperature_count = -1;
    unit_2.electric_current_count = -1;
    unit_2.luminous_intensity_count = -1;
    unit_2.amount_of_substance_count = -1;

    let unit3 = unit_1.multiply_units(&unit_2);
    assert_eq!(-1, unit3.length_count);
    assert_eq!(-1, unit3.mass_count);
    assert_eq!(-1, unit3.time_count);
    assert_eq!(-1, unit3.temperature_count);
    assert_eq!(-1, unit3.electric_current_count);
    assert_eq!(-1, unit3.luminous_intensity_count);
    assert_eq!(-1, unit3.amount_of_substance_count);
    assert_eq!(true, unit3.has_units());
}

#[test]
fn multiply_operator_denominator_check() {
    let unit_1 = EngUnit::new();
    let mut unit_2 = EngUnit::new();
    unit_2.length_count = -1;
    unit_2.mass_count = -1;
    unit_2.time_count = -1;
    unit_2.temperature_count = -1;
    unit_2.electric_current_count = -1;
    unit_2.luminous_intensity_count = -1;
    unit_2.amount_of_substance_count = -1;

    let unit3 = unit_1.multiply_units(&unit_2);
    assert_eq!(-1, unit3.length_count);
    assert_eq!(-1, unit3.mass_count);
    assert_eq!(-1, unit3.time_count);
    assert_eq!(-1, unit3.temperature_count);
    assert_eq!(-1, unit3.electric_current_count);
    assert_eq!(-1, unit3.luminous_intensity_count);
    assert_eq!(-1, unit3.amount_of_substance_count);
    assert_eq!(true, unit3.has_units());
}

#[test]
fn multiply_cancel_out_check() {
    let mut unit_1 = EngUnit::new();
    unit_1.length_count = -1;
    unit_1.mass_count = -1;
    unit_1.time_count = -1;
    unit_1.temperature_count = -1;
    unit_1.electric_current_count = -1;
    unit_1.luminous_intensity_count = -1;
    unit_1.amount_of_substance_count = -1;
    let mut unit_2 = EngUnit::new();
    unit_2.length_count = 1;
    unit_2.mass_count = 1;
    unit_2.time_count = 1;
    unit_2.temperature_count = 1;
    unit_2.electric_current_count = 1;
    unit_2.luminous_intensity_count = 1;
    unit_2.amount_of_substance_count = 1;

    let unit3 = unit_1.multiply_units(&unit_2);
    assert_eq!(0, unit3.length_count);
    assert_eq!(0, unit3.mass_count);
    assert_eq!(0, unit3.time_count);
    assert_eq!(0, unit3.temperature_count);
    assert_eq!(0, unit3.electric_current_count);
    assert_eq!(0, unit3.luminous_intensity_count);
    assert_eq!(0, unit3.amount_of_substance_count);
}

#[test]
fn multiply_operator_cancel_out_check() {
    let mut unit_1 = EngUnit::new();
    unit_1.length_count = -1;
    unit_1.mass_count = -1;
    unit_1.time_count = -1;
    unit_1.temperature_count = -1;
    unit_1.electric_current_count = -1;
    unit_1.luminous_intensity_count = -1;
    unit_1.amount_of_substance_count = -1;
    let mut unit_2 = EngUnit::new();
    unit_2.length_count = 1;
    unit_2.mass_count = 1;
    unit_2.time_count = 1;
    unit_2.temperature_count = 1;
    unit_2.electric_current_count = 1;
    unit_2.luminous_intensity_count = 1;
    unit_2.amount_of_substance_count = 1;

    let unit3 = unit_1.multiply_units(&unit_2);
    assert_eq!(0, unit3.length_count);
    assert_eq!(0, unit3.mass_count);
    assert_eq!(0, unit3.time_count);
    assert_eq!(0, unit3.temperature_count);
    assert_eq!(0, unit3.electric_current_count);
    assert_eq!(0, unit3.luminous_intensity_count);
    assert_eq!(0, unit3.amount_of_substance_count);
}

#[test]
fn temperature_unit_new() {
    let mut unit_1 = EngUnit::new();
    unit_1.value = Rational::new(100, 1);
    unit_1.temperature_count = 1;
    unit_1.temperature_unit = TemperatureDeltaUnit::C;
    let unit_2 = EngUnit::new();
    let unit_3 = unit_1.multiply_units(&unit_2);
    assert!(unit_3.value.equiv(&Rational::new(100, 1)));
    assert_eq!(1, unit_3.temperature_count);
    assert_eq!(TemperatureDeltaUnit::C, unit_3.temperature_unit);
    assert_eq!(true, unit_3.has_units())
}

#[test]
fn temperature_c_div_c() {
    let unit_1 = temperature_q(1, 1, TemperatureDeltaUnit::C);
    let unit_2 = temperature_q(2, 1, TemperatureDeltaUnit::C);
    let unit_3 = unit_1.divide_units(&unit_2);
    assert!(unit_3.value.equiv(&Rational::new(1, 2)));
    assert_eq!("0.50", unit_3.to_display_string());
    assert_eq!(0, unit_3.temperature_count);
    assert_eq!(TemperatureDeltaUnit::NoUnit, unit_3.temperature_unit);
    assert!(!unit_3.has_units())
}

#[test]
fn temperature_k_div_r() {
    let unit_1 = temperature_q(1, 1, TemperatureDeltaUnit::K);
    let unit_2 = temperature_q(1, 1, TemperatureDeltaUnit::R);
    let unit_3 = unit_1.divide_units(&unit_2);
    let expected = 9.0 / 5.0;
    let got = unit_3.value.num as f64 / unit_3.value.den as f64;
    assert!(f64::abs(expected - got) < 0.000001);
    assert_eq!("1.80", unit_3.to_display_string());
    assert_eq!(TemperatureDeltaUnit::NoUnit, unit_3.temperature_unit);
    assert!(!unit_3.has_units())
}

fn watts(num: i128, den: i128) -> EngUnit {
    let mut j = EngUnit::new();
    j.value = Rational::new(num, den);
    j.mass_count = 1;
    j.length_count = 2;
    j.time_count = -2;
    j.mass_unit = MassUnit::Kilogram;
    j.length_unit = LengthUnit::Meter;
    j.time_unit = TimeUnit::Second;
    let mut s = EngUnit::new();
    s.value = Rational::new(1, 1);
    s.time_count = 1;
    s.time_unit = TimeUnit::Second;
    j.divide_units(&s)
}

#[test]
fn power_unit_test_1() {
    let x = watts(1, 1);
    assert!(x.value.equiv(&Rational::new(1, 1)));
    assert!(x.has_units());
    assert_eq!("1.00 kg·m^2/s^3", x.to_display_string());
}

#[test]
fn power_unit_test_2() {
    let x = watts(1000, 1);
    assert!(x.value.equiv(&Rational::new(1000, 1)));
    assert!(x.has_units());
    assert_eq!("1000.00 kg·m^2/s^3", x.to_display_string());
}

#[test]
fn power_unit_test_3() {
    let x = watts(1000, 1);
    let y = watts(1, 1);
    let z = x.divide_units(&y);
    assert!(z.value.equiv(&Rational::new(1000, 1)));
    assert!(!z.has_units());
    assert_eq!("1000.00", z.to_display_string());
}

#[test]
fn same_units_check() {
    let a = watts(3, 1);
    let b = watts(5, 1);
    assert!(eng_units::same_units(&a, &b));
    let c = a.convert(Unit::Foot);
    assert!(!eng_units::same_units(&a, &c));
    let d = temperature_q(1, 1, TemperatureDeltaUnit::K);
    assert!(!eng_units::same_units(&a, &d));
}

use eng_units::EngUnit;
use eng_units::Rational;
use eng_units::Unit;

fn meter_1() -> EngUnit {
    EngUnit::from_unit(Rational::new(1, 1), Unit::Meter, 1)
}

fn value_f64(q: &EngUnit) -> f64 {
    q.value.num as f64 / q.value.den as f64
}

#[test]
fn length_change_m_to_m_val() {
    let mut unit = meter_1();
    unit.change_unit(Unit::Meter);
    assert!(unit.value.equiv(&Rational::new(1, 1)));
}

#[test]
fn length_conv_test_length_change_m_to_km_val() {
    let mut unit = meter_1();
    unit.change_unit(Unit::Kilometer);
    assert!(unit.value.equiv(&Rational::new(1, 1000)));
}

#[test]
fn length_conv_test_length_change_m_to_cm_val() {
    let mut unit = meter_1();
    unit.change_unit(Unit::Centimeter);
    assert!(unit.value.equiv(&Rational::new(100, 1)));
}

#[test]
fn length_conv_test_length_change_m_to_mm_val() {
    let mut unit = meter_1();
    unit.change_unit(Unit::Millimeter);
    assert!(unit.value.equiv(&Rational::new(1000, 1)));
}

#[test]
fn change_meter_to_feet() {
    let mut unit = meter_1();
    unit.change_unit(Unit::Foot);
    assert!(unit.value.equiv(&Rational::new(10000, 3048)));
    assert!(f64::abs(value_f64(&unit) - 1.0 / 0.3048) < 1e-12);
}

#[test]
fn change_meter_to_inch() {
    let mut unit = meter_1();
    unit.change_unit(Unit::Inch);
    assert!(unit.value.equiv(&Rational::new(120000, 3048)));
    assert!(f64::abs(value_f64(&unit) - 1.0 / 0.3048 * 12.0) < 1e-12);
}

#[test]
fn change_meter_to_yard() {
    let mut unit = meter_1();
    unit.change_unit(Unit::Yard);
    assert!(unit.value.equiv(&Rational::new(10000, 9144)));
    assert!(f64::abs(value_f64(&unit) - 1.0 / 0.3048 / 3.0) < 1e-12);
}

#[test]
fn change_meter_to_mile() {
    let mut unit = meter_1();
    unit.change_unit(Unit::Mile);
    assert!(unit.value.equiv(&Rational::new(10000, 16093440)));
    assert!(f64::abs(value_f64(&unit) - 1.0 / 0.3048 / 5280.0) < 1e-12);
}

#[test]
fn tests_length_change_m_to_km_val() {
    let mut unit = meter_1();
    unit.change_unit(Unit::Kilometer);
    assert!(unit.value.equiv(&Rational::new(1, 1000)));
}

#[test]
fn tests_length_change_m_to_cm_val() {
    let mut unit = meter_1();
    unit.change_unit(Unit::Centimeter);
    assert!(unit.value.equiv(&Rational::new(100, 1)));
}

#[test]
fn tests_length_change_m_to_mm_val() {
    let mut unit = meter_1();
    unit.change_unit(Unit::Millimeter);
    assert!(unit.value.equiv(&Rational::new(1000, 1)));
}

use eng_units::EngUnit;
use eng_units::Rational;
use eng_units::Unit;

fn meter_1() -> EngUnit {
    EngUnit::from_unit(Rational::new(1, 1), Unit::Meter, 1)
}

#[test]
fn add_one_i8() {
    let mut unit = meter_1();
    unit = unit.add_scalar(&Rational::from_int(1 as i8 as i128));
    assert!(unit.value.equiv(&Rational::new(2, 1)));
}

#[test]
fn add_one_i16() {
    let mut unit = meter_1();
    unit = unit.add_scalar(&Rational::from_int(1 as i16 as i128));
    assert!(unit.value.equiv(&Rational::new(2, 1)));
}

#[test]
fn add_one_i32() {
    let mut unit = meter_1();
    unit = unit.add_scalar(&Rational::from_int(1 as i32 as i128));
    assert!(unit.value.equiv(&Rational::new(2, 1)));
}

#[test]
fn add_one_i64() {
    let mut unit = meter_1();
    unit = unit.add_scalar(&Rational::from_int(1 as i64 as i128));
    assert!(unit.value.equiv(&Rational::new(2, 1)));
}

#[test]
fn add_one_u8() {
    let mut unit = meter_1();
    unit = unit.add_scalar(&Rational::from_int(1 as u8 as i128));
    assert!(unit.value.equiv(&Rational::new(2, 1)));
}

#[test]
fn add_one_u16() {
    let mut unit = meter_1();
    unit = unit.add_scalar(&Rational::from_int(1 as u16 as i128));
    assert!(unit.value.equiv(&Rational::new(2, 1)));
}

#[test]
fn add_one_u32() {
    let mut unit = meter_1();
    unit = unit.add_scalar(&Rational::from_int(1 as u32 as i128));
    assert!(unit.value.equiv(&Rational::new(2, 1)));
}

#[test]
fn add_one_u64() {
    let mut unit = meter_1();
    unit = unit.add_scalar(&Rational::from_int(1 as u64 as i128));
    assert!(unit.value.equiv(&Rational::new(2, 1)));
}

#[test]
fn add_one_f32() {
    let mut unit = meter_1();
    unit = unit.add_scalar(&Rational::from_int(1 as f32 as i128));
    assert!(unit.value.equiv(&Rational::new(2, 1)));
}

#[test]
fn add_one_f64() {
    let mut unit = meter_1();
    unit = unit.add_scalar(&Rational::from_int(1 as f64 as i128));
    assert!(unit.value.equiv(&Rational::new(2, 1)));
}

#[test]
fn sub_one_i8() {
    let mut unit = meter_1();
    unit = unit.subtract_scalar(&Rational::from_int(1 as i8 as i128));
    assert!(unit.value.equiv(&Rational::new(0, 1)));
}

#[test]
fn sub_one_i16() {
    let mut unit = meter_1();
    unit = unit.subtract_scalar(&Rational::from_int(1 as i16 as i128));
    assert!(unit.value.equiv(&Rational::new(0, 1)));
}

#[test]
fn sub_one_i32() {
    let mut unit = meter_1();
    unit = unit.subtract_scalar(&Rational::from_int(1 as i32 as i128));
    assert!(unit.value.equiv(&Rational::new(0, 1)));
}

#[test]
fn sub_one_i64() {
    let mut unit = meter_1();
    unit = unit.subtract_scalar(&Rational::from_int(1 as i64 as i128));
    assert!(unit.value.equiv(&Rational::new(0, 1)));
}

#[test]
fn sub_one_u8() {
    let mut unit = meter_1();
    unit = unit.subtract_scalar(&Rational::from_int(1 as u8 as i128));
    assert!(unit.value.equiv(&Rational::new(0, 1)));
}

#[test]
fn sub_one_u16() {
    let mut unit = meter_1();
    unit = unit.subtract_scalar(&Rational::from_int(1 as u16 as i128));
    assert!(unit.value.equiv(&Rational::new(0, 1)));
}

#[test]
fn sub_one_u32() {
    let mut unit = meter_1();
    unit = unit.subtract_scalar(&Rational::from_int(1 as u32 as i128));
    assert!(unit.value.equiv(&Rational::new(0, 1)));
}

#[test]
fn sub_one_u64() {
    let mut unit = meter_1();
    unit = unit.subtract_scalar(&Rational::from_int(1 as u64 as i128));
    assert!(unit.value.equiv(&Rational::new(0, 1)));
}

#[test]
fn sub_one_f32() {
    let mut unit = meter_1();
    unit = unit.subtract_scalar(&Rational::from_int(1 as f32 as i128));
    assert!(unit.value.equiv(&Rational::new(0, 1)));
}

#[test]
fn sub_one_f64() {
    let mut unit = meter_1();
    unit = unit.subtract_scalar(&Rational::from_int(1 as f64 as i128));
    assert!(unit.value.equiv(&Rational::new(0, 1)));
}


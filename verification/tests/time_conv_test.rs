use eng_units::EngUnit;
use eng_units::Rational;
use eng_units::TimeUnit;
use eng_units::Unit;

fn second_1() -> EngUnit {
    EngUnit::from_unit(Rational::new(1, 1), Unit::Second, 1)
}

#[test]
fn time_change_second_to_nanosecond() {
    let mut unit = second_1();
    unit.change_unit(Unit::Nanosecond);
    assert!(unit.value.equiv(&Rational::new(1000000000, 1)));
}

#[test]
fn time_change_second_to_microseconds() {
    let mut unit = second_1();
    unit.change_unit(Unit::Microsecond);
    assert!(unit.value.equiv(&Rational::new(1000000, 1)));
}

#[test]
fn time_change_second_to_milliseconds() {
    let mut unit = second_1();
    unit.change_unit(Unit::Millisecond);
    assert!(unit.value.equiv(&Rational::new(1000, 1)));
}

#[test]
fn time_change_second_to_seconds() {
    let mut unit = second_1();
    unit.change_unit(Unit::Second);
    assert!(unit.value.equiv(&Rational::new(1, 1)));
}

#[test]
fn time_change_second_to_minutes() {
    let mut unit = second_1();
    unit.change_unit(Unit::Minute);
    assert!(unit.value.equiv(&Rational::new(1, 60)));
}

#[test]
fn time_change_second_to_hours() {
    let mut unit = second_1();
    unit.change_unit(Unit::Hour);
    assert!(unit.value.equiv(&Rational::new(1, 3600)));
}

#[test]
fn minute_to_hour_factor() {
    let f = TimeUnit::conversion_factor(&TimeUnit::Minute, &TimeUnit::Hour);
    assert!(f.equiv(&Rational::new(1, 60)));
    let g = TimeUnit::conversion_factor(&TimeUnit::Hour, &TimeUnit::Minute);
    assert!(g.equiv(&Rational::new(60, 1)));
}

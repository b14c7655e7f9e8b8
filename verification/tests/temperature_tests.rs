use eng_units::AmountOfSubstanceUnit;
use eng_units::ElectricCurrentUnit;
use eng_units::EngUnit;
use eng_units::LengthUnit;
use eng_units::LuminousIntensityUnit;
use eng_units::MassUnit;
use eng_units::Rational;
use eng_units::TemperatureDeltaUnit;
use eng_units::TimeUnit;

fn temperature_q(num: i128, den: i128, unit: TemperatureDeltaUnit) -> EngUnit {
    let mut q = EngUnit::new();
    q.value = Rational::new(num, den);
    q.temperature_count = 1;
    if unit == TemperatureDeltaUnit::NoUnit {
        q.temperature_count = 0;
    }
    q.temperature_unit = unit;
    q
}

fn one() -> Rational {
    Rational::new(1, 1)
}

#[test]
fn conversion_r_to_r() {
    let val = TemperatureDeltaUnit::conversion_factor(
        &TemperatureDeltaUnit::R,
        &TemperatureDeltaUnit::R,
    );
    assert!(val.equiv(&one()));
}

#[test]
fn conversion_f_to_f() {
    let val = TemperatureDeltaUnit::conversion_factor(
        &TemperatureDeltaUnit::F,
        &TemperatureDeltaUnit::F,
    );
    assert!(val.equiv(&one()));
}

#[test]
fn conversion_k_to_k() {
    let val = TemperatureDeltaUnit::conversion_factor(
        &TemperatureDeltaUnit::K,
        &TemperatureDeltaUnit::K,
    );
    assert!(val.equiv(&one()));
}

#[test]
fn conversion_k_to_f() {
    let val = TemperatureDeltaUnit::conversion_factor(
        &TemperatureDeltaUnit::K,
        &TemperatureDeltaUnit::F,
    );
    assert!(val.equiv(&Rational::new(9, 5)));
}

#[test]
fn conversion_r_to_c() {
    let val = TemperatureDeltaUnit::conversion_factor(
        &TemperatureDeltaUnit::R,
        &TemperatureDeltaUnit::C,
    );
    assert!(val.equiv(&Rational::new(5, 9)));
}

#[test]
fn conversion_r_to_none() {
    let val = TemperatureDeltaUnit::conversion_factor(
        &TemperatureDeltaUnit::R,
        &TemperatureDeltaUnit::NoUnit,
    );
    assert!(val.equiv(&one()));
}

#[test]
fn conversion_f_to_none() {
    let val = TemperatureDeltaUnit::conversion_factor(
        &TemperatureDeltaUnit::F,
        &TemperatureDeltaUnit::NoUnit,
    );
    assert!(val.equiv(&one()));
}

#[test]
fn conversion_c_to_none() {
    let val = TemperatureDeltaUnit::conversion_factor(
        &TemperatureDeltaUnit::C,
        &TemperatureDeltaUnit::NoUnit,
    );
    assert!(val.equiv(&one()));
}

#[test]
fn conversion_c_to_f() {
    let val = TemperatureDeltaUnit::conversion_factor(
        &TemperatureDeltaUnit::C,
        &TemperatureDeltaUnit::F,
    );
    assert!(val.equiv(&Rational::new(9, 5)));
}

#[test]
fn conversion_f_to_c() {
    let val = TemperatureDeltaUnit::conversion_factor(
        &TemperatureDeltaUnit::F,
        &TemperatureDeltaUnit::C,
    );
    assert!(val.equiv(&Rational::new(5, 9)));
}

#[test]
fn conversion_c_to_k() {
    let val = TemperatureDeltaUnit::conversion_factor(
        &TemperatureDeltaUnit::C,
        &TemperatureDeltaUnit::K,
    );
    assert!(val.equiv(&one()));
}

#[test]
fn conversion_k_to_c() {
    let val = TemperatureDeltaUnit::conversion_factor(
        &TemperatureDeltaUnit::K,
        &TemperatureDeltaUnit::C,
    );
    assert!(val.equiv(&one()));
}

#[test]
fn conversion_k_to_r() {
    let val = TemperatureDeltaUnit::conversion_factor(
        &TemperatureDeltaUnit::K,
        &TemperatureDeltaUnit::R,
    );
    assert!(val.equiv(&Rational::new(9, 5)));
}

#[test]
fn conversion_r_to_k() {
    let val = TemperatureDeltaUnit::conversion_factor(
        &TemperatureDeltaUnit::R,
        &TemperatureDeltaUnit::K,
    );
    assert!(val.equiv(&Rational::new(5, 9)));
}

#[test]
fn conversion_c_to_r() {
    let val = TemperatureDeltaUnit::conversion_factor(
        &TemperatureDeltaUnit::C,
        &TemperatureDeltaUnit::R,
    );
    assert!(val.equiv(&Rational::new(9, 5)));
}

#[test]
fn conversion_f_to_k() {
    let val = TemperatureDeltaUnit::conversion_factor(
        &TemperatureDeltaUnit::F,
        &TemperatureDeltaUnit::K,
    );
    assert!(val.equiv(&Rational::new(5, 9)));
}

#[test]
fn conversion_f_to_r() {
    let val = TemperatureDeltaUnit::conversion_factor(
        &TemperatureDeltaUnit::F,
        &TemperatureDeltaUnit::R,
    );
    assert!(val.equiv(&one()));
}

#[test]
fn conversion_r_to_f() {
    let val = TemperatureDeltaUnit::conversion_factor(
        &TemperatureDeltaUnit::R,
        &TemperatureDeltaUnit::F,
    );
    assert!(val.equiv(&one()));
}

#[test]
fn from_is_none() {
    let val = TemperatureDeltaUnit::conversion_factor(
        &TemperatureDeltaUnit::NoUnit,
        &TemperatureDeltaUnit::K,
    );
    assert!(val.equiv(&one()));
}

#[test]
fn to_is_none() {
    let val = TemperatureDeltaUnit::conversion_factor(
        &TemperatureDeltaUnit::K,
        &TemperatureDeltaUnit::NoUnit,
    );
    assert!(val.equiv(&one()));
}

#[test]
fn both_are_none() {
    let val = TemperatureDeltaUnit::conversion_factor(
        &TemperatureDeltaUnit::NoUnit,
        &TemperatureDeltaUnit::NoUnit,
    );
    assert!(val.equiv(&one()));
}

#[test]
fn macro_create_temperature_1() {
    let unit = temperature_q(12345, 100, TemperatureDeltaUnit::C);
    assert!(unit.value.equiv(&Rational::new(12345, 100)));
    assert_eq!("123.45 °C", unit.to_display_string());
    assert_eq!(TimeUnit::NoUnit, unit.time_unit);
    assert_eq!(AmountOfSubstanceUnit::NoUnit, unit.amount_of_substance_unit);
    assert_eq!(ElectricCurrentUnit::NoUnit, unit.electric_current_unit);
    assert_eq!(LengthUnit::NoUnit, unit.length_unit);
    assert_eq!(LuminousIntensityUnit::NoUnit, unit.luminous_intensity_unit);
    assert_eq!(MassUnit::NoUnit, unit.mass_unit);
    assert_eq!(TemperatureDeltaUnit::C, unit.temperature_unit);
    assert_eq!(TimeUnit::NoUnit, unit.time_unit);
    assert_eq!(1, unit.temperature_count);
    assert_eq!(0, unit.time_count);
    assert_eq!(0, unit.length_count);
    assert_eq!(0, unit.mass_count);
    assert_eq!(0, unit.luminous_intensity_count);
    assert_eq!(0, unit.amount_of_substance_count);
    assert_eq!(0, unit.electric_current_count);
}

#[test]
fn macro_create_temperature_2() {
    let unit = temperature_q(12345, 100, TemperatureDeltaUnit::K);
    assert!(unit.value.equiv(&Rational::new(12345, 100)));
    assert_eq!("123.45 K", unit.to_display_string());
    assert_eq!(TimeUnit::NoUnit, unit.time_unit);
    assert_eq!(AmountOfSubstanceUnit::NoUnit, unit.amount_of_substance_unit);
    assert_eq!(ElectricCurrentUnit::NoUnit, unit.electric_current_unit);
    assert_eq!(LengthUnit::NoUnit, unit.length_unit);
    assert_eq!(LuminousIntensityUnit::NoUnit, unit.luminous_intensity_unit);
    assert_eq!(MassUnit::NoUnit, unit.mass_unit);
    assert_eq!(TemperatureDeltaUnit::K, unit.temperature_unit);
    assert_eq!(TimeUnit::NoUnit, unit.time_unit);
    assert_eq!(1, unit.temperature_count);
    assert_eq!(0, unit.time_count);
    assert_eq!(0, unit.length_count);
    assert_eq!(0, unit.mass_count);
    assert_eq!(0, unit.luminous_intensity_count);
    assert_eq!(0, unit.amount_of_substance_count);
    assert_eq!(0, unit.electric_current_count);
}

#[test]
fn macro_create_temperature_3() {
    let unit = temperature_q(12345, 100, TemperatureDeltaUnit::F);
    assert!(unit.value.equiv(&Rational::new(12345, 100)));
    assert_eq!("123.45 °F", unit.to_display_string());
    assert_eq!(TimeUnit::NoUnit, unit.time_unit);
    assert_eq!(AmountOfSubstanceUnit::NoUnit, unit.amount_of_substance_unit);
    assert_eq!(ElectricCurrentUnit::NoUnit, unit.electric_current_unit);
    assert_eq!(LengthUnit::NoUnit, unit.length_unit);
    assert_eq!(LuminousIntensityUnit::NoUnit, unit.luminous_intensity_unit);
    assert_eq!(MassUnit::NoUnit, unit.mass_unit);
    assert_eq!(TemperatureDeltaUnit::F, unit.temperature_unit);
    assert_eq!(TimeUnit::NoUnit, unit.time_unit);
    assert_eq!(1, unit.temperature_count);
    assert_eq!(0, unit.time_count);
    assert_eq!(0, unit.length_count);
    assert_eq!(0, unit.mass_count);
    assert_eq!(0, unit.luminous_intensity_count);
    assert_eq!(0, unit.amount_of_substance_count);
    assert_eq!(0, unit.electric_current_count);
}

#[test]
fn macro_create_temperature_4() {
    let unit = temperature_q(12345, 100, TemperatureDeltaUnit::R);
    assert!(unit.value.equiv(&Rational::new(12345, 100)));
    assert_eq!("123.45 R", unit.to_display_string());
    assert_eq!(TimeUnit::NoUnit, unit.time_unit);
    assert_eq!(AmountOfSubstanceUnit::NoUnit, unit.amount_of_substance_unit);
    assert_eq!(ElectricCurrentUnit::NoUnit, unit.electric_current_unit);
    assert_eq!(LengthUnit::NoUnit, unit.length_unit);
    assert_eq!(LuminousIntensityUnit::NoUnit, unit.luminous_intensity_unit);
    assert_eq!(MassUnit::NoUnit, unit.mass_unit);
    assert_eq!(TemperatureDeltaUnit::R, unit.temperature_unit);
    assert_eq!(TimeUnit::NoUnit, unit.time_unit);
    assert_eq!(1, unit.temperature_count);
    assert_eq!(0, unit.time_count);
    assert_eq!(0, unit.length_count);
    assert_eq!(0, unit.mass_count);
    assert_eq!(0, unit.luminous_intensity_count);
    assert_eq!(0, unit.amount_of_substance_count);
    assert_eq!(0, unit.electric_current_count);
}

#[test]
fn macro_create_temperature_5() {
    let unit = temperature_q(12345, 100, TemperatureDeltaUnit::NoUnit);
    assert!(unit.value.equiv(&Rational::new(12345, 100)));
    assert_eq!("123.45", unit.to_display_string());
    assert_eq!(TimeUnit::NoUnit, unit.time_unit);
    assert_eq!(AmountOfSubstanceUnit::NoUnit, unit.amount_of_substance_unit);
    assert_eq!(ElectricCurrentUnit::NoUnit, unit.electric_current_unit);
    assert_eq!(LengthUnit::NoUnit, unit.length_unit);
    assert_eq!(LuminousIntensityUnit::NoUnit, unit.luminous_intensity_unit);
    assert_eq!(MassUnit::NoUnit, unit.mass_unit);
    assert_eq!(TemperatureDeltaUnit::NoUnit, unit.temperature_unit);
    assert_eq!(TimeUnit::NoUnit, unit.time_unit);
    assert_eq!(0, unit.temperature_count);
    assert_eq!(0, unit.time_count);
    assert_eq!(0, unit.length_count);
    assert_eq!(0, unit.mass_count);
    assert_eq!(0, unit.luminous_intensity_count);
    assert_eq!(0, unit.amount_of_substance_count);
    assert_eq!(0, unit.electric_current_count);
}

#[test]
fn test_unit_strings() {
    let unit = temperature_q(12345, 100, TemperatureDeltaUnit::C);
    assert_eq!("°C", unit.unit_to_string());
    let unit = temperature_q(12345, 100, TemperatureDeltaUnit::K);
    assert_eq!("K", unit.unit_to_string());
    let unit = temperature_q(12345, 100, TemperatureDeltaUnit::R);
    assert_eq!("R", unit.unit_to_string());
    let unit = temperature_q(12345, 100, TemperatureDeltaUnit::F);
    assert_eq!("°F", unit.unit_to_string());
    let unit = temperature_q(12345, 100, TemperatureDeltaUnit::NoUnit);
    assert_eq!("", unit.unit_to_string());
}

#[test]
fn test_unit_strings_2() {
    assert_eq!("°C", TemperatureDeltaUnit::C.to_string());
    assert_eq!("°F", TemperatureDeltaUnit::F.to_string());
    assert_eq!("R", TemperatureDeltaUnit::R.to_string());
    assert_eq!("K", TemperatureDeltaUnit::K.to_string());
    assert_eq!("", TemperatureDeltaUnit::NoUnit.to_string());
}

#[test]
fn unit_clone() {
    let unit = temperature_q(12345, 100, TemperatureDeltaUnit::R);
    let unit_2 = unit.clone();
    assert!(unit_2.value.equiv(&Rational::new(12345, 100)));
    assert_eq!("123.45 R", unit_2.to_display_string());
    assert_eq!(TimeUnit::NoUnit, unit_2.time_unit);
    assert_eq!(AmountOfSubstanceUnit::NoUnit, unit_2.amount_of_substance_unit);
    assert_eq!(ElectricCurrentUnit::NoUnit, unit_2.electric_current_unit);
    assert_eq!(LengthUnit::NoUnit, unit_2.length_unit);
    assert_eq!(LuminousIntensityUnit::NoUnit, unit_2.luminous_intensity_unit);
    assert_eq!(MassUnit::NoUnit, unit_2.mass_unit);
    assert_eq!(TemperatureDeltaUnit::R, unit_2.temperature_unit);
    assert_eq!(TimeUnit::NoUnit, unit_2.time_unit);
    assert_eq!(1, unit_2.temperature_count);
    assert_eq!(0, unit_2.time_count);
    assert_eq!(0, unit_2.length_count);
    assert_eq!(0, unit_2.mass_count);
    assert_eq!(0, unit_2.luminous_intensity_count);
    assert_eq!(0, unit_2.amount_of_substance_count);
    assert_eq!(0, unit_2.electric_current_count);
}

#[test]
fn test_equality() {
    let a = temperature_q(12345, 100, TemperatureDeltaUnit::K);
    let b = temperature_q(12345, 100, TemperatureDeltaUnit::K);
    assert_eq!(a.temperature_unit, b.temperature_unit);

    let a = temperature_q(12345, 100, TemperatureDeltaUnit::C);
    let b = temperature_q(12345, 100, TemperatureDeltaUnit::C);
    assert_eq!(a.temperature_unit, b.temperature_unit);

    let a = temperature_q(12345, 100, TemperatureDeltaUnit::R);
    let b = temperature_q(12345, 100, TemperatureDeltaUnit::R);
    assert_eq!(a.temperature_unit, b.temperature_unit);

    let a = temperature_q(12345, 100, TemperatureDeltaUnit::F);
    let b = temperature_q(12345, 100, TemperatureDeltaUnit::F);
    assert_eq!(a.temperature_unit, b.temperature_unit);
}

#[test]
fn test_debug() {
    let a = temperature_q(12345, 100, TemperatureDeltaUnit::K);
    let s = format!("{a:?}");
    assert!(!s.is_empty())
}

#[test]
fn test_latex_1() {
    let a = temperature_q(12345, 100, TemperatureDeltaUnit::K);
    assert_eq!("$123.45\\ K$", a.to_latex());
}

#[test]
fn test_latex_2() {
    let a = temperature_q(12345, 100, TemperatureDeltaUnit::R);
    assert_eq!("$123.45\\ R$", a.to_latex());
}

#[test]
fn test_latex_3() {
    let a = temperature_q(12345, 100, TemperatureDeltaUnit::C);
    assert_eq!("$123.45\\ ^\\circ C$", a.to_latex());
}

#[test]
fn test_latex_4() {
    let a = temperature_q(12345, 100, TemperatureDeltaUnit::F);
    assert_eq!("$123.45\\ ^\\circ F$", a.to_latex());
}

#[test]
fn test_latex_5() {
    let a = temperature_q(12345, 100, TemperatureDeltaUnit::NoUnit);
    assert_eq!("$123.45$", a.to_latex());
}

//! The quantity engine: a scalar magnitude with a signed exponent and a
//! concrete unit per base dimension.
//!
//! The invariant throughout: a dimension with exponent zero carries no
//! unit identity (its unit field is the sentinel).  Arithmetic adds or
//! negates exponents, reconciles mismatched units through the registry's
//! conversion factors, and keeps the magnitude exact.  Each executable
//! operation pins its entire result to a spec-level function over the
//! quantity's ghost model, so the algebraic laws in `laws` are proved
//! against exactly what the code computes.

use crate::rational::pair_fits;
use crate::rational::padd;
use crate::rational::pmul;
use crate::rational::pneg;
use crate::rational::precip;
use crate::rational::scale_fits;
use crate::rational::spec_scaled;
use crate::rational::apply_scale;
use crate::rational::Rational;
use crate::units::AmountOfSubstanceUnit;
use crate::units::Dimension;
use crate::units::ElectricCurrentUnit;
use crate::units::LengthUnit;
use crate::units::LuminousIntensityUnit;
use crate::units::MassUnit;
use crate::units::TemperatureDeltaUnit;
use crate::units::TimeUnit;
use crate::units::Unit;
use vstd::prelude::*;

verus! {

/// Ghost model of a quantity: the exact value as an integer pair and,
/// per dimension, the exponent as an unbounded integer plus the unit.
pub ghost struct QModel {
    pub value: (int, int),
    pub amount_of_substance_count: int,
    pub amount_of_substance_unit: AmountOfSubstanceUnit,
    pub electric_current_count: int,
    pub electric_current_unit: ElectricCurrentUnit,
    pub length_count: int,
    pub length_unit: LengthUnit,
    pub luminous_intensity_count: int,
    pub luminous_intensity_unit: LuminousIntensityUnit,
    pub mass_count: int,
    pub mass_unit: MassUnit,
    pub temperature_count: int,
    pub temperature_unit: TemperatureDeltaUnit,
    pub time_count: int,
    pub time_unit: TimeUnit,
}

impl QModel {
    /// The exponent of dimension `d`.
    pub open spec fn count_of(self, d: Dimension) -> int {
        match d {
            Dimension::AmountOfSubstance => self.amount_of_substance_count,
            Dimension::ElectricCurrent => self.electric_current_count,
            Dimension::Mass => self.mass_count,
            Dimension::Length => self.length_count,
            Dimension::LuminousIntensity => self.luminous_intensity_count,
            Dimension::Time => self.time_count,
            Dimension::Temperature => self.temperature_count,
        }
    }

    /// Some dimension has a nonzero exponent.
    pub open spec fn has_dims(self) -> bool {
        ||| self.amount_of_substance_count != 0
        ||| self.electric_current_count != 0
        ||| self.length_count != 0
        ||| self.luminous_intensity_count != 0
        ||| self.mass_count != 0
        ||| self.temperature_count != 0
        ||| self.time_count != 0
    }

    /// Every dimension's exponent agrees between the two quantities.
    pub open spec fn counts_match(self, other: QModel) -> bool {
        &&& self.amount_of_substance_count == other.amount_of_substance_count
        &&& self.electric_current_count == other.electric_current_count
        &&& self.length_count == other.length_count
        &&& self.luminous_intensity_count == other.luminous_intensity_count
        &&& self.mass_count == other.mass_count
        &&& self.temperature_count == other.temperature_count
        &&& self.time_count == other.time_count
    }

    /// The first dimension, in canonical order, whose exponents differ.
    pub open spec fn first_mismatch(self, other: QModel) -> Dimension {
        if self.amount_of_substance_count != other.amount_of_substance_count {
            Dimension::AmountOfSubstance
        } else if self.electric_current_count != other.electric_current_count {
            Dimension::ElectricCurrent
        } else if self.mass_count != other.mass_count {
            Dimension::Mass
        } else if self.length_count != other.length_count {
            Dimension::Length
        } else if self.luminous_intensity_count != other.luminous_intensity_count {
            Dimension::LuminousIntensity
        } else if self.time_count != other.time_count {
            Dimension::Time
        } else {
            Dimension::Temperature
        }
    }
}

/// The dimensionless quantity of magnitude one.
pub open spec fn unity() -> QModel {
    QModel {
        value: (1int, 1int),
        amount_of_substance_count: 0,
        amount_of_substance_unit: AmountOfSubstanceUnit::NoUnit,
        electric_current_count: 0,
        electric_current_unit: ElectricCurrentUnit::NoUnit,
        length_count: 0,
        length_unit: LengthUnit::NoUnit,
        luminous_intensity_count: 0,
        luminous_intensity_unit: LuminousIntensityUnit::NoUnit,
        mass_count: 0,
        mass_unit: MassUnit::NoUnit,
        temperature_count: 0,
        temperature_unit: TemperatureDeltaUnit::NoUnit,
        time_count: 0,
        time_unit: TimeUnit::NoUnit,
    }
}

/// A quantity with one dimension populated: exponent `e` in the
/// dimension of `u`, magnitude `v`.  A zero exponent leaves the
/// quantity dimensionless.
pub open spec fn spec_from_unit(v: (int, int), u: Unit, e: int) -> QModel {
    let base = QModel { value: v, ..unity() };
    if e == 0 {
        base
    } else {
        match u.dim() {
            Dimension::AmountOfSubstance => QModel {
                amount_of_substance_count: e,
                amount_of_substance_unit: u.amount_part(),
                ..base
            },
            Dimension::ElectricCurrent => QModel {
                electric_current_count: e,
                electric_current_unit: u.current_part(),
                ..base
            },
            Dimension::Mass => QModel { mass_count: e, mass_unit: u.mass_part(), ..base },
            Dimension::Length => QModel { length_count: e, length_unit: u.length_part(), ..base },
            Dimension::LuminousIntensity => QModel {
                luminous_intensity_count: e,
                luminous_intensity_unit: u.luminous_part(),
                ..base
            },
            Dimension::Time => QModel { time_count: e, time_unit: u.time_part(), ..base },
            Dimension::Temperature => QModel {
                temperature_count: e,
                temperature_unit: u.temperature_part(),
                ..base
            },
        }
    }
}

/// The reciprocal: magnitude inverted, every exponent negated, units kept.
pub open spec fn spec_reciprocal(m: QModel) -> QModel {
    QModel {
        value: precip(m.value),
        amount_of_substance_count: -m.amount_of_substance_count,
        electric_current_count: -m.electric_current_count,
        length_count: -m.length_count,
        luminous_intensity_count: -m.luminous_intensity_count,
        mass_count: -m.mass_count,
        temperature_count: -m.temperature_count,
        time_count: -m.time_count,
        ..m
    }
}

/// The quantity re-expressed in `target`'s dimension with `target` as
/// the concrete unit: the magnitude is rescaled by the conversion
/// factor raised to that dimension's exponent.  A zero exponent leaves
/// the quantity unchanged.
pub open spec fn spec_convert(m: QModel, target: Unit) -> QModel {
    match target.dim() {
        Dimension::AmountOfSubstance => {
            if m.amount_of_substance_count == 0 {
                m
            } else {
                let f = AmountOfSubstanceUnit::factor_pair(
                    m.amount_of_substance_unit,
                    target.amount_part(),
                );
                QModel {
                    value: spec_scaled(m.value, f, m.amount_of_substance_count),
                    amount_of_substance_unit: target.amount_part(),
                    ..m
                }
            }
        },
        Dimension::ElectricCurrent => {
            if m.electric_current_count == 0 {
                m
            } else {
                let f = ElectricCurrentUnit::factor_pair(
                    m.electric_current_unit,
                    target.current_part(),
                );
                QModel {
                    value: spec_scaled(m.value, f, m.electric_current_count),
                    electric_current_unit: target.current_part(),
                    ..m
                }
            }
        },
        Dimension::Mass => {
            if m.mass_count == 0 {
                m
            } else {
                let f = MassUnit::factor_pair(m.mass_unit, target.mass_part());
                QModel {
                    value: spec_scaled(m.value, f, m.mass_count),
                    mass_unit: target.mass_part(),
                    ..m
                }
            }
        },
        Dimension::Length => {
            if m.length_count == 0 {
                m
            } else {
                let f = LengthUnit::factor_pair(m.length_unit, target.length_part());
                QModel {
                    value: spec_scaled(m.value, f, m.length_count),
                    length_unit: target.length_part(),
                    ..m
                }
            }
        },
        Dimension::LuminousIntensity => {
            if m.luminous_intensity_count == 0 {
                m
            } else {
                let f = LuminousIntensityUnit::factor_pair(
                    m.luminous_intensity_unit,
                    target.luminous_part(),
                );
                QModel {
                    value: spec_scaled(m.value, f, m.luminous_intensity_count),
                    luminous_intensity_unit: target.luminous_part(),
                    ..m
                }
            }
        },
        Dimension::Time => {
            if m.time_count == 0 {
                m
            } else {
                let f = TimeUnit::factor_pair(m.time_unit, target.time_part());
                QModel {
                    value: spec_scaled(m.value, f, m.time_count),
                    time_unit: target.time_part(),
                    ..m
                }
            }
        },
        Dimension::Temperature => {
            if m.temperature_count == 0 {
                m
            } else {
                let f = TemperatureDeltaUnit::factor_pair(
                    m.temperature_unit,
                    target.temperature_part(),
                );
                QModel {
                    value: spec_scaled(m.value, f, m.temperature_count),
                    temperature_unit: target.temperature_part(),
                    ..m
                }
            }
        },
    }
}

/// Every step of the rescaling that `spec_convert` performs fits the
/// magnitude's storage range.
pub open spec fn convert_ok(m: QModel, target: Unit) -> bool {
    match target.dim() {
        Dimension::AmountOfSubstance => scale_fits(
            m.value,
            AmountOfSubstanceUnit::factor_pair(m.amount_of_substance_unit, target.amount_part()),
            m.amount_of_substance_count,
        ),
        Dimension::ElectricCurrent => scale_fits(
            m.value,
            ElectricCurrentUnit::factor_pair(m.electric_current_unit, target.current_part()),
            m.electric_current_count,
        ),
        Dimension::Mass => scale_fits(
            m.value,
            MassUnit::factor_pair(m.mass_unit, target.mass_part()),
            m.mass_count,
        ),
        Dimension::Length => scale_fits(
            m.value,
            LengthUnit::factor_pair(m.length_unit, target.length_part()),
            m.length_count,
        ),
        Dimension::LuminousIntensity => scale_fits(
            m.value,
            LuminousIntensityUnit::factor_pair(m.luminous_intensity_unit, target.luminous_part()),
            m.luminous_intensity_count,
        ),
        Dimension::Time => scale_fits(
            m.value,
            TimeUnit::factor_pair(m.time_unit, target.time_part()),
            m.time_count,
        ),
        Dimension::Temperature => scale_fits(
            m.value,
            TemperatureDeltaUnit::factor_pair(m.temperature_unit, target.temperature_part()),
            m.temperature_count,
        ),
    }
}

/// Magnitude chain of a product, step zero: the two magnitudes.
pub open spec fn mul_v0(a: QModel, b: QModel) -> (int, int) {
    pmul(a.value, b.value)
}

/// ... then rescaled by the amount-of-substance reconciliation factor
/// raised to `b`'s exponent there.
pub open spec fn mul_v1(a: QModel, b: QModel) -> (int, int) {
    spec_scaled(
        mul_v0(a, b),
        AmountOfSubstanceUnit::factor_pair(b.amount_of_substance_unit, a.amount_of_substance_unit),
        b.amount_of_substance_count,
    )
}

/// ... then by the electric-current factor to `b`'s exponent.
pub open spec fn mul_v2(a: QModel, b: QModel) -> (int, int) {
    spec_scaled(
        mul_v1(a, b),
        ElectricCurrentUnit::factor_pair(b.electric_current_unit, a.electric_current_unit),
        b.electric_current_count,
    )
}

/// ... then by the length factor to `b`'s exponent.
pub open spec fn mul_v3(a: QModel, b: QModel) -> (int, int) {
    spec_scaled(
        mul_v2(a, b),
        LengthUnit::factor_pair(b.length_unit, a.length_unit),
        b.length_count,
    )
}

/// ... then by the luminous-intensity factor to `b`'s exponent.
pub open spec fn mul_v4(a: QModel, b: QModel) -> (int, int) {
    spec_scaled(
        mul_v3(a, b),
        LuminousIntensityUnit::factor_pair(b.luminous_intensity_unit, a.luminous_intensity_unit),
        b.luminous_intensity_count,
    )
}

/// ... then by the mass factor to `b`'s exponent.
pub open spec fn mul_v5(a: QModel, b: QModel) -> (int, int) {
    spec_scaled(
        mul_v4(a, b),
        MassUnit::factor_pair(b.mass_unit, a.mass_unit),
        b.mass_count,
    )
}

/// ... then by the temperature factor to `b`'s exponent.
pub open spec fn mul_v6(a: QModel, b: QModel) -> (int, int) {
    spec_scaled(
        mul_v5(a, b),
        TemperatureDeltaUnit::factor_pair(b.temperature_unit, a.temperature_unit),
        b.temperature_count,
    )
}

/// The product's magnitude: both magnitudes multiplied, then `b`'s
/// share rescaled into `a`'s units dimension by dimension, each
/// conversion factor raised to `b`'s exponent — a negative exponent
/// divides, because a denominator unit rescales the scalar inversely.
pub open spec fn mul_value(a: QModel, b: QModel) -> (int, int) {
    spec_scaled(
        mul_v6(a, b),
        TimeUnit::factor_pair(b.time_unit, a.time_unit),
        b.time_count,
    )
}

/// Every step of the product chain fits the magnitude's storage range.
pub open spec fn mul_value_ok(a: QModel, b: QModel) -> bool {
    &&& pair_fits(mul_v0(a, b))
    &&& scale_fits(
        mul_v0(a, b),
        AmountOfSubstanceUnit::factor_pair(b.amount_of_substance_unit, a.amount_of_substance_unit),
        b.amount_of_substance_count,
    )
    &&& scale_fits(
        mul_v1(a, b),
        ElectricCurrentUnit::factor_pair(b.electric_current_unit, a.electric_current_unit),
        b.electric_current_count,
    )
    &&& scale_fits(
        mul_v2(a, b),
        LengthUnit::factor_pair(b.length_unit, a.length_unit),
        b.length_count,
    )
    &&& scale_fits(
        mul_v3(a, b),
        LuminousIntensityUnit::factor_pair(b.luminous_intensity_unit, a.luminous_intensity_unit),
        b.luminous_intensity_count,
    )
    &&& scale_fits(
        mul_v4(a, b),
        MassUnit::factor_pair(b.mass_unit, a.mass_unit),
        b.mass_count,
    )
    &&& scale_fits(
        mul_v5(a, b),
        TemperatureDeltaUnit::factor_pair(b.temperature_unit, a.temperature_unit),
        b.temperature_count,
    )
    &&& scale_fits(
        mul_v6(a, b),
        TimeUnit::factor_pair(b.time_unit, a.time_unit),
        b.time_count,
    )
}

/// Every summed exponent of the product stays inside `i32`.
pub open spec fn counts_fit(a: QModel, b: QModel) -> bool {
    &&& i32::MIN <= a.amount_of_substance_count + b.amount_of_substance_count <= i32::MAX
    &&& i32::MIN <= a.electric_current_count + b.electric_current_count <= i32::MAX
    &&& i32::MIN <= a.length_count + b.length_count <= i32::MAX
    &&& i32::MIN <= a.luminous_intensity_count + b.luminous_intensity_count <= i32::MAX
    &&& i32::MIN <= a.mass_count + b.mass_count <= i32::MAX
    &&& i32::MIN <= a.temperature_count + b.temperature_count <= i32::MAX
    &&& i32::MIN <= a.time_count + b.time_count <= i32::MAX
}

/// The product stays inside the machine's ranges.
pub open spec fn mul_ok(a: QModel, b: QModel) -> bool {
    counts_fit(a, b) && mul_value_ok(a, b)
}

/// The unit the product carries in one dimension: the left operand's
/// where it has the dimension, else the right's; cancellation to
/// exponent zero clears the unit identity.
pub open spec fn adopt<U>(sum: int, ca: int, ua: U, ub: U, none: U) -> U {
    if sum != 0 {
        if ca != 0 {
            ua
        } else {
            ub
        }
    } else {
        none
    }
}

/// The product: exponents added per dimension, units adopted from the
/// left operand where it carries the dimension, magnitudes multiplied
/// with the right operand rescaled into the left's units.
pub open spec fn spec_multiply(a: QModel, b: QModel) -> QModel {
    QModel {
        value: mul_value(a, b),
        amount_of_substance_count: a.amount_of_substance_count + b.amount_of_substance_count,
        amount_of_substance_unit: adopt(
            a.amount_of_substance_count + b.amount_of_substance_count,
            a.amount_of_substance_count,
            a.amount_of_substance_unit,
            b.amount_of_substance_unit,
            AmountOfSubstanceUnit::NoUnit,
        ),
        electric_current_count: a.electric_current_count + b.electric_current_count,
        electric_current_unit: adopt(
            a.electric_current_count + b.electric_current_count,
            a.electric_current_count,
            a.electric_current_unit,
            b.electric_current_unit,
            ElectricCurrentUnit::NoUnit,
        ),
        length_count: a.length_count + b.length_count,
        length_unit: adopt(
            a.length_count + b.length_count,
            a.length_count,
            a.length_unit,
            b.length_unit,
            LengthUnit::NoUnit,
        ),
        luminous_intensity_count: a.luminous_intensity_count + b.luminous_intensity_count,
        luminous_intensity_unit: adopt(
            a.luminous_intensity_count + b.luminous_intensity_count,
            a.luminous_intensity_count,
            a.luminous_intensity_unit,
            b.luminous_intensity_unit,
            LuminousIntensityUnit::NoUnit,
        ),
        mass_count: a.mass_count + b.mass_count,
        mass_unit: adopt(
            a.mass_count + b.mass_count,
            a.mass_count,
            a.mass_unit,
            b.mass_unit,
            MassUnit::NoUnit,
        ),
        temperature_count: a.temperature_count + b.temperature_count,
        temperature_unit: adopt(
            a.temperature_count + b.temperature_count,
            a.temperature_count,
            a.temperature_unit,
            b.temperature_unit,
            TemperatureDeltaUnit::NoUnit,
        ),
        time_count: a.time_count + b.time_count,
        time_unit: adopt(
            a.time_count + b.time_count,
            a.time_count,
            a.time_unit,
            b.time_unit,
            TimeUnit::NoUnit,
        ),
    }
}

/// Alignment chain of a sum: `b`'s magnitude re-expressed in `a`'s
/// units, one dimension at a time.  Step one: amount of substance.
pub open spec fn align_v1(a: QModel, b: QModel) -> (int, int) {
    spec_scaled(
        b.value,
        AmountOfSubstanceUnit::factor_pair(b.amount_of_substance_unit, a.amount_of_substance_unit),
        b.amount_of_substance_count,
    )
}

/// ... then electric current.
pub open spec fn align_v2(a: QModel, b: QModel) -> (int, int) {
    spec_scaled(
        align_v1(a, b),
        ElectricCurrentUnit::factor_pair(b.electric_current_unit, a.electric_current_unit),
        b.electric_current_count,
    )
}

/// ... then mass.
pub open spec fn align_v3(a: QModel, b: QModel) -> (int, int) {
    spec_scaled(align_v2(a, b), MassUnit::factor_pair(b.mass_unit, a.mass_unit), b.mass_count)
}

/// ... then length.
pub open spec fn align_v4(a: QModel, b: QModel) -> (int, int) {
    spec_scaled(
        align_v3(a, b),
        LengthUnit::factor_pair(b.length_unit, a.length_unit),
        b.length_count,
    )
}

/// ... then luminous intensity.
pub open spec fn align_v5(a: QModel, b: QModel) -> (int, int) {
    spec_scaled(
        align_v4(a, b),
        LuminousIntensityUnit::factor_pair(b.luminous_intensity_unit, a.luminous_intensity_unit),
        b.luminous_intensity_count,
    )
}

/// ... then time.
pub open spec fn align_v6(a: QModel, b: QModel) -> (int, int) {
    spec_scaled(align_v5(a, b), TimeUnit::factor_pair(b.time_unit, a.time_unit), b.time_count)
}

/// `b`'s magnitude fully re-expressed in `a`'s units.
pub open spec fn aligned_value(a: QModel, b: QModel) -> (int, int) {
    spec_scaled(
        align_v6(a, b),
        TemperatureDeltaUnit::factor_pair(b.temperature_unit, a.temperature_unit),
        b.temperature_count,
    )
}

/// Every step of the alignment fits the magnitude's storage range.
pub open spec fn align_ok(a: QModel, b: QModel) -> bool {
    &&& scale_fits(
        b.value,
        AmountOfSubstanceUnit::factor_pair(b.amount_of_substance_unit, a.amount_of_substance_unit),
        b.amount_of_substance_count,
    )
    &&& scale_fits(
        align_v1(a, b),
        ElectricCurrentUnit::factor_pair(b.electric_current_unit, a.electric_current_unit),
        b.electric_current_count,
    )
    &&& scale_fits(align_v2(a, b), MassUnit::factor_pair(b.mass_unit, a.mass_unit), b.mass_count)
    &&& scale_fits(
        align_v3(a, b),
        LengthUnit::factor_pair(b.length_unit, a.length_unit),
        b.length_count,
    )
    &&& scale_fits(
        align_v4(a, b),
        LuminousIntensityUnit::factor_pair(b.luminous_intensity_unit, a.luminous_intensity_unit),
        b.luminous_intensity_count,
    )
    &&& scale_fits(align_v5(a, b), TimeUnit::factor_pair(b.time_unit, a.time_unit), b.time_count)
    &&& scale_fits(
        align_v6(a, b),
        TemperatureDeltaUnit::factor_pair(b.temperature_unit, a.temperature_unit),
        b.temperature_count,
    )
}

/// The sum stays inside the machine's ranges.
pub open spec fn add_ok(a: QModel, b: QModel) -> bool {
    align_ok(a, b) && pair_fits(padd(a.value, aligned_value(a, b)))
}

/// The difference stays inside the machine's ranges.
pub open spec fn sub_ok(a: QModel, b: QModel) -> bool {
    align_ok(a, b) && pair_fits(padd(a.value, pneg(aligned_value(a, b))))
}

/// The sum: `b`'s magnitude aligned into `a`'s units and added; `a`'s
/// exponents and units are kept.
pub open spec fn spec_add(a: QModel, b: QModel) -> QModel {
    QModel { value: padd(a.value, aligned_value(a, b)), ..a }
}

/// The difference: `b`'s magnitude aligned into `a`'s units and
/// subtracted; `a`'s exponents and units are kept.
pub open spec fn spec_subtract(a: QModel, b: QModel) -> QModel {
    QModel { value: padd(a.value, pneg(aligned_value(a, b))), ..a }
}

/// A dimensioned scalar: an exact rational magnitude in the current
/// mixed-unit representation, and per base dimension a signed exponent
/// with the concrete unit it is expressed in.
#[derive(Clone, Copy, Debug, PartialEq, Eq, Structural)]
pub struct EngUnit {
    pub value: Rational,
    pub amount_of_substance_count: i32,
    pub amount_of_substance_unit: AmountOfSubstanceUnit,
    pub electric_current_count: i32,
    pub electric_current_unit: ElectricCurrentUnit,
    pub length_count: i32,
    pub length_unit: LengthUnit,
    pub luminous_intensity_count: i32,
    pub luminous_intensity_unit: LuminousIntensityUnit,
    pub mass_count: i32,
    pub mass_unit: MassUnit,
    pub temperature_count: i32,
    pub temperature_unit: TemperatureDeltaUnit,
    pub time_count: i32,
    pub time_unit: TimeUnit,
}

impl View for EngUnit {
    type V = QModel;

    open spec fn view(&self) -> QModel {
        QModel {
            value: self.value@,
            amount_of_substance_count: self.amount_of_substance_count as int,
            amount_of_substance_unit: self.amount_of_substance_unit,
            electric_current_count: self.electric_current_count as int,
            electric_current_unit: self.electric_current_unit,
            length_count: self.length_count as int,
            length_unit: self.length_unit,
            luminous_intensity_count: self.luminous_intensity_count as int,
            luminous_intensity_unit: self.luminous_intensity_unit,
            mass_count: self.mass_count as int,
            mass_unit: self.mass_unit,
            temperature_count: self.temperature_count as int,
            temperature_unit: self.temperature_unit,
            time_count: self.time_count as int,
            time_unit: self.time_unit,
        }
    }
}

impl EngUnit {
    /// Well-formed: the magnitude's storage is in range and a dimension
    /// with exponent zero carries the unit sentinel.
    pub open spec fn wf(&self) -> bool {
        &&& self.value.wf()
        &&& self.amount_of_substance_count == 0 ==> self.amount_of_substance_unit is NoUnit
        &&& self.electric_current_count == 0 ==> self.electric_current_unit is NoUnit
        &&& self.length_count == 0 ==> self.length_unit is NoUnit
        &&& self.luminous_intensity_count == 0 ==> self.luminous_intensity_unit is NoUnit
        &&& self.mass_count == 0 ==> self.mass_unit is NoUnit
        &&& self.temperature_count == 0 ==> self.temperature_unit is NoUnit
        &&& self.time_count == 0 ==> self.time_unit is NoUnit
    }

    /// The dimensionless quantity of magnitude one.
    pub fn new() -> (r: EngUnit)
        ensures
            r.wf(),
            r@ == unity(),
    {
        EngUnit {
            value: Rational::one(),
            amount_of_substance_count: 0,
            amount_of_substance_unit: AmountOfSubstanceUnit::NoUnit,
            electric_current_count: 0,
            electric_current_unit: ElectricCurrentUnit::NoUnit,
            length_count: 0,
            length_unit: LengthUnit::NoUnit,
            luminous_intensity_count: 0,
            luminous_intensity_unit: LuminousIntensityUnit::NoUnit,
            mass_count: 0,
            mass_unit: MassUnit::NoUnit,
            temperature_count: 0,
            temperature_unit: TemperatureDeltaUnit::NoUnit,
            time_count: 0,
            time_unit: TimeUnit::NoUnit,
        }
    }

    /// Builds a quantity with magnitude `value` and exponent `exponent`
    /// in the dimension of `unit`; the magnitude is stored as given, with
    /// no normalisation to base units.
    pub fn from_unit(value: Rational, unit: Unit, exponent: i32) -> (r: EngUnit)
        requires
            value.wf(),
        ensures
            r.wf(),
            r@ == spec_from_unit(value@, unit, exponent as int),
    {
        let mut q = Self::new();
        q.value = value;
        if exponent != 0 {
            match unit.dimension() {
                Dimension::AmountOfSubstance => {
                    q.amount_of_substance_count = exponent;
                    q.amount_of_substance_unit = unit.as_amount_unit();
                },
                Dimension::ElectricCurrent => {
                    q.electric_current_count = exponent;
                    q.electric_current_unit = unit.as_current_unit();
                },
                Dimension::Mass => {
                    q.mass_count = exponent;
                    q.mass_unit = unit.as_mass_unit();
                },
                Dimension::Length => {
                    q.length_count = exponent;
                    q.length_unit = unit.as_length_unit();
                },
                Dimension::LuminousIntensity => {
                    q.luminous_intensity_count = exponent;
                    q.luminous_intensity_unit = unit.as_luminous_unit();
                },
                Dimension::Time => {
                    q.time_count = exponent;
                    q.time_unit = unit.as_time_unit();
                },
                Dimension::Temperature => {
                    q.temperature_count = exponent;
                    q.temperature_unit = unit.as_temperature_unit();
                },
            }
        }
        q
    }

    /// Some dimension of this quantity has a nonzero exponent.
    pub fn has_units(&self) -> (r: bool)
        ensures
            r == self@.has_dims(),
    {
        self.amount_of_substance_count != 0 || self.electric_current_count != 0
            || self.length_count != 0 || self.luminous_intensity_count != 0
            || self.mass_count != 0 || self.temperature_count != 0 || self.time_count != 0
    }

    /// Returns this quantity re-expressed with `target` as the concrete
    /// unit of `target`'s dimension; the magnitude is rescaled by the
    /// conversion factor raised to that dimension's exponent.
    pub fn convert(&self, target: Unit) -> (r: EngUnit)
        requires
            self.wf(),
            convert_ok(self@, target),
        ensures
            r.wf(),
            r@ == spec_convert(self@, target),
    {
        let mut r = *self;
        match target.dimension() {
            Dimension::AmountOfSubstance => {
                let tu = target.as_amount_unit();
                let f = AmountOfSubstanceUnit::conversion_factor(
                    &self.amount_of_substance_unit,
                    &tu,
                );
                r.value = apply_scale(&self.value, &f, self.amount_of_substance_count);
                if self.amount_of_substance_count != 0 {
                    r.amount_of_substance_unit = tu;
                }
            },
            Dimension::ElectricCurrent => {
                let tu = target.as_current_unit();
                let f = ElectricCurrentUnit::conversion_factor(&self.electric_current_unit, &tu);
                r.value = apply_scale(&self.value, &f, self.electric_current_count);
                if self.electric_current_count != 0 {
                    r.electric_current_unit = tu;
                }
            },
            Dimension::Mass => {
                let tu = target.as_mass_unit();
                let f = MassUnit::conversion_factor(&self.mass_unit, &tu);
                r.value = apply_scale(&self.value, &f, self.mass_count);
                if self.mass_count != 0 {
                    r.mass_unit = tu;
                }
            },
            Dimension::Length => {
                let tu = target.as_length_unit();
                let f = LengthUnit::conversion_factor(&self.length_unit, &tu);
                r.value = apply_scale(&self.value, &f, self.length_count);
                if self.length_count != 0 {
                    r.length_unit = tu;
                }
            },
            Dimension::LuminousIntensity => {
                let tu = target.as_luminous_unit();
                let f = LuminousIntensityUnit::conversion_factor(
                    &self.luminous_intensity_unit,
                    &tu,
                );
                r.value = apply_scale(&self.value, &f, self.luminous_intensity_count);
                if self.luminous_intensity_count != 0 {
                    r.luminous_intensity_unit = tu;
                }
            },
            Dimension::Time => {
                let tu = target.as_time_unit();
                let f = TimeUnit::conversion_factor(&self.time_unit, &tu);
                r.value = apply_scale(&self.value, &f, self.time_count);
                if self.time_count != 0 {
                    r.time_unit = tu;
                }
            },
            Dimension::Temperature => {
                let tu = target.as_temperature_unit();
                let f = TemperatureDeltaUnit::conversion_factor(&self.temperature_unit, &tu);
                r.value = apply_scale(&self.value, &f, self.temperature_count);
                if self.temperature_count != 0 {
                    r.temperature_unit = tu;
                }
            },
        }
        r
    }

    /// Re-expresses this quantity in place with `target` as the concrete
    /// unit of `target`'s dimension.
    pub fn change_unit(&mut self, target: Unit)
        requires
            old(self).wf(),
            convert_ok(old(self)@, target),
        ensures
            final(self).wf(),
            final(self)@ == spec_convert(old(self)@, target),
    {
        let c = self.convert(target);
        *self = c;
    }

    /// The multiplicative inverse: magnitude inverted, every dimension's
    /// exponent negated, units unchanged.
    pub fn reciprocal(&self) -> (r: EngUnit)
        requires
            self.wf(),
            !self.value.is_zero(),
            self.amount_of_substance_count > i32::MIN,
            self.electric_current_count > i32::MIN,
            self.length_count > i32::MIN,
            self.luminous_intensity_count > i32::MIN,
            self.mass_count > i32::MIN,
            self.temperature_count > i32::MIN,
            self.time_count > i32::MIN,
        ensures
            r.wf(),
            r@ == spec_reciprocal(self@),
    {
        let mut recip = *self;
        recip.value = self.value.recip();
        recip.amount_of_substance_count = -self.amount_of_substance_count;
        recip.electric_current_count = -self.electric_current_count;
        recip.length_count = -self.length_count;
        recip.luminous_intensity_count = -self.luminous_intensity_count;
        recip.mass_count = -self.mass_count;
        recip.temperature_count = -self.temperature_count;
        recip.time_count = -self.time_count;
        recip
    }

    /// The product's magnitude: the two magnitudes times each
    /// dimension's reconciliation factor, in canonical order.
    fn mul_value_exec(&self, other: &EngUnit) -> (v: Rational)
        requires
            self.wf(),
            other.wf(),
            mul_value_ok(self@, other@),
        ensures
            v.wf(),
            v@ == mul_value(self@, other@),
    {
        let v = self.value.mul(&other.value);
        let f = AmountOfSubstanceUnit::conversion_factor(
            &other.amount_of_substance_unit,
            &self.amount_of_substance_unit,
        );
        let v = apply_scale(&v, &f, other.amount_of_substance_count);
        let f = ElectricCurrentUnit::conversion_factor(
            &other.electric_current_unit,
            &self.electric_current_unit,
        );
        let v = apply_scale(&v, &f, other.electric_current_count);
        let f = LengthUnit::conversion_factor(&other.length_unit, &self.length_unit);
        let v = apply_scale(&v, &f, other.length_count);
        let f = LuminousIntensityUnit::conversion_factor(
            &other.luminous_intensity_unit,
            &self.luminous_intensity_unit,
        );
        let v = apply_scale(&v, &f, other.luminous_intensity_count);
        let f = MassUnit::conversion_factor(&other.mass_unit, &self.mass_unit);
        let v = apply_scale(&v, &f, other.mass_count);
        let f = TemperatureDeltaUnit::conversion_factor(
            &other.temperature_unit,
            &self.temperature_unit,
        );
        let v = apply_scale(&v, &f, other.temperature_count);
        let f = TimeUnit::conversion_factor(&other.time_unit, &self.time_unit);
        apply_scale(&v, &f, other.time_count)
    }

    /// The product of two quantities: exponents add per dimension, the
    /// result adopts this operand's unit wherever it carries the
    /// dimension, and `other`'s magnitude is rescaled into those units
    /// before the magnitudes are multiplied.
    pub fn multiply_units(&self, other: &EngUnit) -> (r: EngUnit)
        requires
            self.wf(),
            other.wf(),
            mul_ok(self@, other@),
        ensures
            r.wf(),
            r@ == spec_multiply(self@, other@),
    {
        let v = self.mul_value_exec(other);
        let amount_count: i32 = self.amount_of_substance_count + other.amount_of_substance_count;
        let current_count: i32 = self.electric_current_count + other.electric_current_count;
        let length_count: i32 = self.length_count + other.length_count;
        let luminous_count: i32 = self.luminous_intensity_count + other.luminous_intensity_count;
        let mass_count: i32 = self.mass_count + other.mass_count;
        let temperature_count: i32 = self.temperature_count + other.temperature_count;
        let time_count: i32 = self.time_count + other.time_count;
        EngUnit {
            value: v,
            amount_of_substance_count: amount_count,
            amount_of_substance_unit: if amount_count != 0 {
                if self.amount_of_substance_count != 0 {
                    self.amount_of_substance_unit
                } else {
                    other.amount_of_substance_unit
                }
            } else {
                AmountOfSubstanceUnit::NoUnit
            },
            electric_current_count: current_count,
            electric_current_unit: if current_count != 0 {
                if self.electric_current_count != 0 {
                    self.electric_current_unit
                } else {
                    other.electric_current_unit
                }
            } else {
                ElectricCurrentUnit::NoUnit
            },
            length_count,
            length_unit: if length_count != 0 {
                if self.length_count != 0 {
                    self.length_unit
                } else {
                    other.length_unit
                }
            } else {
                LengthUnit::NoUnit
            },
            luminous_intensity_count: luminous_count,
            luminous_intensity_unit: if luminous_count != 0 {
                if self.luminous_intensity_count != 0 {
                    self.luminous_intensity_unit
                } else {
                    other.luminous_intensity_unit
                }
            } else {
                LuminousIntensityUnit::NoUnit
            },
            mass_count,
            mass_unit: if mass_count != 0 {
                if self.mass_count != 0 {
                    self.mass_unit
                } else {
                    other.mass_unit
                }
            } else {
                MassUnit::NoUnit
            },
            temperature_count,
            temperature_unit: if temperature_count != 0 {
                if self.temperature_count != 0 {
                    self.temperature_unit
                } else {
                    other.temperature_unit
                }
            } else {
                TemperatureDeltaUnit::NoUnit
            },
            time_count,
            time_unit: if time_count != 0 {
                if self.time_count != 0 {
                    self.time_unit
                } else {
                    other.time_unit
                }
            } else {
                TimeUnit::NoUnit
            },
        }
    }

    /// The quotient: this quantity multiplied by `other`'s reciprocal.
    /// Division by a quantity of magnitude zero is excluded.
    pub fn divide_units(&self, other: &EngUnit) -> (r: EngUnit)
        requires
            self.wf(),
            other.wf(),
            !other.value.is_zero(),
            other.amount_of_substance_count > i32::MIN,
            other.electric_current_count > i32::MIN,
            other.length_count > i32::MIN,
            other.luminous_intensity_count > i32::MIN,
            other.mass_count > i32::MIN,
            other.temperature_count > i32::MIN,
            other.time_count > i32::MIN,
            mul_ok(self@, spec_reciprocal(other@)),
        ensures
            r.wf(),
            r@ == spec_multiply(self@, spec_reciprocal(other@)),
    {
        let recip = other.reciprocal();
        self.multiply_units(&recip)
    }

    /// `other`'s magnitude re-expressed in this quantity's units, one
    /// dimension at a time in canonical order.
    fn aligned_exec(&self, other: &EngUnit) -> (v: Rational)
        requires
            self.wf(),
            other.wf(),
            align_ok(self@, other@),
        ensures
            v.wf(),
            v@ == aligned_value(self@, other@),
    {
        let f = AmountOfSubstanceUnit::conversion_factor(
            &other.amount_of_substance_unit,
            &self.amount_of_substance_unit,
        );
        let v = apply_scale(&other.value, &f, other.amount_of_substance_count);
        let f = ElectricCurrentUnit::conversion_factor(
            &other.electric_current_unit,
            &self.electric_current_unit,
        );
        let v = apply_scale(&v, &f, other.electric_current_count);
        let f = MassUnit::conversion_factor(&other.mass_unit, &self.mass_unit);
        let v = apply_scale(&v, &f, other.mass_count);
        let f = LengthUnit::conversion_factor(&other.length_unit, &self.length_unit);
        let v = apply_scale(&v, &f, other.length_count);
        let f = LuminousIntensityUnit::conversion_factor(
            &other.luminous_intensity_unit,
            &self.luminous_intensity_unit,
        );
        let v = apply_scale(&v, &f, other.luminous_intensity_count);
        let f = TimeUnit::conversion_factor(&other.time_unit, &self.time_unit);
        let v = apply_scale(&v, &f, other.time_count);
        let f = TemperatureDeltaUnit::conversion_factor(
            &other.temperature_unit,
            &self.temperature_unit,
        );
        apply_scale(&v, &f, other.temperature_count)
    }

    /// Returns the first dimension, in canonical order, whose exponents
    /// differ between the two quantities, if any: such quantities are
    /// not commensurable.
    fn check_commensurable(&self, other: &EngUnit) -> (r: Option<Dimension>)
        ensures
            r is None <==> self@.counts_match(other@),
            r matches Some(d) ==> d == self@.first_mismatch(other@),
    {
        if self.amount_of_substance_count != other.amount_of_substance_count {
            return Some(Dimension::AmountOfSubstance);
        }
        if self.electric_current_count != other.electric_current_count {
            return Some(Dimension::ElectricCurrent);
        }
        if self.mass_count != other.mass_count {
            return Some(Dimension::Mass);
        }
        if self.length_count != other.length_count {
            return Some(Dimension::Length);
        }
        if self.luminous_intensity_count != other.luminous_intensity_count {
            return Some(Dimension::LuminousIntensity);
        }
        if self.time_count != other.time_count {
            return Some(Dimension::Time);
        }
        if self.temperature_count != other.temperature_count {
            return Some(Dimension::Temperature);
        }
        None
    }

    /// The sum of two commensurable quantities: `other` is converted
    /// dimension by dimension into this quantity's units, then the
    /// magnitudes are added; exponents and units are kept.  Quantities
    /// whose exponents differ in any dimension are rejected with that
    /// dimension.
    pub fn add_units(&self, other: &EngUnit) -> (r: Result<EngUnit, Dimension>)
        requires
            self.wf(),
            other.wf(),
            self@.counts_match(other@) ==> add_ok(self@, other@),
        ensures
            r is Ok <==> self@.counts_match(other@),
            r matches Ok(q) ==> q.wf() && q@ == spec_add(self@, other@),
            r matches Err(d) ==> d == self@.first_mismatch(other@),
    {
        match self.check_commensurable(other) {
            Some(d) => Err(d),
            None => {
                let aligned = self.aligned_exec(other);
                let mut q = *self;
                q.value = self.value.add_rat(&aligned);
                Ok(q)
            },
        }
    }

    /// The difference of two commensurable quantities: `other` is
    /// converted dimension by dimension into this quantity's units,
    /// then the magnitudes are subtracted; exponents and units are
    /// kept.  Quantities whose exponents differ in any dimension are
    /// rejected with that dimension.
    pub fn subtract_units(&self, other: &EngUnit) -> (r: Result<EngUnit, Dimension>)
        requires
            self.wf(),
            other.wf(),
            self@.counts_match(other@) ==> sub_ok(self@, other@),
        ensures
            r is Ok <==> self@.counts_match(other@),
            r matches Ok(q) ==> q.wf() && q@ == spec_subtract(self@, other@),
            r matches Err(d) ==> d == self@.first_mismatch(other@),
    {
        match self.check_commensurable(other) {
            Some(d) => Err(d),
            None => {
                let aligned = self.aligned_exec(other);
                let neg = aligned.neg();
                let mut q = *self;
                q.value = self.value.add_rat(&neg);
                Ok(q)
            },
        }
    }

    /// In-place product: replaces this quantity with itself times
    /// `other`.
    pub fn multiply_assign_units(&mut self, other: &EngUnit)
        requires
            old(self).wf(),
            other.wf(),
            mul_ok(old(self)@, other@),
        ensures
            final(self).wf(),
            final(self)@ == spec_multiply(old(self)@, other@),
    {
        let r = self.multiply_units(other);
        *self = r;
    }

    /// In-place quotient: replaces this quantity with itself divided by
    /// `other`, whose magnitude must not be zero.
    pub fn divide_assign_units(&mut self, other: &EngUnit)
        requires
            old(self).wf(),
            other.wf(),
            !other.value.is_zero(),
            other.amount_of_substance_count > i32::MIN,
            other.electric_current_count > i32::MIN,
            other.length_count > i32::MIN,
            other.luminous_intensity_count > i32::MIN,
            other.mass_count > i32::MIN,
            other.temperature_count > i32::MIN,
            other.time_count > i32::MIN,
            mul_ok(old(self)@, spec_reciprocal(other@)),
        ensures
            final(self).wf(),
            final(self)@ == spec_multiply(old(self)@, spec_reciprocal(other@)),
    {
        let r = self.divide_units(other);
        *self = r;
    }

    /// In-place sum: replaces this quantity with the sum where the two
    /// are commensurable; a mismatch reports the offending dimension
    /// and leaves the quantity unchanged.
    pub fn add_assign_units(&mut self, other: &EngUnit) -> (r: Result<(), Dimension>)
        requires
            old(self).wf(),
            other.wf(),
            old(self)@.counts_match(other@) ==> add_ok(old(self)@, other@),
        ensures
            r is Ok <==> old(self)@.counts_match(other@),
            r is Ok ==> final(self).wf() && final(self)@ == spec_add(old(self)@, other@),
            r matches Err(d) ==> d == old(self)@.first_mismatch(other@) && *final(self) == *old(
                self,
            ),
    {
        match self.add_units(other) {
            Ok(q) => {
                *self = q;
                Ok(())
            },
            Err(d) => Err(d),
        }
    }

    /// In-place difference: replaces this quantity with the difference
    /// where the two are commensurable; a mismatch reports the
    /// offending dimension and leaves the quantity unchanged.
    pub fn subtract_assign_units(&mut self, other: &EngUnit) -> (r: Result<(), Dimension>)
        requires
            old(self).wf(),
            other.wf(),
            old(self)@.counts_match(other@) ==> sub_ok(old(self)@, other@),
        ensures
            r is Ok <==> old(self)@.counts_match(other@),
            r is Ok ==> final(self).wf() && final(self)@ == spec_subtract(old(self)@, other@),
            r matches Err(d) ==> d == old(self)@.first_mismatch(other@) && *final(self) == *old(
                self,
            ),
    {
        match self.subtract_units(other) {
            Ok(q) => {
                *self = q;
                Ok(())
            },
            Err(d) => Err(d),
        }
    }

    /// Adds a bare number to the magnitude; exponents and units are
    /// untouched.  A deliberate dimensionally permissive escape hatch,
    /// kept apart from the dimension-checked sum.
    pub fn add_scalar(&self, s: &Rational) -> (r: EngUnit)
        requires
            self.wf(),
            s.wf(),
            pair_fits(padd(self@.value, s@)),
        ensures
            r.wf(),
            r@ == (QModel { value: padd(self@.value, s@), ..self@ }),
    {
        let mut q = *self;
        q.value = self.value.add_rat(s);
        q
    }

    /// Subtracts a bare number from the magnitude; exponents and units
    /// are untouched.
    pub fn subtract_scalar(&self, s: &Rational) -> (r: EngUnit)
        requires
            self.wf(),
            s.wf(),
            pair_fits(padd(self@.value, pneg(s@))),
        ensures
            r.wf(),
            r@ == (QModel { value: padd(self@.value, pneg(s@)), ..self@ }),
    {
        let neg = s.neg();
        let mut q = *self;
        q.value = self.value.add_rat(&neg);
        q
    }

    /// Multiplies the magnitude by a bare number; exponents and units
    /// are untouched.
    pub fn multiply_scalar(&self, s: &Rational) -> (r: EngUnit)
        requires
            self.wf(),
            s.wf(),
            pair_fits(pmul(self@.value, s@)),
        ensures
            r.wf(),
            r@ == (QModel { value: pmul(self@.value, s@), ..self@ }),
    {
        let mut q = *self;
        q.value = self.value.mul(s);
        q
    }

    /// Divides the magnitude by a bare nonzero number; exponents and
    /// units are untouched.
    pub fn divide_scalar(&self, s: &Rational) -> (r: EngUnit)
        requires
            self.wf(),
            s.wf(),
            !s.is_zero(),
            pair_fits(pmul(self@.value, precip(s@))),
        ensures
            r.wf(),
            r@ == (QModel { value: pmul(self@.value, precip(s@)), ..self@ }),
    {
        let inv = s.recip();
        let mut q = *self;
        q.value = self.value.mul(&inv);
        q
    }
}

impl Default for EngUnit {
    /// The dimensionless quantity of magnitude one.
    fn default() -> (r: EngUnit)
        ensures
            r.wf(),
            r@ == unity(),
    {
        EngUnit::new()
    }
}

/// The two quantities have the same unit and the same exponent in every
/// dimension.
pub open spec fn same_units_model(a: QModel, b: QModel) -> bool {
    &&& a.amount_of_substance_unit == b.amount_of_substance_unit
    &&& a.electric_current_unit == b.electric_current_unit
    &&& a.length_unit == b.length_unit
    &&& a.luminous_intensity_unit == b.luminous_intensity_unit
    &&& a.mass_unit == b.mass_unit
    &&& a.temperature_unit == b.temperature_unit
    &&& a.time_unit == b.time_unit
    &&& a.counts_match(b)
}

/// True exactly when both quantities carry the same units and exponents
/// in every dimension.
pub fn same_units(unit_1: &EngUnit, unit_2: &EngUnit) -> (r: bool)
    ensures
        r == same_units_model(unit_1@, unit_2@),
{
    if unit_1.amount_of_substance_unit != unit_2.amount_of_substance_unit {
        return false;
    }
    if unit_1.electric_current_unit != unit_2.electric_current_unit {
        return false;
    }
    if unit_1.length_unit != unit_2.length_unit {
        return false;
    }
    if unit_1.luminous_intensity_unit != unit_2.luminous_intensity_unit {
        return false;
    }
    if unit_1.mass_unit != unit_2.mass_unit {
        return false;
    }
    if unit_1.temperature_unit != unit_2.temperature_unit {
        return false;
    }
    if unit_1.time_unit != unit_2.time_unit {
        return false;
    }
    if unit_1.amount_of_substance_count != unit_2.amount_of_substance_count {
        return false;
    }
    if unit_1.electric_current_count != unit_2.electric_current_count {
        return false;
    }
    if unit_1.length_count != unit_2.length_count {
        return false;
    }
    if unit_1.luminous_intensity_count != unit_2.luminous_intensity_count {
        return false;
    }
    if unit_1.mass_count != unit_2.mass_count {
        return false;
    }
    if unit_1.temperature_count != unit_2.temperature_count {
        return false;
    }
    if unit_1.time_count != unit_2.time_count {
        return false;
    }
    true
}

} // verus!
